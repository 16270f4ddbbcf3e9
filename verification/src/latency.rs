//! The latency benchmark: one market order, one resting limit order, and the
//! modification that makes the limit order cross, each timed from its
//! submission to its acknowledgment.
//!
//! The benchmark is a state machine over any order-entry backend. It hands
//! out one call at a time, takes in the backend's reply together with a
//! reading of the clock, and ends with a report or with the first error.

use crate::clock::{nanos_between, Timestamp};
use crate::fix::{
    FixError, FixErrorView, OrderAck, OrderAckView, OrderRequest, OrderRequestView, OrderType,
    Side,
};
use crate::number::Number;
use vstd::prelude::*;

verus! {

/// One timed step of a benchmark.
#[derive(Debug, Clone, Copy, PartialEq, Eq)]
pub struct LatencySample {
    pub path: &'static str,
    pub elapsed_nanos: u64,
}

/// What a benchmark measured: the round trip of the market order and that of
/// the crossing modification, in nanoseconds.
#[derive(Debug, Clone, Copy, PartialEq, Eq, Structural)]
pub struct LatencyReport {
    pub market_buy_nanos: u64,
    pub modify_cross_nanos: u64,
}

/// A call on the order-entry backend.
#[derive(Debug, PartialEq, Eq)]
pub enum PortCall {
    /// Submit this order.
    SendOrder(OrderRequest),
    /// Change the price of the order `order_id` to `new_price`.
    ModifyOrder { order_id: String, new_price: Number },
}

/// A call on the backend, with its texts as sequences of characters.
pub enum PortCallView {
    SendOrder(OrderRequestView),
    ModifyOrder { order_id: Seq<char>, new_price: Number },
}

impl View for PortCall {
    type V = PortCallView;

    open spec fn view(&self) -> PortCallView {
        match self {
            PortCall::SendOrder(request) => PortCallView::SendOrder(request@),
            PortCall::ModifyOrder { order_id, new_price } => PortCallView::ModifyOrder {
                order_id: order_id@,
                new_price: *new_price,
            },
        }
    }
}

/// Which call of the benchmark is outstanding.
#[derive(Debug, Clone, Copy, PartialEq, Eq, Structural)]
pub enum Step {
    /// The market order.
    MarketBuy,
    /// The limit order that rests below the market.
    RestingLimit,
    /// The modification that moves the limit order to the crossing price.
    ModifyCross,
}

/// A benchmark under way.
#[derive(Debug)]
pub struct Benchmark {
    instrument: String,
    quantity: Number,
    resting_price: Number,
    cross_price: Number,
    step: Step,
    started: Timestamp,
    market_buy_nanos: u64,
}

/// The state of a benchmark under way.
pub struct BenchmarkView {
    pub instrument: Seq<char>,
    pub quantity: Number,
    /// The price of the limit order when it is submitted.
    pub resting_price: Number,
    /// The price that the limit order is moved to.
    pub cross_price: Number,
    pub step: Step,
    /// When the timed call that is outstanding, or the next one, began.
    pub started: Timestamp,
    /// The round trip of the market order, once it is known.
    pub market_buy_nanos: u64,
}

/// How far a benchmark has come.
#[derive(Debug)]
pub enum Progress {
    /// The benchmark goes on: make this call and hand back its reply.
    Call(Benchmark, PortCall),
    /// All three calls were acknowledged.
    Done(LatencyReport),
    /// A call failed. Nothing of what was measured before it is returned.
    Failed(FixError),
}

/// How far a benchmark has come, over the views of what it holds.
pub enum ProgressView {
    Call(BenchmarkView, PortCallView),
    Done(LatencyReport),
    Failed(FixErrorView),
}

/// What a backend's reply says.
pub open spec fn reply_view(reply: Result<OrderAck, FixError>) -> Result<OrderAckView, FixErrorView> {
    match reply {
        Ok(ack) => Ok(ack@),
        Err(error) => Err(error@),
    }
}

/// A buy order for the benchmark's instrument and quantity.
pub open spec fn buy_order(benchmark: BenchmarkView, order_type: OrderType) -> PortCallView {
    PortCallView::SendOrder(
        OrderRequestView {
            instrument: benchmark.instrument,
            side: Side::Buy,
            quantity: benchmark.quantity,
            order_type,
        },
    )
}

impl BenchmarkView {
    /// The state in which a benchmark begins at the reading `now`: the
    /// market order is outstanding.
    pub open spec fn begin(
        instrument: Seq<char>,
        quantity: Number,
        resting_price: Number,
        cross_price: Number,
        now: Timestamp,
    ) -> BenchmarkView {
        BenchmarkView {
            instrument,
            quantity,
            resting_price,
            cross_price,
            step: Step::MarketBuy,
            started: now,
            market_buy_nanos: 0,
        }
    }

    /// The first call of the benchmark: a market buy.
    pub open spec fn first_call(self) -> PortCallView {
        buy_order(self, OrderType::Market)
    }

    /// What follows the reply to the outstanding call, handed in at the
    /// reading `now`.
    ///
    /// An error ends the benchmark with that error. The acknowledgment of
    /// the market order fixes its round trip, from the beginning of the
    /// benchmark to the acknowledgment, and is followed by the limit order at
    /// the resting price. The acknowledgment of the limit order is followed
    /// at once by its modification to the crossing price, timed from `now`.
    /// The acknowledgment of the modification fixes the second round trip
    /// and ends the benchmark with the report.
    pub open spec fn advance(self, reply: Result<OrderAckView, FixErrorView>, now: Timestamp)
        -> ProgressView {
        match reply {
            Err(error) => ProgressView::Failed(error),
            Ok(ack) => match self.step {
                Step::MarketBuy => {
                    let next = BenchmarkView {
                        step: Step::RestingLimit,
                        market_buy_nanos: nanos_between(self.started, ack.acked_at),
                        ..self
                    };
                    ProgressView::Call(next, buy_order(next, OrderType::Limit(self.resting_price)))
                },
                Step::RestingLimit => {
                    let next = BenchmarkView { step: Step::ModifyCross, started: now, ..self };
                    ProgressView::Call(
                        next,
                        PortCallView::ModifyOrder {
                            order_id: ack.order_id,
                            new_price: self.cross_price,
                        },
                    )
                },
                Step::ModifyCross => ProgressView::Done(
                    LatencyReport {
                        market_buy_nanos: self.market_buy_nanos,
                        modify_cross_nanos: nanos_between(self.started, ack.acked_at),
                    },
                ),
            },
        }
    }
}

/// An error at any step ends the benchmark with that error, and with nothing
/// of what was measured before.
pub proof fn lemma_error_aborts_benchmark(
    benchmark: BenchmarkView,
    error: FixErrorView,
    now: Timestamp,
)
    ensures
        benchmark.advance(Err(error), now) == ProgressView::Failed(error),
{
}

/// The benchmark is strictly sequential. It begins with a market buy; the
/// acknowledgment of that order is followed by a limit buy at the resting
/// price; the acknowledgment of the limit order, handed in at `limit_seen`,
/// is followed by the modification of that very order to the crossing price;
/// and the acknowledgment of the modification ends the benchmark. The report
/// holds the time from the beginning to the first acknowledgment, and the
/// time from `limit_seen` to the last.
pub proof fn lemma_benchmark_sequence(
    begun: BenchmarkView,
    market_ack: OrderAckView,
    market_seen: Timestamp,
    limit_ack: OrderAckView,
    limit_seen: Timestamp,
    modify_ack: OrderAckView,
    modify_seen: Timestamp,
)
    requires
        begun.step == Step::MarketBuy,
    ensures
        ({
            let first = begun.advance(Ok(market_ack), market_seen);
            let second = first->Call_0.advance(Ok(limit_ack), limit_seen);
            let third = second->Call_0.advance(Ok(modify_ack), modify_seen);
            &&& begun.first_call() == buy_order(begun, OrderType::Market)
            &&& first is Call
            &&& first->Call_1 == buy_order(begun, OrderType::Limit(begun.resting_price))
            &&& second is Call
            &&& second->Call_1 == (PortCallView::ModifyOrder {
                order_id: limit_ack.order_id,
                new_price: begun.cross_price,
            })
            &&& third == ProgressView::Done(
                LatencyReport {
                    market_buy_nanos: nanos_between(begun.started, market_ack.acked_at),
                    modify_cross_nanos: nanos_between(limit_seen, modify_ack.acked_at),
                },
            )
        }),
{
}

impl View for Benchmark {
    type V = BenchmarkView;

    closed spec fn view(&self) -> BenchmarkView {
        BenchmarkView {
            instrument: self.instrument@,
            quantity: self.quantity,
            resting_price: self.resting_price,
            cross_price: self.cross_price,
            step: self.step,
            started: self.started,
            market_buy_nanos: self.market_buy_nanos,
        }
    }
}

impl View for Progress {
    type V = ProgressView;

    open spec fn view(&self) -> ProgressView {
        match self {
            Progress::Call(benchmark, call) => ProgressView::Call(benchmark@, call@),
            Progress::Done(report) => ProgressView::Done(*report),
            Progress::Failed(error) => ProgressView::Failed(error@),
        }
    }
}

/// Begins a benchmark on `instrument` with orders of quantity `qty`, at the
/// reading `now`, and returns it with its first call, the market buy. The
/// limit order will rest at `resting_price` and be moved to `cross_price`.
pub fn benchmark_order_paths(
    instrument: &str,
    qty: Number,
    resting_price: Number,
    cross_price: Number,
    now: Timestamp,
) -> (begun: (Benchmark, PortCall))
    ensures
        begun.0@ == BenchmarkView::begin(instrument@, qty, resting_price, cross_price, now),
        begun.1@ == begun.0@.first_call(),
{
    let benchmark = Benchmark {
        instrument: String::from_str(instrument),
        quantity: qty,
        resting_price,
        cross_price,
        step: Step::MarketBuy,
        started: now,
        market_buy_nanos: 0,
    };
    let call = benchmark.buy(OrderType::Market);
    (benchmark, call)
}

impl Benchmark {
    /// Which call is outstanding.
    pub fn step(&self) -> (step: Step)
        ensures
            step == self@.step,
    {
        self.step
    }

    /// A buy order for the instrument and quantity of the benchmark.
    fn buy(&self, order_type: OrderType) -> (call: PortCall)
        ensures
            call@ == buy_order(self@, order_type),
    {
        PortCall::SendOrder(
            OrderRequest {
                instrument: self.instrument.clone(),
                side: Side::Buy,
                quantity: self.quantity,
                order_type,
            },
        )
    }

    /// Takes in the backend's reply to the outstanding call, at the reading
    /// `now`, and says how the benchmark goes on.
    pub fn advance(self, reply: Result<OrderAck, FixError>, now: Timestamp) -> (progress: Progress)
        ensures
            progress@ == self@.advance(reply_view(reply), now),
    {
        let ack = match reply {
            Ok(ack) => ack,
            Err(error) => {
                return Progress::Failed(error);
            },
        };
        match self.step {
            Step::MarketBuy => {
                let mut next = self;
                next.step = Step::RestingLimit;
                next.market_buy_nanos = ack.acked_at().nanos_since(next.started);
                let call = next.buy(OrderType::Limit(next.resting_price));
                Progress::Call(next, call)
            },
            Step::RestingLimit => {
                let mut next = self;
                next.step = Step::ModifyCross;
                next.started = now;
                let call = PortCall::ModifyOrder {
                    order_id: ack.order_id().clone(),
                    new_price: next.cross_price,
                };
                Progress::Call(next, call)
            },
            Step::ModifyCross => Progress::Done(
                LatencyReport {
                    market_buy_nanos: self.market_buy_nanos,
                    modify_cross_nanos: ack.acked_at().nanos_since(self.started),
                },
            ),
        }
    }
}

} // verus!
