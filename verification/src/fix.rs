//! Order entry: requests, acknowledgments, errors, and the simulated backend.
//!
//! The simulated backend checks an order against the business rules first,
//! and answers an order that passes after a round trip whose length it draws
//! at random between two bounds. Waiting out the round trip and reading the
//! clock are the caller's part; whether the order is accepted, which delay
//! to wait, and what the acknowledgment holds is decided here.

use crate::clock::{later_of, nanos_between, Timestamp};
use crate::number::{encodes_at_most_zero, Number};
use rand::Rng;
use std::time::Duration;
use vstd::prelude::*;

verus! {

/// Why an order-entry operation failed.
#[derive(Debug, PartialEq, Eq)]
pub enum FixError {
    /// The transport to the exchange failed; the caller may try again.
    Connection(String),
    /// The request violates a business rule.
    Rejected(String),
}

/// An order-entry error, with its detail as a sequence of characters.
pub enum FixErrorView {
    Connection(Seq<char>),
    Rejected(Seq<char>),
}

impl View for FixError {
    type V = FixErrorView;

    open spec fn view(&self) -> FixErrorView {
        match self {
            FixError::Connection(detail) => FixErrorView::Connection(detail@),
            FixError::Rejected(detail) => FixErrorView::Rejected(detail@),
        }
    }
}

/// The text that describes an error.
pub open spec fn error_text(error: FixErrorView) -> Seq<char> {
    match error {
        FixErrorView::Connection(detail) => "connection failure: "@ + detail,
        FixErrorView::Rejected(detail) => "order rejected: "@ + detail,
    }
}

impl FixError {
    /// The text that describes the error.
    pub fn message(&self) -> (text: String)
        ensures
            text@ == error_text(self@),
    {
        match self {
            FixError::Connection(detail) => {
                String::from_str("connection failure: ").concat(detail.as_str())
            },
            FixError::Rejected(detail) => {
                String::from_str("order rejected: ").concat(detail.as_str())
            },
        }
    }
}

/// The side of an order.
#[derive(Clone, Copy, Debug, PartialEq, Eq, Structural)]
pub enum Side {
    Buy,
    Sell,
}

/// How an order is priced.
#[derive(Clone, Copy, Debug, PartialEq, Eq, Structural)]
pub enum OrderType {
    /// At whatever the market gives.
    Market,
    /// At this price or better.
    Limit(Number),
}

/// A request to enter an order.
#[derive(Debug, PartialEq, Eq)]
pub struct OrderRequest {
    pub instrument: String,
    pub side: Side,
    pub quantity: Number,
    pub order_type: OrderType,
}

/// An order request, with the instrument as a sequence of characters.
pub struct OrderRequestView {
    pub instrument: Seq<char>,
    pub side: Side,
    pub quantity: Number,
    pub order_type: OrderType,
}

impl View for OrderRequest {
    type V = OrderRequestView;

    open spec fn view(&self) -> OrderRequestView {
        OrderRequestView {
            instrument: self.instrument@,
            side: self.side,
            quantity: self.quantity,
            order_type: self.order_type,
        }
    }
}

/// The business rule on prices: a limit order is priced above zero. A limit
/// price that compares `<= 0` violates it; a market order cannot.
pub open spec fn violates_price_rule(order_type: OrderType) -> bool {
    match order_type {
        OrderType::Market => false,
        OrderType::Limit(price) => encodes_at_most_zero(price.bits),
    }
}

/// Whether the order type violates the business rule on prices.
pub fn breaks_price_rule(order_type: &OrderType) -> (broken: bool)
    ensures
        broken == violates_price_rule(*order_type),
{
    match order_type {
        OrderType::Market => false,
        OrderType::Limit(price) => price.is_at_most_zero(),
    }
}

/// The acknowledgment of an order. An order is acknowledged no earlier than
/// it was sent.
#[derive(Debug, PartialEq, Eq)]
pub struct OrderAck {
    order_id: String,
    sent_at: Timestamp,
    acked_at: Timestamp,
}

/// An acknowledgment, with the order's identifier as a sequence of
/// characters.
pub struct OrderAckView {
    pub order_id: Seq<char>,
    pub sent_at: Timestamp,
    pub acked_at: Timestamp,
}

impl View for OrderAck {
    type V = OrderAckView;

    closed spec fn view(&self) -> OrderAckView {
        OrderAckView {
            order_id: self.order_id@,
            sent_at: self.sent_at,
            acked_at: self.acked_at,
        }
    }
}

impl OrderAck {
    #[verifier::type_invariant]
    spec fn acknowledged_after_sent(&self) -> bool {
        self.acked_at.nanos >= self.sent_at.nanos
    }

    /// The acknowledgment of the order `order_id`, sent at `sent_at` and
    /// acknowledged at `acked_at`. A reading for the acknowledgment that lies
    /// before the sending is taken as the time of the sending.
    pub fn new(order_id: String, sent_at: Timestamp, acked_at: Timestamp) -> (ack: OrderAck)
        ensures
            ack@ == (OrderAckView {
                order_id: order_id@,
                sent_at,
                acked_at: later_of(sent_at, acked_at),
            }),
    {
        OrderAck { order_id, sent_at, acked_at: acked_at.or_later(sent_at) }
    }

    /// The identifier that the backend gave the order.
    pub fn order_id(&self) -> (order_id: &String)
        ensures
            order_id@ == self@.order_id,
    {
        &self.order_id
    }

    /// When the order was sent.
    pub fn sent_at(&self) -> (sent_at: Timestamp)
        ensures
            sent_at == self@.sent_at,
            sent_at.nanos <= self@.acked_at.nanos,
    {
        proof {
            use_type_invariant(self);
        }
        self.sent_at
    }

    /// When the order was acknowledged.
    pub fn acked_at(&self) -> (acked_at: Timestamp)
        ensures
            acked_at == self@.acked_at,
            acked_at.nanos >= self@.sent_at.nanos,
    {
        proof {
            use_type_invariant(self);
        }
        self.acked_at
    }
}

/// The character of one decimal digit.
pub open spec fn decimal_digit(digit: nat) -> char {
    if digit == 0 {
        '0'
    } else if digit == 1 {
        '1'
    } else if digit == 2 {
        '2'
    } else if digit == 3 {
        '3'
    } else if digit == 4 {
        '4'
    } else if digit == 5 {
        '5'
    } else if digit == 6 {
        '6'
    } else if digit == 7 {
        '7'
    } else if digit == 8 {
        '8'
    } else {
        '9'
    }
}

/// The decimal digits of a number, most significant first, without leading
/// zeros.
pub open spec fn decimal_digits(number: nat) -> Seq<char>
    decreases number,
{
    if number < 10 {
        seq![decimal_digit(number)]
    } else {
        decimal_digits(number / 10).push(decimal_digit(number % 10))
    }
}

/// Formats an integer with `format!` and the `{}` placeholder, which writes
/// an unsigned integer as its decimal digits, without sign, padding or
/// leading zeros.
#[verifier::external_body]
fn decimal_text(number: u64) -> (text: String)
    ensures
        text@ == decimal_digits(number as nat),
{
    format!("{}", number)
}

/// What the simulated backend acknowledges: the order is sent at `sent_at`,
/// acknowledged at the reading `now` (or at `sent_at`, should `now` lie
/// before it), and identified by `prefix` and the nanoseconds in between.
pub open spec fn simulated_ack(prefix: Seq<char>, sent_at: Timestamp, now: Timestamp)
    -> OrderAckView {
    OrderAckView {
        order_id: prefix + decimal_digits(nanos_between(sent_at, now) as nat),
        sent_at,
        acked_at: later_of(sent_at, now),
    }
}

/// The whole nanoseconds of a duration.
pub uninterp spec fn whole_nanos(duration: Duration) -> u128;

/// `Duration::as_nanos` returns the total number of nanoseconds that the
/// duration contains.
pub assume_specification[ Duration::as_nanos ](duration: &Duration) -> (nanos: u128)
    ensures
        nanos == whole_nanos(*duration),
;

/// Calls `gen_range` of `rand` on the thread's generator with the inclusive
/// range from `low` to `high`. The call panics on an empty range, which the
/// precondition excludes; what it returns lies in the range.
#[verifier::external_body]
fn random_between(low: u128, high: u128) -> (drawn: u128)
    requires
        low <= high,
    ensures
        low <= drawn <= high,
{
    rand::thread_rng().gen_range(low..=high)
}

/// A simulated order-entry backend, which models the network and the
/// exchange by a round trip of random length between two bounds.
#[derive(Debug, Clone, Copy)]
pub struct MockFixClient {
    pub min_latency: Duration,
    pub max_latency: Duration,
}

impl MockFixClient {
    /// A backend whose round trips take between `min_latency` and
    /// `max_latency`.
    pub fn new(min_latency: Duration, max_latency: Duration) -> (client: MockFixClient)
        ensures
            client.min_latency == min_latency,
            client.max_latency == max_latency,
    {
        MockFixClient { min_latency, max_latency }
    }

    /// The shortest round trip, in nanoseconds.
    pub open spec fn min_nanos(&self) -> u128 {
        whole_nanos(self.min_latency)
    }

    /// The longest round trip, in nanoseconds.
    pub open spec fn max_nanos(&self) -> u128 {
        whole_nanos(self.max_latency)
    }

    /// Checks an order against the business rules, before any round trip is
    /// drawn or waited out: a limit order priced at or below zero is
    /// rejected, and every other order is let through.
    pub fn validate(&self, request: &OrderRequest) -> (checked: Result<(), FixError>)
        ensures
            match checked {
                Ok(_) => !violates_price_rule(request.order_type),
                Err(error) => violates_price_rule(request.order_type) && error@
                    == FixErrorView::Rejected("limit price must be positive"@),
            },
    {
        if breaks_price_rule(&request.order_type) {
            Err(FixError::Rejected(String::from_str("limit price must be positive")))
        } else {
            Ok(())
        }
    }

    /// Draws the length of one round trip, in nanoseconds, between the two
    /// bounds.
    pub fn draw_round_trip(&self) -> (nanos: u128)
        requires
            self.min_nanos() <= self.max_nanos(),
        ensures
            self.min_nanos() <= nanos <= self.max_nanos(),
    {
        let low = self.min_latency.as_nanos();
        let high = self.max_latency.as_nanos();
        random_between(low, high)
    }

    /// Draws the length of one round trip, in nanoseconds, where the bounds
    /// allow one: `None` where the lower bound lies above the upper.
    pub fn simulate_round_trip(&self) -> (nanos: Option<u128>)
        ensures
            nanos is Some <==> self.min_nanos() <= self.max_nanos(),
            nanos matches Some(drawn) ==> self.min_nanos() <= drawn <= self.max_nanos(),
    {
        let low = self.min_latency.as_nanos();
        let high = self.max_latency.as_nanos();
        if low <= high {
            Some(self.draw_round_trip())
        } else {
            None
        }
    }

    /// Answers an order that was sent at `sent_at`, after its round trip, at
    /// the reading `now`. An order that `validate` rejects is rejected here
    /// too, whatever the latency bounds, so that no order is acknowledged
    /// unchecked; every other order is acknowledged. A caller that validates
    /// first spends no round trip on an order that is rejected.
    pub fn send_order(&self, request: OrderRequest, sent_at: Timestamp, now: Timestamp) -> (outcome:
        Result<OrderAck, FixError>)
        ensures
            match outcome {
                Ok(ack) => !violates_price_rule(request.order_type) && ack@ == simulated_ack(
                    "SIM-"@,
                    sent_at,
                    now,
                ),
                Err(error) => violates_price_rule(request.order_type) && error@
                    == FixErrorView::Rejected("limit price must be positive"@),
            },
    {
        match self.validate(&request) {
            Ok(_) => {},
            Err(error) => {
                return Err(error);
            },
        }
        let order_id = String::from_str("SIM-").concat(decimal_text(now.nanos_since(sent_at)).as_str());
        Ok(OrderAck::new(order_id, sent_at, now))
    }

    /// Answers the modification of an order, sent at `sent_at`, after its
    /// round trip, at the reading `now`. The simulated backend accepts every
    /// new price.
    pub fn modify_order(&self, order_id: &str, new_price: Number, sent_at: Timestamp, now: Timestamp)
        -> (outcome: Result<OrderAck, FixError>)
        ensures
            outcome matches Ok(ack) && ack@ == simulated_ack("MOD-"@, sent_at, now),
    {
        let modified_id = String::from_str("MOD-").concat(decimal_text(now.nanos_since(sent_at)).as_str());
        Ok(OrderAck::new(modified_id, sent_at, now))
    }
}

} // verus!
