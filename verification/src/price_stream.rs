//! Supervision of the market-data connection.
//!
//! The supervisor is a state machine. It issues one command at a time to
//! whoever owns the transport (connect, send, receive, wait), is told what
//! came of it, and decides what happens next. Decoded updates go straight
//! into the distributor that the stream owns.

use crate::distributor::{Distributor, Fanout};
use crate::update::{decoded, parse_update, Envelope, PriceUpdate};
use vstd::prelude::*;

verus! {

/// How many updates each subscriber's buffer holds.
pub const BUFFER_CAPACITY: usize = 1024;

/// How long the supervisor waits after a lost connection before it connects
/// again, in milliseconds. The delay is the same for every attempt.
pub const RECONNECT_BACKOFF_MILLIS: u64 = 1000;

/// What stands before the market in the subscribe request.
pub const SUBSCRIBE_HEAD: &'static str =
    "{\"action\":\"subscribe\",\"channels\":[{\"name\":\"markets\",\"market\":";

/// What stands behind the market in the subscribe request.
pub const SUBSCRIBE_TAIL: &'static str = "}]}";

/// The JSON string literal for `text`: the text between double quotes, with
/// the characters that JSON does not allow in a string escaped.
pub uninterp spec fn json_string_literal(text: Seq<char>) -> Seq<char>;

/// Calls `serde_json::to_string` on a string slice, which writes the slice as
/// a JSON string literal. The call reports an error only where a value's own
/// serialisation fails or a map has a key that is no string; a string slice
/// is neither, so the literal always comes back.
#[verifier::external_body]
fn json_quote(text: &str) -> (quoted: String)
    ensures
        quoted@ == json_string_literal(text@),
{
    serde_json::to_string(text).unwrap_or_default()
}

/// The subscribe request around a market that is already written as a JSON
/// string literal.
pub open spec fn subscribe_text(quoted_market: Seq<char>) -> Seq<char> {
    SUBSCRIBE_HEAD@ + quoted_market + SUBSCRIBE_TAIL@
}

/// Builds the subscribe request around `quoted_market`, the market as a JSON
/// string literal.
pub fn subscribe_frame(quoted_market: &str) -> (request: String)
    ensures
        request@ == subscribe_text(quoted_market@),
{
    let mut request = String::from_str(SUBSCRIBE_HEAD);
    request.append(quoted_market);
    request.append(SUBSCRIBE_TAIL);
    request
}

/// Builds the request that subscribes to the price channel of `market`:
/// `{"action":"subscribe","channels":[{"name":"markets","market":<market>}]}`
/// with the market as a JSON string literal.
pub fn subscribe_request(market: &str) -> (request: String)
    ensures
        request@ == subscribe_text(json_string_literal(market@)),
{
    let quoted = json_quote(market);
    subscribe_frame(quoted.as_str())
}

/// Where the supervisor stands in the life of the connection.
#[derive(Clone, Copy, Debug, PartialEq, Eq, Structural)]
pub enum Phase {
    /// No run has begun, or the run was stopped.
    Disconnected,
    /// A connection attempt is under way.
    Connecting,
    /// The connection is open and the subscribe request is on its way.
    Subscribing,
    /// Subscribed; the next inbound frame is awaited.
    Connected,
    /// A heartbeat was received and its reply is on its way.
    Answering,
    /// The connection was lost; the backoff is running.
    Reconnecting,
    /// The first handshake failed; the run is over.
    Failed,
}

/// An inbound frame.
#[derive(Debug)]
pub enum Frame {
    /// A text frame: the envelope it holds, or `None` where the text is not
    /// a valid envelope.
    Text(Option<Envelope>),
    /// A heartbeat with its payload.
    Ping(Vec<u8>),
    /// The server closes the connection.
    Close,
    /// Any other frame.
    Other,
}

/// What came of the command that the supervisor issued last.
#[derive(Debug)]
pub enum Event {
    /// The connection is open.
    Opened,
    /// The frame was sent.
    Sent,
    /// A frame arrived.
    Received(Frame),
    /// The wait is over.
    Elapsed,
    /// The transport reported an error.
    Failed,
    /// The connection ended without a close frame.
    Ended,
}

/// What the owner of the transport is to do next.
#[derive(Debug, PartialEq, Eq)]
pub enum Command {
    /// Nothing: no run is under way.
    Standby,
    /// Open a connection to the endpoint, dropping the one held so far.
    Connect(String),
    /// Send a text frame.
    SendText(String),
    /// Send a heartbeat reply with this payload.
    SendPong(Vec<u8>),
    /// Wait for the next inbound frame.
    Receive,
    /// Wait this many milliseconds.
    Wait(u64),
    /// Give up and report the transport error to the caller of the run.
    Abort,
}

/// A command, with its text and bytes as sequences.
pub enum CommandView {
    Standby,
    Connect(Seq<char>),
    SendText(Seq<char>),
    SendPong(Seq<u8>),
    Receive,
    Wait(u64),
    Abort,
}

impl View for Command {
    type V = CommandView;

    open spec fn view(&self) -> CommandView {
        match self {
            Command::Standby => CommandView::Standby,
            Command::Connect(endpoint) => CommandView::Connect(endpoint@),
            Command::SendText(text) => CommandView::SendText(text@),
            Command::SendPong(payload) => CommandView::SendPong(payload@),
            Command::Receive => CommandView::Receive,
            Command::Wait(millis) => CommandView::Wait(*millis),
            Command::Abort => CommandView::Abort,
        }
    }
}

/// Whether the event reports that the connection is gone: a transport error
/// or the end of the stream.
pub open spec fn is_loss(event: Event) -> bool {
    event is Failed || event is Ended
}

/// The state of a price stream.
pub struct StreamModel {
    /// Where the market-data source is.
    pub endpoint: Seq<char>,
    /// The market that the run subscribes to.
    pub market: Seq<char>,
    pub phase: Phase,
    /// Whether a handshake (connect, then subscribe) has succeeded in this
    /// run.
    pub established: bool,
    /// The payload of the heartbeat that is being answered.
    pub ping: Seq<u8>,
    /// The subscribers and what waits for them.
    pub feed: Fanout,
}

impl StreamModel {
    /// A stream that has not run yet.
    pub open spec fn idle(endpoint: Seq<char>) -> StreamModel {
        StreamModel {
            endpoint,
            market: Seq::empty(),
            phase: Phase::Disconnected,
            established: false,
            ping: Seq::empty(),
            feed: Fanout::empty(BUFFER_CAPACITY as nat),
        }
    }

    /// Every buffer holds up to `BUFFER_CAPACITY` updates and is within that
    /// bound, and a connection that is or was subscribed has had its
    /// handshake.
    pub open spec fn wf(self) -> bool {
        &&& self.feed.wf()
        &&& self.feed.capacity == BUFFER_CAPACITY
        &&& (self.phase == Phase::Connected || self.phase == Phase::Answering || self.phase
            == Phase::Reconnecting) ==> self.established
    }

    /// The state in which a run for `market` begins: the first connection
    /// attempt is under way.
    pub open spec fn start(self, market: Seq<char>) -> StreamModel {
        StreamModel {
            market,
            phase: Phase::Connecting,
            established: false,
            ping: Seq::empty(),
            ..self
        }
    }

    /// The state after the run was stopped from outside.
    pub open spec fn stop(self) -> StreamModel {
        StreamModel { phase: Phase::Disconnected, established: false, ping: Seq::empty(), ..self }
    }

    /// The state, in another phase.
    pub open spec fn at(self, phase: Phase) -> StreamModel {
        StreamModel { phase, ..self }
    }

    /// The state after the connection was lost or could not be made: fatal
    /// before the first successful handshake, a reconnect after it.
    pub open spec fn lose(self) -> StreamModel {
        if self.established {
            self.at(Phase::Reconnecting)
        } else {
            self.at(Phase::Failed)
        }
    }

    /// The command that is outstanding in this state.
    pub open spec fn command(self) -> CommandView {
        match self.phase {
            Phase::Disconnected => CommandView::Standby,
            Phase::Connecting => CommandView::Connect(self.endpoint),
            Phase::Subscribing => CommandView::SendText(
                subscribe_text(json_string_literal(self.market)),
            ),
            Phase::Connected => CommandView::Receive,
            Phase::Answering => CommandView::SendPong(self.ping),
            Phase::Reconnecting => CommandView::Wait(RECONNECT_BACKOFF_MILLIS),
            Phase::Failed => CommandView::Abort,
        }
    }

    /// The state after `event`. An event that does not answer the
    /// outstanding command changes nothing.
    pub open spec fn step(self, event: Event) -> StreamModel {
        match self.phase {
            Phase::Disconnected => self,
            Phase::Failed => self,
            Phase::Connecting => match event {
                Event::Opened => self.at(Phase::Subscribing),
                Event::Failed => self.lose(),
                Event::Ended => self.lose(),
                _ => self,
            },
            Phase::Subscribing => match event {
                Event::Sent => StreamModel { phase: Phase::Connected, established: true, ..self },
                Event::Failed => self.lose(),
                Event::Ended => self.lose(),
                _ => self,
            },
            Phase::Connected => match event {
                Event::Received(Frame::Text(Some(envelope))) => StreamModel {
                    feed: self.feed.publish(decoded(envelope)),
                    ..self
                },
                Event::Received(Frame::Ping(payload)) => StreamModel {
                    phase: Phase::Answering,
                    ping: payload@,
                    ..self
                },
                Event::Received(Frame::Close) => self.at(Phase::Reconnecting),
                Event::Failed => self.at(Phase::Reconnecting),
                Event::Ended => self.at(Phase::Reconnecting),
                _ => self,
            },
            Phase::Answering => match event {
                Event::Sent => StreamModel { phase: Phase::Connected, ping: Seq::empty(), ..self },
                Event::Failed => self.at(Phase::Reconnecting),
                Event::Ended => self.at(Phase::Reconnecting),
                _ => self,
            },
            Phase::Reconnecting => match event {
                Event::Elapsed => self.at(Phase::Connecting),
                _ => self,
            },
        }
    }
}

/// Whether the event closes the connection that was subscribed: a close
/// frame, a transport error, or the end of the stream.
pub open spec fn ends_connection(event: Event) -> bool {
    event == Event::Received(Frame::Close) || is_loss(event)
}

/// Every step keeps the state well formed, and keeps the endpoint and the
/// market of the run.
pub proof fn lemma_step_preserves_wf(state: StreamModel, event: Event)
    requires
        state.wf(),
    ensures
        state.step(event).wf(),
        state.step(event).endpoint == state.endpoint,
        state.step(event).market == state.market,
{
}

/// Only a text frame that holds a valid envelope, received while subscribed,
/// publishes an update, and it publishes the update that the envelope
/// decodes to. Every other event, a text frame that is no valid envelope
/// among them, leaves the subscribers' buffers as they are.
pub proof fn lemma_only_a_valid_envelope_is_published(state: StreamModel, event: Event)
    ensures
        match event {
            Event::Received(Frame::Text(Some(envelope))) => state.step(event).feed == if state.phase
                == Phase::Connected {
                state.feed.publish(decoded(envelope))
            } else {
                state.feed
            },
            _ => state.step(event).feed == state.feed,
        },
        state.step(Event::Received(Frame::Text(None))) == state,
{
}

/// One reconnect and one resubscribe per failure: when the subscribed
/// connection closes or fails, the supervisor orders the backoff wait and
/// nothing else; nothing but the end of that wait makes it connect; the
/// open connection makes it send the subscribe request of the run; and the
/// sent request brings it back to receiving. The subscribers' buffers are
/// the same throughout.
pub proof fn lemma_one_reconnect_per_failure(state: StreamModel, failure: Event)
    requires
        state.wf(),
        state.phase == Phase::Connected || state.phase == Phase::Answering,
        if state.phase == Phase::Connected {
            ends_connection(failure)
        } else {
            is_loss(failure)
        },
    ensures
        ({
            let waiting = state.step(failure);
            let connecting = waiting.step(Event::Elapsed);
            let subscribing = connecting.step(Event::Opened);
            let receiving = subscribing.step(Event::Sent);
            &&& waiting.phase == Phase::Reconnecting
            &&& waiting.command() == CommandView::Wait(RECONNECT_BACKOFF_MILLIS)
            &&& forall|other: Event| !(other is Elapsed) ==> #[trigger] waiting.step(other) == waiting
            &&& connecting.phase == Phase::Connecting
            &&& connecting.command() == CommandView::Connect(state.endpoint)
            &&& subscribing.phase == Phase::Subscribing
            &&& subscribing.command() == CommandView::SendText(
                subscribe_text(json_string_literal(state.market)),
            )
            &&& receiving.phase == Phase::Connected
            &&& receiving.command() == CommandView::Receive
            &&& receiving.feed == state.feed
        }),
{
}

/// A heartbeat is answered before the next frame is read: a ping received
/// while subscribed orders a pong with the same payload, and the supervisor
/// orders the next receive only once that pong has been sent.
pub proof fn lemma_pong_precedes_next_receive(state: StreamModel, payload: Vec<u8>)
    requires
        state.phase == Phase::Connected,
    ensures
        ({
            let answering = state.step(Event::Received(Frame::Ping(payload)));
            &&& answering.command() == CommandView::SendPong(payload@)
            &&& forall|other: Event|
                !(other is Sent) ==> (#[trigger] answering.step(other)).command()
                    != CommandView::Receive
            &&& answering.step(Event::Sent).command() == CommandView::Receive
            &&& answering.step(Event::Sent).feed == state.feed
        }),
{
}

/// The only fatal outcome is a failure before the first successful
/// handshake: the run fails only from a connection attempt, or a first
/// subscribe request, that is lost while no handshake has succeeded yet.
/// Once a handshake has succeeded no event ends the run.
pub proof fn lemma_fatal_only_before_first_handshake(state: StreamModel, event: Event)
    requires
        state.wf(),
        state.phase != Phase::Failed,
    ensures
        state.step(event).phase == Phase::Failed <==> !state.established && is_loss(event) && (
        state.phase == Phase::Connecting || state.phase == Phase::Subscribing),
        state.established ==> state.step(event).established,
{
}

/// A copy of the bytes.
fn copy_bytes(bytes: &Vec<u8>) -> (copy: Vec<u8>)
    ensures
        copy@ == bytes@,
{
    let mut copy: Vec<u8> = Vec::new();
    let mut at: usize = 0;
    while at < bytes.len()
        invariant
            at <= bytes.len(),
            copy@ == bytes@.subrange(0, at as int),
        decreases bytes.len() - at,
    {
        copy.push(bytes[at]);
        at = at + 1;
        assert(copy@ =~= bytes@.subrange(0, at as int));
    }
    assert(copy@ =~= bytes@);
    copy
}

/// The market-data stream: the supervisor of the connection together with
/// the distributor that it feeds.
pub struct PriceStream {
    ws_url: String,
    market: String,
    phase: Phase,
    established: bool,
    ping: Vec<u8>,
    distributor: Distributor,
}

impl View for PriceStream {
    type V = StreamModel;

    closed spec fn view(&self) -> StreamModel {
        StreamModel {
            endpoint: self.ws_url@,
            market: self.market@,
            phase: self.phase,
            established: self.established,
            ping: self.ping@,
            feed: self.distributor@,
        }
    }
}

impl PriceStream {
    /// A stream for the source at `ws_url`, not yet running and without
    /// subscribers.
    pub fn new(ws_url: String) -> (stream: PriceStream)
        ensures
            stream@ == StreamModel::idle(ws_url@),
            stream@.wf(),
    {
        PriceStream {
            ws_url,
            market: String::new(),
            phase: Phase::Disconnected,
            established: false,
            ping: Vec::new(),
            distributor: Distributor::new(BUFFER_CAPACITY),
        }
    }

    /// Where the supervisor stands.
    pub fn phase(&self) -> (phase: Phase)
        ensures
            phase == self@.phase,
    {
        self.phase
    }

    /// Registers a new subscriber, which observes the updates published
    /// after this call, and returns its identifier.
    pub fn subscribe(&mut self) -> (id: usize)
        requires
            old(self)@.wf(),
        ensures
            id == old(self)@.feed.next_id(),
            final(self)@ == (StreamModel { feed: old(self)@.feed.subscribe(), ..old(self)@ }),
            final(self)@.wf(),
    {
        self.distributor.subscribe()
    }

    /// Removes subscriber `id`.
    pub fn unsubscribe(&mut self, id: usize)
        requires
            old(self)@.wf(),
        ensures
            final(self)@ == (StreamModel {
                feed: old(self)@.feed.unsubscribe(id as int),
                ..old(self)@
            }),
            final(self)@.wf(),
    {
        self.distributor.unsubscribe(id);
    }

    /// Hands subscriber `id` the oldest update that waits for it, if any.
    pub fn take(&mut self, id: usize) -> (update: Option<PriceUpdate>)
        requires
            old(self)@.wf(),
        ensures
            final(self)@ == (StreamModel { feed: old(self)@.feed.take(id as int), ..old(self)@ }),
            final(self)@.wf(),
            match update {
                Some(update) => old(self)@.feed.front(id as int) == Some(update@),
                None => old(self)@.feed.front(id as int) is None,
            },
    {
        self.distributor.take(id)
    }

    /// The command that is outstanding.
    pub fn command(&self) -> (command: Command)
        ensures
            command@ == self@.command(),
    {
        match self.phase {
            Phase::Disconnected => Command::Standby,
            Phase::Connecting => Command::Connect(self.ws_url.clone()),
            Phase::Subscribing => Command::SendText(subscribe_request(self.market.as_str())),
            Phase::Connected => Command::Receive,
            Phase::Answering => Command::SendPong(copy_bytes(&self.ping)),
            Phase::Reconnecting => Command::Wait(RECONNECT_BACKOFF_MILLIS),
            Phase::Failed => Command::Abort,
        }
    }

    /// Begins a run that subscribes to `market`, and returns its first
    /// command: to connect. A run that was under way is given up.
    pub fn run(&mut self, market: String) -> (command: Command)
        requires
            old(self)@.wf(),
        ensures
            final(self)@ == old(self)@.start(market@),
            final(self)@.wf(),
            command@ == final(self)@.command(),
    {
        self.market = market;
        self.phase = Phase::Connecting;
        self.established = false;
        self.ping = Vec::new();
        self.command()
    }

    /// Stops the run. The subscribers and what waits for them stay as they
    /// are; the owner of the transport drops the connection.
    pub fn stop(&mut self)
        requires
            old(self)@.wf(),
        ensures
            final(self)@ == old(self)@.stop(),
            final(self)@.wf(),
    {
        self.phase = Phase::Disconnected;
        self.established = false;
        self.ping = Vec::new();
    }

    /// Takes in what came of the outstanding command and returns the next
    /// command.
    pub fn on_event(&mut self, event: Event) -> (command: Command)
        requires
            old(self)@.wf(),
        ensures
            final(self)@ == old(self)@.step(event),
            final(self)@.wf(),
            command@ == final(self)@.command(),
    {
        match self.phase {
            Phase::Disconnected => {},
            Phase::Failed => {},
            Phase::Connecting => match event {
                Event::Opened => {
                    self.phase = Phase::Subscribing;
                },
                Event::Failed => {
                    self.lose();
                },
                Event::Ended => {
                    self.lose();
                },
                _ => {},
            },
            Phase::Subscribing => match event {
                Event::Sent => {
                    self.phase = Phase::Connected;
                    self.established = true;
                },
                Event::Failed => {
                    self.lose();
                },
                Event::Ended => {
                    self.lose();
                },
                _ => {},
            },
            Phase::Connected => match event {
                Event::Received(Frame::Text(Some(envelope))) => {
                    self.distributor.publish(parse_update(envelope));
                },
                Event::Received(Frame::Ping(payload)) => {
                    self.ping = payload;
                    self.phase = Phase::Answering;
                },
                Event::Received(Frame::Close) => {
                    self.phase = Phase::Reconnecting;
                },
                Event::Failed => {
                    self.phase = Phase::Reconnecting;
                },
                Event::Ended => {
                    self.phase = Phase::Reconnecting;
                },
                _ => {},
            },
            Phase::Answering => match event {
                Event::Sent => {
                    self.ping = Vec::new();
                    self.phase = Phase::Connected;
                },
                Event::Failed => {
                    self.phase = Phase::Reconnecting;
                },
                Event::Ended => {
                    self.phase = Phase::Reconnecting;
                },
                _ => {},
            },
            Phase::Reconnecting => match event {
                Event::Elapsed => {
                    self.phase = Phase::Connecting;
                },
                _ => {},
            },
        }
        self.command()
    }

    /// The connection was lost or could not be made.
    fn lose(&mut self)
        ensures
            final(self)@ == old(self)@.lose(),
    {
        if self.established {
            self.phase = Phase::Reconnecting;
        } else {
            self.phase = Phase::Failed;
        }
    }
}

} // verus!
