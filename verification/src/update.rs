//! Price updates and their decoding from the tolerant inbound envelope.

use crate::number::Number;
use vstd::prelude::*;

verus! {

/// The inbound price envelope after structural decoding: every field is
/// optional on the wire, and a field that was absent is `None`.
#[derive(Debug, PartialEq, Eq)]
pub struct Envelope {
    pub market: Option<String>,
    pub bid: Option<Number>,
    pub ask: Option<Number>,
    pub ts: Option<i64>,
}

/// A fully populated price update.
#[derive(Debug, PartialEq, Eq)]
pub struct PriceUpdate {
    pub instrument: String,
    pub bid: Number,
    pub ask: Number,
    pub timestamp: i64,
}

/// What a price update says, with the instrument as a sequence of characters.
pub struct PriceUpdateView {
    pub instrument: Seq<char>,
    pub bid: Number,
    pub ask: Number,
    pub timestamp: i64,
}

impl View for PriceUpdate {
    type V = PriceUpdateView;

    open spec fn view(&self) -> PriceUpdateView {
        PriceUpdateView {
            instrument: self.instrument@,
            bid: self.bid,
            ask: self.ask,
            timestamp: self.timestamp,
        }
    }
}

impl Clone for PriceUpdate {
    fn clone(&self) -> (copy: Self)
        ensures
            copy == *self,
    {
        PriceUpdate {
            instrument: self.instrument.clone(),
            bid: self.bid,
            ask: self.ask,
            timestamp: self.timestamp,
        }
    }
}

/// The instrument of an update whose envelope named no market.
pub open spec fn unknown_instrument() -> Seq<char> {
    "unknown"@
}

/// The update that an envelope decodes to: each field that is present is
/// taken as it is, and each absent field resolves to its default, which is
/// the `unknown` sentinel for the instrument and zero for the numbers and the
/// timestamp.
pub open spec fn decoded(envelope: Envelope) -> PriceUpdateView {
    PriceUpdateView {
        instrument: match envelope.market {
            Some(market) => market@,
            None => unknown_instrument(),
        },
        bid: match envelope.bid {
            Some(bid) => bid,
            None => Number { bits: 0 },
        },
        ask: match envelope.ask {
            Some(ask) => ask,
            None => Number { bits: 0 },
        },
        timestamp: match envelope.ts {
            Some(ts) => ts,
            None => 0,
        },
    }
}

/// Decodes an envelope into a price update. Decoding an envelope never fails,
/// whichever fields are missing.
pub fn parse_update(envelope: Envelope) -> (update: PriceUpdate)
    ensures
        update@ == decoded(envelope),
{
    let instrument = match envelope.market {
        Some(market) => market,
        None => String::from_str("unknown"),
    };
    let bid = match envelope.bid {
        Some(bid) => bid,
        None => Number::zero(),
    };
    let ask = match envelope.ask {
        Some(ask) => ask,
        None => Number::zero(),
    };
    let timestamp: i64 = match envelope.ts {
        Some(ts) => ts,
        None => 0,
    };
    PriceUpdate { instrument, bid, ask, timestamp }
}

} // verus!
