//! One market update.

use vstd::prelude::*;
use crate::number::Float;

verus! {

/// The snapshot of one market update for one symbol: best bid and ask, the
/// last trade, and two clocks. A record is made once and never altered.
#[derive(Debug)]
pub struct Lvl1Data {
    /// When the update was taken in, in milliseconds since the epoch.
    pub timestamp_ms: i64,
    pub tkr_id: i64,
    /// The symbol's label.
    pub tkr: String,
    pub best_bid: Float,
    pub best_ask: Float,
    pub last_trade_price: Float,
    pub last_trade_qty: Float,
    /// When the last trade happened, in milliseconds since the epoch.
    pub last_trade_time: i64,
}

/// What a record holds, as plain mathematical values.
pub struct Tick {
    pub timestamp_ms: int,
    pub tkr_id: int,
    pub tkr: Seq<char>,
    pub best_bid: Float,
    pub best_ask: Float,
    pub last_trade_price: Float,
    pub last_trade_qty: Float,
    pub last_trade_time: int,
}

impl Tick {
    /// The record that fills a slot before any update has arrived: the label
    /// is a single dash and every number is zero.
    pub open spec fn empty() -> Tick {
        Tick {
            timestamp_ms: 0,
            tkr_id: 0,
            tkr: seq!['-'],
            best_bid: Float { bits: 0 },
            best_ask: Float { bits: 0 },
            last_trade_price: Float { bits: 0 },
            last_trade_qty: Float { bits: 0 },
            last_trade_time: 0,
        }
    }
}

impl View for Lvl1Data {
    type V = Tick;

    open spec fn view(&self) -> Tick {
        Tick {
            timestamp_ms: self.timestamp_ms as int,
            tkr_id: self.tkr_id as int,
            tkr: self.tkr@,
            best_bid: self.best_bid,
            best_ask: self.best_ask,
            last_trade_price: self.last_trade_price,
            last_trade_qty: self.last_trade_qty,
            last_trade_time: self.last_trade_time as int,
        }
    }
}

impl Default for Lvl1Data {
    fn default() -> (record: Lvl1Data)
        ensures
            record@ == Tick::empty(),
    {
        let tkr: String = "-".to_owned();
        proof {
            reveal_strlit("-");
            assert(tkr@ =~= seq!['-']);
        }
        Lvl1Data {
            timestamp_ms: 0,
            tkr_id: 0,
            tkr,
            best_bid: Float::zero(),
            best_ask: Float::zero(),
            last_trade_price: Float::zero(),
            last_trade_qty: Float::zero(),
            last_trade_time: 0,
        }
    }
}

impl Clone for Lvl1Data {
    fn clone(&self) -> (copy: Lvl1Data)
        ensures
            copy == *self,
    {
        Lvl1Data {
            timestamp_ms: self.timestamp_ms,
            tkr_id: self.tkr_id,
            tkr: self.tkr.clone(),
            best_bid: self.best_bid,
            best_ask: self.best_ask,
            last_trade_price: self.last_trade_price,
            last_trade_qty: self.last_trade_qty,
            last_trade_time: self.last_trade_time,
        }
    }
}

} // verus!
