//! The colours of a quote row, decided by how the record moved against the
//! one before it.

use vstd::prelude::*;
use crate::number::Change;
use crate::record::{Lvl1Data, Tick};

verus! {

/// A colour of the terminal: its default, or one given by red, green, blue.
#[derive(Clone, Copy, Debug, PartialEq, Eq, Structural)]
pub enum Color {
    Reset,
    Rgb(u8, u8, u8),
}

impl Color {
    /// The tint of a value that went up.
    pub open spec fn favorable() -> Color {
        Color::Rgb(166, 227, 161)
    }

    /// The tint of a value that went down.
    pub open spec fn unfavorable() -> Color {
        Color::Rgb(243, 139, 168)
    }

    /// The dark foreground that stays readable on a tinted row.
    pub open spec fn contrast() -> Color {
        Color::Rgb(24, 24, 27)
    }

    /// The tint of a change: none where nothing changed.
    pub open spec fn spec_tint(change: Change) -> Color {
        match change {
            Change::Up => Color::favorable(),
            Change::Down => Color::unfavorable(),
            Change::Unchanged => Color::Reset,
        }
    }

    /// The tint of a change: none where nothing changed.
    #[verifier::when_used_as_spec(spec_tint)]
    pub fn tint(change: Change) -> (color: Color)
        ensures
            color == Color::spec_tint(change),
    {
        match change {
            Change::Up => Color::Rgb(166, 227, 161),
            Change::Down => Color::Rgb(243, 139, 168),
            Change::Unchanged => Color::Reset,
        }
    }
}

/// How bid, ask and last trade price of a record stand against those of the
/// record just before it. The three are compared apart from each other.
#[derive(Clone, Copy, Debug, PartialEq, Eq, Structural)]
pub struct Delta {
    pub bid: Change,
    pub ask: Change,
    pub trade: Change,
}

/// The colours of one quote row.
#[derive(Clone, Copy, Debug, PartialEq, Eq, Structural)]
pub struct RowStyle {
    /// Foreground of the bid cell.
    pub bid_fg: Color,
    /// Foreground of the ask cell.
    pub ask_fg: Color,
    /// Background of the whole row.
    pub bg: Color,
    /// Foreground of the whole row.
    pub fg: Color,
}

impl Delta {
    /// The comparison of `record` with `prior`, field by field.
    pub open spec fn spec_between(record: Tick, prior: Tick) -> Delta {
        Delta {
            bid: record.best_bid.spec_change_from(&prior.best_bid),
            ask: record.best_ask.spec_change_from(&prior.best_ask),
            trade: record.last_trade_price.spec_change_from(&prior.last_trade_price),
        }
    }

    /// The colours that the comparison calls for. A move of the trade price
    /// tints the row and puts the contrast colour on both cells, whatever
    /// bid and ask did; without one the row is plain and each cell has the
    /// tint of its own change.
    pub open spec fn spec_style(self) -> RowStyle {
        match self.trade {
            Change::Unchanged => RowStyle {
                bid_fg: Color::spec_tint(self.bid),
                ask_fg: Color::spec_tint(self.ask),
                bg: Color::Reset,
                fg: Color::Reset,
            },
            _ => RowStyle {
                bid_fg: Color::contrast(),
                ask_fg: Color::contrast(),
                bg: Color::spec_tint(self.trade),
                fg: Color::contrast(),
            },
        }
    }

    /// Compares `record` with `prior`, the record just before it: bid with
    /// bid, ask with ask, trade price with trade price, each exactly.
    pub fn between(record: &Lvl1Data, prior: &Lvl1Data) -> (delta: Delta)
        ensures
            delta == Delta::spec_between(record@, prior@),
    {
        Delta {
            bid: record.best_bid.change_from(&prior.best_bid),
            ask: record.best_ask.change_from(&prior.best_ask),
            trade: record.last_trade_price.change_from(&prior.last_trade_price),
        }
    }

    /// The colours that the comparison calls for.
    pub fn style(&self) -> (style: RowStyle)
        ensures
            style == self.spec_style(),
    {
        match self.trade {
            Change::Unchanged => RowStyle {
                bid_fg: Color::tint(self.bid),
                ask_fg: Color::tint(self.ask),
                bg: Color::Reset,
                fg: Color::Reset,
            },
            _ => RowStyle {
                bid_fg: Color::Rgb(24, 24, 27),
                ask_fg: Color::Rgb(24, 24, 27),
                bg: Color::tint(self.trade),
                fg: Color::Rgb(24, 24, 27),
            },
        }
    }
}

/// Where the trade price of a record lies strictly above that of the record
/// before it, the trade counts as up, the row has the favourable tint, and
/// bid and ask cell both have the contrast colour, whatever bid and ask did.
pub proof fn lemma_trade_up_overrides_cells(record: Tick, prior: Tick)
    requires
        record.last_trade_price.above(prior.last_trade_price),
    ensures
        Delta::spec_between(record, prior).trade == Change::Up,
        Delta::spec_between(record, prior).spec_style().bid_fg == Color::contrast(),
        Delta::spec_between(record, prior).spec_style().ask_fg == Color::contrast(),
        Delta::spec_between(record, prior).spec_style().fg == Color::contrast(),
        Delta::spec_between(record, prior).spec_style().bg == Color::favorable(),
{
}

/// Where the trade price of a record lies strictly below that of the record
/// before it, the trade counts as down, the row has the unfavourable tint,
/// and bid and ask cell both have the contrast colour.
pub proof fn lemma_trade_down_overrides_cells(record: Tick, prior: Tick)
    requires
        record.last_trade_price.below(prior.last_trade_price),
    ensures
        Delta::spec_between(record, prior).trade == Change::Down,
        Delta::spec_between(record, prior).spec_style().bid_fg == Color::contrast(),
        Delta::spec_between(record, prior).spec_style().ask_fg == Color::contrast(),
        Delta::spec_between(record, prior).spec_style().fg == Color::contrast(),
        Delta::spec_between(record, prior).spec_style().bg == Color::unfavorable(),
{
}

/// Where the trade price did not move, the row stays plain and each of the
/// two cells has the tint of its own change: a bid that stayed beside an ask
/// that rose gives an untinted bid cell and a favourable ask cell.
pub proof fn lemma_still_trade_leaves_cells_their_own(record: Tick, prior: Tick)
    requires
        !record.last_trade_price.above(prior.last_trade_price),
        !record.last_trade_price.below(prior.last_trade_price),
    ensures
        Delta::spec_between(record, prior).trade == Change::Unchanged,
        Delta::spec_between(record, prior).spec_style().bg == Color::Reset,
        Delta::spec_between(record, prior).spec_style().fg == Color::Reset,
        Delta::spec_between(record, prior).spec_style().bid_fg == Color::spec_tint(
            record.best_bid.spec_change_from(&prior.best_bid),
        ),
        Delta::spec_between(record, prior).spec_style().ask_fg == Color::spec_tint(
            record.best_ask.spec_change_from(&prior.best_ask),
        ),
        !record.best_bid.above(prior.best_bid) && !record.best_bid.below(prior.best_bid)
            && record.best_ask.above(prior.best_ask) ==> {
            &&& Delta::spec_between(record, prior).bid == Change::Unchanged
            &&& Delta::spec_between(record, prior).ask == Change::Up
            &&& Delta::spec_between(record, prior).spec_style().bid_fg == Color::Reset
            &&& Delta::spec_between(record, prior).spec_style().ask_fg == Color::favorable()
        },
{
}

} // verus!
