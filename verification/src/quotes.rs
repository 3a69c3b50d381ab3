//! The quote table: one row for each record of the ring but the oldest,
//! newest first, coloured by how the record moved.

use vstd::prelude::*;
use crate::clock::{is_clock_text, local_time_of_day, timestamp_in_range};
use crate::record::{Lvl1Data, Tick};
use crate::ring::{newest_first_pairs, pair_views, DataList};
use crate::style::Delta;
use crate::table::{Cell, CellView, ContentView, Row, RowView, row_views};

verus! {

/// Digits after the point of a price.
pub const PRICE_DECIMALS: u8 = 2;

/// Digits after the point of a quantity.
pub const QUANTITY_DECIMALS: u8 = 4;

/// The row of `record`, which arrived just after `prior` and at the time of
/// day `time`: label, trade price, trade quantity, time, bid and ask. Bid
/// and ask have a foreground of their own, and the row the colours that
/// the move from `prior` calls for.
pub open spec fn spec_quote_row(record: Tick, prior: Tick, time: Seq<char>) -> RowView {
    let style = Delta::spec_between(record, prior).spec_style();
    RowView {
        cells: seq![
            CellView::text(record.tkr),
            CellView::fixed(record.last_trade_price, PRICE_DECIMALS),
            CellView::fixed(record.last_trade_qty, QUANTITY_DECIMALS),
            CellView::text(time),
            CellView::fixed(record.best_bid, PRICE_DECIMALS).with_fg(style.bid_fg),
            CellView::fixed(record.best_ask, PRICE_DECIMALS).with_fg(style.ask_fg),
        ],
        bg: Some(style.bg),
        fg: Some(style.fg),
    }
}

/// The text in the time column of a quote row.
pub open spec fn time_of(row: RowView) -> Seq<char> {
    match row.cells[3].content {
        ContentView::Text(text) => text,
        _ => Seq::empty(),
    }
}

/// Whether every record that gets a row, each but the oldest, was taken in
/// at an instant that can be shown.
pub open spec fn shown_in_range(window: Seq<Tick>) -> bool {
    forall|j: int| 1 <= j < window.len() ==> timestamp_in_range((#[trigger] window[j]).timestamp_ms)
}

/// Whether `rows` are the quote rows of a window: one for each record but
/// the oldest, newest first, each the row of its record beside the record
/// just before it, with a time of day in its time column.
pub open spec fn are_quote_rows(rows: Seq<RowView>, window: Seq<Tick>) -> bool {
    &&& rows.len() == window.len() - 1
    &&& forall|k: int|
        0 <= k < rows.len() ==> {
            &&& #[trigger] rows[k] == spec_quote_row(
                window[window.len() - 1 - k],
                window[window.len() - 2 - k],
                time_of(rows[k]),
            )
            &&& is_clock_text(time_of(rows[k]))
        }
}

/// The row of `record`, which arrived just after `prior`, with `time` in its
/// time column.
pub fn quote_row(record: &Lvl1Data, prior: &Lvl1Data, time: String) -> (row: Row)
    ensures
        row@ == spec_quote_row(record@, prior@, time@),
        time_of(row@) == time@,
{
    let style = Delta::between(record, prior).style();
    let mut cells: Vec<Cell> = Vec::new();
    cells.push(Cell::text(record.tkr.clone()));
    cells.push(Cell::fixed(record.last_trade_price, PRICE_DECIMALS));
    cells.push(Cell::fixed(record.last_trade_qty, QUANTITY_DECIMALS));
    cells.push(Cell::text(time));
    cells.push(Cell::fixed(record.best_bid, PRICE_DECIMALS).with_fg(style.bid_fg));
    cells.push(Cell::fixed(record.best_ask, PRICE_DECIMALS).with_fg(style.ask_fg));
    let row = Row { cells, bg: Some(style.bg), fg: Some(style.fg) };
    proof {
        assert(row@.cells =~= spec_quote_row(record@, prior@, time@).cells);
    }
    row
}

impl DataList {
    /// The rows of the quote table, newest record first. There are rows
    /// exactly when every record that gets one was taken in at an instant
    /// that can be shown; the oldest record gets none and is not asked.
    pub fn get_rows(&self) -> (rows: Option<Vec<Row>>)
        ensures
            self.well_formed(),
            rows.is_some() <==> shown_in_range(self@),
            rows matches Some(list) ==> are_quote_rows(row_views(list@), self@),
    {
        let pairs = self.ordered_view();
        let ghost window = self@;
        let mut rows: Vec<Row> = Vec::new();
        let mut k: usize = 0;
        while k < pairs.len()
            invariant
                self.well_formed(),
                window == self@,
                pair_views(pairs@) == newest_first_pairs(window),
                pairs@.len() == window.len() - 1,
                k <= pairs.len(),
                rows@.len() == k,
                forall|j: int|
                    window.len() - k <= j < window.len() ==> timestamp_in_range(
                        (#[trigger] window[j]).timestamp_ms,
                    ),
                forall|i: int|
                    0 <= i < k ==> {
                        &&& #[trigger] row_views(rows@)[i] == spec_quote_row(
                            window[window.len() - 1 - i],
                            window[window.len() - 2 - i],
                            time_of(row_views(rows@)[i]),
                        )
                        &&& is_clock_text(time_of(row_views(rows@)[i]))
                    },
            decreases pairs.len() - k,
        {
            let (record, prior) = pairs[k];
            proof {
                assert(pair_views(pairs@)[k as int] == newest_first_pairs(window)[k as int]);
            }
            match local_time_of_day(record.timestamp_ms) {
                None => {
                    return None;
                },
                Some(time) => {
                    let ghost earlier = row_views(rows@);
                    let row = quote_row(record, prior, time);
                    rows.push(row);
                    proof {
                        assert(row_views(rows@) =~= earlier.push(row@));
                    }
                },
            }
            k += 1;
        }
        Some(rows)
    }
}

} // verus!
