//! The content of one frame of the dashboard: a title line, a summary of the
//! newest record, the quote table, and a hint line.

use vstd::prelude::*;
use crate::clock::{local_date_time, timestamp_in_range};
use crate::layout::{split, Area, Constraint, Direction};
use crate::quotes::{are_quote_rows, shown_in_range, PRICE_DECIMALS};
use crate::record::{Lvl1Data, Tick};
use crate::ring::DataList;
use crate::style::Color;
use crate::table::{Cell, CellView, ContentView, Row, RowView, row_views};

verus! {

/// A bordered table: a title on its border, a header row or none, its rows,
/// and the width of each column in cells.
#[derive(Debug)]
pub struct Table {
    pub title: String,
    pub header: Option<Row>,
    pub rows: Vec<Row>,
    pub widths: Vec<u16>,
}

/// One frame: what each of the four panels shows, and where it lies.
#[derive(Debug)]
pub struct Dashboard {
    pub title: String,
    pub title_area: Area,
    pub summary: Table,
    pub summary_area: Area,
    pub quotes: Table,
    pub quotes_area: Area,
    pub hint: String,
    pub hint_area: Area,
}

/// From top to bottom: one line for the title, the rest for the two tables,
/// one line for the hint.
pub open spec fn spec_band_constraints() -> Seq<Constraint> {
    seq![Constraint::Length(1), Constraint::Min(0), Constraint::Length(1)]
}

/// From left to right: one half for the summary, one for the quotes.
pub open spec fn spec_panel_constraints() -> Seq<Constraint> {
    seq![Constraint::Percentage(50), Constraint::Percentage(50)]
}

/// A row of plain text cells in the colours of its table.
pub open spec fn plain_row(cells: Seq<CellView>) -> RowView {
    RowView { cells, bg: None, fg: None }
}

/// The rows of the summary: label, trade price, trade quantity and the time
/// of the last trade of `current`, each behind its caption.
pub open spec fn summary_rows(current: Tick, last_trade: Seq<char>) -> Seq<RowView> {
    seq![
        plain_row(seq![CellView::text("TKR:"@), CellView::text(current.tkr)]),
        plain_row(
            seq![
                CellView::text("Price:"@),
                CellView::fixed(current.last_trade_price, PRICE_DECIMALS),
            ],
        ),
        plain_row(
            seq![CellView::text("Quantity:"@), CellView::shortest(current.last_trade_qty)],
        ),
        plain_row(seq![CellView::text("Last Trade:"@), CellView::text(last_trade)]),
    ]
}

/// The text that a summary shows as the time of the last trade.
pub open spec fn last_trade_of(rows: Seq<RowView>) -> Seq<char> {
    match rows[3].cells[1].content {
        ContentView::Text(text) => text,
        _ => Seq::empty(),
    }
}

/// The captions above the columns of the quote table, dark on light.
pub open spec fn quote_header() -> RowView {
    RowView {
        cells: seq![
            CellView::text("TKR"@),
            CellView::text("Price"@),
            CellView::text("Quantity"@),
            CellView::text("Time"@),
            CellView::text("Bid"@),
            CellView::text("Ask"@),
        ],
        bg: Some(Color::Rgb(205, 214, 244)),
        fg: Some(Color::Rgb(17, 17, 27)),
    }
}

/// Whether `table` is the summary of `current`.
pub open spec fn is_summary(table: Table, current: Tick) -> bool {
    &&& table.title@ == "Summary"@
    &&& table.header is None
    &&& table.widths@ == seq![12u16, 30u16]
    &&& row_views(table.rows@) == summary_rows(current, last_trade_of(row_views(table.rows@)))
}

/// Whether `table` is the quote table of a window of records.
pub open spec fn is_quote_table(table: Table, window: Seq<Tick>) -> bool {
    &&& table.title@ == "Level 1 Quotes"@
    &&& table.header matches Some(header) && header@ == quote_header()
    &&& table.widths@ == seq![12u16, 12u16, 12u16, 12u16, 12u16, 12u16]
    &&& are_quote_rows(row_views(table.rows@), window)
}

/// Whether `frame` shows a window of records: the fixed title and hint, the
/// summary of the newest record, and the quote table of the window.
pub open spec fn is_dashboard(frame: Dashboard, window: Seq<Tick>) -> bool {
    &&& frame.title@ == "Trading Dashboard"@
    &&& frame.hint@ == "Press q to quit..."@
    &&& is_summary(frame.summary, window.last())
    &&& is_quote_table(frame.quotes, window)
}

/// The constraints that divide the screen from top to bottom.
pub fn band_constraints() -> (constraints: Vec<Constraint>)
    ensures
        constraints@ == spec_band_constraints(),
{
    vec![Constraint::Length(1), Constraint::Min(0), Constraint::Length(1)]
}

/// The constraints that divide the middle band from left to right.
pub fn panel_constraints() -> (constraints: Vec<Constraint>)
    ensures
        constraints@ == spec_panel_constraints(),
{
    vec![Constraint::Percentage(50), Constraint::Percentage(50)]
}

/// A row of two plain cells: a caption and what it stands for.
fn captioned(caption: &str, cell: Cell) -> (row: Row)
    ensures
        row@ == plain_row(seq![CellView::text(caption@), cell@]),
{
    let mut cells: Vec<Cell> = Vec::new();
    cells.push(Cell::text(caption.to_owned()));
    cells.push(cell);
    let row = Row { cells, bg: None, fg: None };
    proof {
        assert(row@.cells =~= seq![CellView::text(caption@), cell@]);
    }
    row
}

/// The summary of `current`, with `last_trade` as the time of its last
/// trade.
pub fn summary_table(current: &Lvl1Data, last_trade: String) -> (table: Table)
    ensures
        is_summary(table, current@),
        last_trade_of(row_views(table.rows@)) == last_trade@,
{
    let mut rows: Vec<Row> = Vec::new();
    rows.push(captioned("TKR:", Cell::text(current.tkr.clone())));
    rows.push(captioned("Price:", Cell::fixed(current.last_trade_price, PRICE_DECIMALS)));
    rows.push(captioned("Quantity:", Cell::shortest(current.last_trade_qty)));
    rows.push(captioned("Last Trade:", Cell::text(last_trade)));
    let table = Table {
        title: "Summary".to_owned(),
        header: None,
        rows,
        widths: vec![12, 30],
    };
    proof {
        assert(row_views(table.rows@) =~= summary_rows(current@, last_trade@));
    }
    table
}

/// The quote table around its rows.
pub fn quote_table(rows: Vec<Row>) -> (table: Table)
    ensures
        table.title@ == "Level 1 Quotes"@,
        table.header matches Some(header) && header@ == quote_header(),
        table.widths@ == seq![12u16, 12u16, 12u16, 12u16, 12u16, 12u16],
        table.rows == rows,
{
    let mut cells: Vec<Cell> = Vec::new();
    cells.push(Cell::text("TKR".to_owned()));
    cells.push(Cell::text("Price".to_owned()));
    cells.push(Cell::text("Quantity".to_owned()));
    cells.push(Cell::text("Time".to_owned()));
    cells.push(Cell::text("Bid".to_owned()));
    cells.push(Cell::text("Ask".to_owned()));
    let header = Row {
        cells,
        bg: Some(Color::Rgb(205, 214, 244)),
        fg: Some(Color::Rgb(17, 17, 27)),
    };
    proof {
        assert(header@.cells =~= quote_header().cells);
    }
    Table {
        title: "Level 1 Quotes".to_owned(),
        header: Some(header),
        rows,
        widths: vec![12, 12, 12, 12, 12, 12],
    }
}

/// The frame of the two tables, each panel on its area.
pub fn frame(
    title_area: Area,
    summary_area: Area,
    quotes_area: Area,
    hint_area: Area,
    summary: Table,
    quotes: Table,
) -> (frame: Dashboard)
    ensures
        frame.title@ == "Trading Dashboard"@,
        frame.hint@ == "Press q to quit..."@,
        frame.title_area == title_area,
        frame.summary_area == summary_area,
        frame.quotes_area == quotes_area,
        frame.hint_area == hint_area,
        frame.summary == summary,
        frame.quotes == quotes,
{
    Dashboard {
        title: "Trading Dashboard".to_owned(),
        title_area,
        summary,
        summary_area,
        quotes,
        quotes_area,
        hint: "Press q to quit...".to_owned(),
        hint_area,
    }
}

/// The frame that shows the ring on a screen of the given area. There is a
/// frame exactly when every instant that it has to show can be shown: the
/// last trade of the newest record, and the intake of each record but the
/// oldest. Where the four panels lie is what the layout of the screen gave.
pub fn ui(area: Area, data_list: &DataList) -> (frame: Option<Dashboard>)
    ensures
        data_list.well_formed(),
        frame.is_some() <==> timestamp_in_range(data_list@.last().last_trade_time)
            && shown_in_range(data_list@),
        frame matches Some(shown) ==> is_dashboard(shown, data_list@),
{
    let bands = split(Direction::Vertical, &band_constraints(), area);
    let panels = split(Direction::Horizontal, &panel_constraints(), bands[1]);
    let current = data_list.current();
    let last_trade = match local_date_time(current.last_trade_time) {
        Some(text) => text,
        None => {
            return None;
        },
    };
    let rows = match data_list.get_rows() {
        Some(rows) => rows,
        None => {
            return None;
        },
    };
    let summary = summary_table(current, last_trade);
    let quotes = quote_table(rows);
    Some(self::frame(bands[0], panels[0], panels[1], bands[2], summary, quotes))
}

} // verus!
