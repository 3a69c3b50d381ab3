//! Rows and cells of a table as plain values: what each cell shows and in
//! which colours, left for a terminal to draw.

use vstd::prelude::*;
use crate::number::Float;
use crate::style::Color;

verus! {

/// What a cell shows.
#[derive(Debug)]
pub enum Content {
    /// A text, shown as it is.
    Text(String),
    /// A number, shown with the given count of digits after the point.
    Fixed(Float, u8),
    /// A number, shown with as many digits as it takes to tell it apart.
    Shortest(Float),
}

/// What a cell shows, as plain mathematical values.
pub enum ContentView {
    Text(Seq<char>),
    Fixed(Float, u8),
    Shortest(Float),
}

impl View for Content {
    type V = ContentView;

    open spec fn view(&self) -> ContentView {
        match self {
            Content::Text(text) => ContentView::Text(text@),
            Content::Fixed(value, decimals) => ContentView::Fixed(*value, *decimals),
            Content::Shortest(value) => ContentView::Shortest(*value),
        }
    }
}

/// One cell of a table. A cell without a foreground of its own takes that
/// of its row.
#[derive(Debug)]
pub struct Cell {
    pub content: Content,
    pub fg: Option<Color>,
}

/// One cell of a table, as plain mathematical values.
pub struct CellView {
    pub content: ContentView,
    pub fg: Option<Color>,
}

impl View for Cell {
    type V = CellView;

    open spec fn view(&self) -> CellView {
        CellView { content: self.content@, fg: self.fg }
    }
}

impl CellView {
    /// A cell that shows a text in the colours of its row.
    pub open spec fn text(text: Seq<char>) -> CellView {
        CellView { content: ContentView::Text(text), fg: None }
    }

    /// A cell that shows a number to `decimals` places in the colours of its
    /// row.
    pub open spec fn fixed(value: Float, decimals: u8) -> CellView {
        CellView { content: ContentView::Fixed(value, decimals), fg: None }
    }

    /// A cell that shows a number at its shortest in the colours of its row.
    pub open spec fn shortest(value: Float) -> CellView {
        CellView { content: ContentView::Shortest(value), fg: None }
    }

    /// The same cell with a foreground of its own.
    pub open spec fn with_fg(self, color: Color) -> CellView {
        CellView { content: self.content, fg: Some(color) }
    }
}

impl Cell {
    /// A cell that shows a text in the colours of its row.
    pub fn text(text: String) -> (cell: Cell)
        ensures
            cell@ == CellView::text(text@),
    {
        Cell { content: Content::Text(text), fg: None }
    }

    /// A cell that shows a number to `decimals` places in the colours of its
    /// row.
    pub fn fixed(value: Float, decimals: u8) -> (cell: Cell)
        ensures
            cell@ == CellView::fixed(value, decimals),
    {
        Cell { content: Content::Fixed(value, decimals), fg: None }
    }

    /// A cell that shows a number at its shortest in the colours of its row.
    pub fn shortest(value: Float) -> (cell: Cell)
        ensures
            cell@ == CellView::shortest(value),
    {
        Cell { content: Content::Shortest(value), fg: None }
    }

    /// The same cell with a foreground of its own.
    pub fn with_fg(self, color: Color) -> (cell: Cell)
        ensures
            cell@ == self@.with_fg(color),
    {
        Cell { content: self.content, fg: Some(color) }
    }
}

/// One row of a table. A colour that is not set is left to the table.
#[derive(Debug)]
pub struct Row {
    pub cells: Vec<Cell>,
    pub bg: Option<Color>,
    pub fg: Option<Color>,
}

/// One row of a table, as plain mathematical values.
pub struct RowView {
    pub cells: Seq<CellView>,
    pub bg: Option<Color>,
    pub fg: Option<Color>,
}

impl View for Row {
    type V = RowView;

    open spec fn view(&self) -> RowView {
        RowView { cells: self.cells@.map_values(|c: Cell| c@), bg: self.bg, fg: self.fg }
    }
}

/// What a list of rows holds.
pub open spec fn row_views(rows: Seq<Row>) -> Seq<RowView> {
    rows.map_values(|r: Row| r@)
}

} // verus!
