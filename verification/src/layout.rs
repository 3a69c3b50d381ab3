//! Rectangles of the screen and how one is divided among panels.

use vstd::prelude::*;
use ratatui::layout::{Layout, Rect};

verus! {

/// A rectangle of terminal cells: its top left corner and its size.
#[derive(Clone, Copy, Debug, PartialEq, Eq, Structural)]
pub struct Area {
    pub x: u16,
    pub y: u16,
    pub width: u16,
    pub height: u16,
}

/// What a panel asks of the side along which an area is divided.
#[derive(Clone, Copy, Debug, PartialEq, Eq, Structural)]
pub enum Constraint {
    /// Exactly this many cells.
    Length(u16),
    /// At least this many cells.
    Min(u16),
    /// This share of the whole, in hundredths.
    Percentage(u16),
}

/// The side along which an area is divided.
#[derive(Clone, Copy, Debug, PartialEq, Eq, Structural)]
pub enum Direction {
    /// Panels side by side.
    Horizontal,
    /// Panels one above the other.
    Vertical,
}

/// Divides `area` among panels, one for each constraint, in their order.
///
/// Calls ratatui's `Layout::new` and `Layout::split`, whose solver weighs
/// the constraints against each other. Trusted: that it gives one
/// rectangle for each constraint. Where the rectangles lie is left to the
/// solver, and nothing is said of it.
#[verifier::external_body]
pub(crate) fn split(direction: Direction, constraints: &Vec<Constraint>, area: Area) -> (parts:
    Vec<Area>)
    ensures
        parts@.len() == constraints@.len(),
{
    let side = match direction {
        Direction::Horizontal => ratatui::layout::Direction::Horizontal,
        Direction::Vertical => ratatui::layout::Direction::Vertical,
    };
    let wanted = constraints.iter().map(|c| match c {
        Constraint::Length(n) => ratatui::layout::Constraint::Length(*n),
        Constraint::Min(n) => ratatui::layout::Constraint::Min(*n),
        Constraint::Percentage(n) => ratatui::layout::Constraint::Percentage(*n),
    });
    let whole = Rect { x: area.x, y: area.y, width: area.width, height: area.height };
    let parts = Layout::new(side, wanted).split(whole);
    parts.iter().map(|r| Area { x: r.x, y: r.y, width: r.width, height: r.height }).collect()
}

} // verus!
