//! A live quote dashboard, without its terminal and its socket: the bounded
//! history of ticks, the colouring of each row against the tick before it,
//! the content of a frame, and the decisions of the two tasks that feed and
//! draw it.

pub mod number;
pub mod record;
pub mod ring;
pub mod ring_proofs;
pub mod style;
pub mod table;
pub mod clock;
pub mod quotes;
pub mod layout;
pub mod dashboard;
pub mod error;
pub mod tui;
pub mod ws_client;
