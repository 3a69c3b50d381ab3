//! The task that draws and listens to the keyboard, as a machine: each
//! answer of the terminal or the channel moves it to its next request.

use vstd::prelude::*;
use crate::error::TaskError;
use crate::record::{Lvl1Data, Tick};
use crate::ring::{slide, DataList};

verus! {

/// The number of records that the dashboard keeps.
pub const HISTORY_CAPACITY: usize = 100;

/// How long one look at the keyboard may wait, in milliseconds.
pub const POLL_TIMEOUT_MS: u64 = 16;

/// What happened to a key.
#[derive(Clone, Copy, Debug, PartialEq, Eq, Structural)]
pub enum KeyKind {
    Press,
    Repeat,
    Release,
}

/// What a look at the keyboard found.
#[derive(Clone, Copy, Debug, PartialEq, Eq, Structural)]
pub enum Input {
    /// Nothing happened within the timeout.
    Quiet,
    /// A key, with its character where it has one.
    Key(KeyKind, Option<char>),
    /// Something that is no key: a resize, the mouse, a paste.
    Other,
}

/// Whether an input asks to quit: a press of `q`, and nothing else.
pub open spec fn is_quit(input: Input) -> bool {
    input == Input::Key(KeyKind::Press, Some('q'))
}

/// Where the task stands: what it has asked for and not yet been answered.
#[derive(Clone, Copy, Debug, PartialEq, Eq, Structural)]
pub enum RenderStage {
    /// A frame at the top of a round.
    Draw,
    /// A look at the keyboard.
    Poll,
    /// A look into the channel.
    Receive,
    /// A frame for a record that has just arrived.
    Redraw,
    /// A turn for the other task.
    Yield,
    /// Nothing more: the task has ended.
    Stopped(TaskError),
}

/// An answer to what the task asked for.
#[derive(Debug)]
pub enum RenderEvent {
    /// The frame is on the screen.
    Drawn,
    /// The frame could not be drawn.
    DrawFailed,
    /// The keyboard was looked at.
    Polled(Input),
    /// The keyboard could not be looked at.
    PollFailed,
    /// The channel held a record.
    Received(Lvl1Data),
    /// The channel held nothing, or is closed.
    Empty,
    /// The other task has had its turn.
    Yielded,
}

/// What the task asks for next.
#[derive(Clone, Copy, Debug, PartialEq, Eq, Structural)]
pub enum RenderAction {
    /// Draw the frame of the history.
    Draw,
    /// Look at the keyboard for at most this many milliseconds.
    Poll(u64),
    /// Take a record from the channel if one is there, without waiting.
    Receive,
    /// Let the other task run.
    Yield,
    /// End the task with this outcome.
    Stop(TaskError),
}

/// Whether `event` answers what the task asked for at `stage`.
pub open spec fn render_expects(stage: RenderStage, event: RenderEvent) -> bool {
    match stage {
        RenderStage::Draw | RenderStage::Redraw => event is Drawn || event is DrawFailed,
        RenderStage::Poll => event is Polled || event is PollFailed,
        RenderStage::Receive => event is Received || event is Empty,
        RenderStage::Yield => event is Yielded,
        RenderStage::Stopped(_) => false,
    }
}

/// The stage that follows `stage` on an event that answers it. A round goes
/// from the frame to the keyboard, to the channel, to the other task and
/// back to the frame; a record from the channel puts one more frame before
/// the other task's turn; a failure of the terminal and a press of `q` end
/// the task.
pub open spec fn render_next(stage: RenderStage, event: RenderEvent) -> RenderStage {
    match (stage, event) {
        (RenderStage::Draw, RenderEvent::Drawn) => RenderStage::Poll,
        (RenderStage::Redraw, RenderEvent::Drawn) => RenderStage::Yield,
        (_, RenderEvent::DrawFailed) => RenderStage::Stopped(TaskError::TerminalIo),
        (_, RenderEvent::PollFailed) => RenderStage::Stopped(TaskError::TerminalIo),
        (_, RenderEvent::Polled(input)) => if is_quit(input) {
            RenderStage::Stopped(TaskError::UserInterrupt)
        } else {
            RenderStage::Receive
        },
        (_, RenderEvent::Received(_)) => RenderStage::Redraw,
        (_, RenderEvent::Empty) => RenderStage::Yield,
        (_, _) => RenderStage::Draw,
    }
}

/// The history after an event that answers `stage`: a record from the
/// channel is inserted, and nothing else changes it.
pub open spec fn render_history(history: Seq<Tick>, event: RenderEvent) -> Seq<Tick> {
    match event {
        RenderEvent::Received(record) => slide(history, record@),
        _ => history,
    }
}

/// What the task asks for on entering a stage.
pub open spec fn render_request(stage: RenderStage) -> RenderAction {
    match stage {
        RenderStage::Draw | RenderStage::Redraw => RenderAction::Draw,
        RenderStage::Poll => RenderAction::Poll(POLL_TIMEOUT_MS),
        RenderStage::Receive => RenderAction::Receive,
        RenderStage::Yield => RenderAction::Yield,
        RenderStage::Stopped(error) => RenderAction::Stop(error),
    }
}

/// The drawing task: the history that it shows, and where it stands in its
/// round.
pub struct Tui {
    data_list: DataList,
    stage: RenderStage,
}

impl Tui {
    /// Where the task stands.
    pub closed spec fn spec_stage(&self) -> RenderStage {
        self.stage
    }

    /// The records that the task shows, oldest first.
    pub closed spec fn history(&self) -> Seq<Tick> {
        self.data_list@
    }

    /// A task at the top of its first round, with a history of empty
    /// records.
    pub fn new() -> (tui: Tui)
        ensures
            tui.spec_stage() == RenderStage::Draw,
            tui.history() == Seq::new(HISTORY_CAPACITY as nat, |i: int| Tick::empty()),
    {
        Tui { data_list: DataList::new(HISTORY_CAPACITY), stage: RenderStage::Draw }
    }

    /// Where the task stands.
    #[verifier::when_used_as_spec(spec_stage)]
    pub fn stage(&self) -> (stage: RenderStage)
        ensures
            stage == self.spec_stage(),
    {
        self.stage
    }

    /// What the task is waiting for.
    pub fn request(&self) -> (action: RenderAction)
        ensures
            action == render_request(self.spec_stage()),
    {
        Self::request_of(self.stage)
    }

    /// The history to draw.
    pub fn data_list(&self) -> (ring: &DataList)
        ensures
            ring@ == self.history(),
    {
        &self.data_list
    }

    /// Whether the task goes on after this look at the keyboard: it does
    /// unless `q` was pressed.
    pub fn handle_event(input: Input) -> (go_on: bool)
        ensures
            go_on == !is_quit(input),
    {
        match input {
            Input::Key(KeyKind::Press, Some(c)) => c != 'q',
            _ => true,
        }
    }

    fn request_of(stage: RenderStage) -> (action: RenderAction)
        ensures
            action == render_request(stage),
    {
        match stage {
            RenderStage::Draw => RenderAction::Draw,
            RenderStage::Redraw => RenderAction::Draw,
            RenderStage::Poll => RenderAction::Poll(POLL_TIMEOUT_MS),
            RenderStage::Receive => RenderAction::Receive,
            RenderStage::Yield => RenderAction::Yield,
            RenderStage::Stopped(error) => RenderAction::Stop(error),
        }
    }

    /// Takes the answer to what the task asked for and says what it asks
    /// for next. An event that is no answer to that, and any event once the
    /// task has ended, changes nothing and gets no request.
    pub fn step(&mut self, event: RenderEvent) -> (action: Option<RenderAction>)
        ensures
            action.is_some() <==> render_expects(old(self).spec_stage(), event),
            render_expects(old(self).spec_stage(), event) ==> {
                &&& final(self).spec_stage() == render_next(old(self).spec_stage(), event)
                &&& final(self).history() == render_history(old(self).history(), event)
                &&& action == Some(render_request(final(self).spec_stage()))
            },
            !render_expects(old(self).spec_stage(), event) ==> {
                &&& final(self).spec_stage() == old(self).spec_stage()
                &&& final(self).history() == old(self).history()
            },
    {
        let next = match (self.stage, event) {
            (RenderStage::Draw, RenderEvent::Drawn) => RenderStage::Poll,
            (RenderStage::Redraw, RenderEvent::Drawn) => RenderStage::Yield,
            (RenderStage::Draw, RenderEvent::DrawFailed) => RenderStage::Stopped(
                TaskError::TerminalIo,
            ),
            (RenderStage::Redraw, RenderEvent::DrawFailed) => RenderStage::Stopped(
                TaskError::TerminalIo,
            ),
            (RenderStage::Poll, RenderEvent::PollFailed) => RenderStage::Stopped(
                TaskError::TerminalIo,
            ),
            (RenderStage::Poll, RenderEvent::Polled(input)) => if Self::handle_event(input) {
                RenderStage::Receive
            } else {
                RenderStage::Stopped(TaskError::UserInterrupt)
            },
            (RenderStage::Receive, RenderEvent::Received(record)) => {
                self.data_list.insert(record);
                RenderStage::Redraw
            },
            (RenderStage::Receive, RenderEvent::Empty) => RenderStage::Yield,
            (RenderStage::Yield, RenderEvent::Yielded) => RenderStage::Draw,
            (_, _) => {
                return None;
            },
        };
        self.stage = next;
        Some(Self::request_of(next))
    }
}

} // verus!
