//! How a task of the pipeline can end.

use vstd::prelude::*;

verus! {

/// Why a task ended. All but the user's own interrupt are failures.
#[derive(Clone, Copy, Debug, PartialEq, Eq, Structural)]
pub enum TaskError {
    /// The connection could not be made, or broke.
    Connection,
    /// A message could not be read as a tick.
    Protocol,
    /// The receiving end of the channel is gone.
    ChannelClosed,
    /// The user asked to quit.
    UserInterrupt,
    /// The terminal could not be drawn on, or asked for input.
    TerminalIo,
}

impl TaskError {
    /// Whether the task failed: every end but the user's interrupt.
    pub open spec fn spec_is_failure(&self) -> bool {
        !(*self == TaskError::UserInterrupt)
    }

    /// What the error is called in a log.
    pub open spec fn spec_message(&self) -> Seq<char> {
        match self {
            TaskError::Connection => "Connection error"@,
            TaskError::Protocol => "Protocol error"@,
            TaskError::ChannelClosed => "Channel closed"@,
            TaskError::UserInterrupt => "User interrupt"@,
            TaskError::TerminalIo => "Terminal I/O error"@,
        }
    }

    /// Whether the task failed: every end but the user's interrupt.
    #[verifier::when_used_as_spec(spec_is_failure)]
    pub fn is_failure(&self) -> (failed: bool)
        ensures
            failed == self.spec_is_failure(),
    {
        match self {
            TaskError::UserInterrupt => false,
            _ => true,
        }
    }

    /// What the error is called in a log.
    pub fn message(&self) -> (text: String)
        ensures
            text@ == self.spec_message(),
    {
        match self {
            TaskError::Connection => "Connection error".to_owned(),
            TaskError::Protocol => "Protocol error".to_owned(),
            TaskError::ChannelClosed => "Channel closed".to_owned(),
            TaskError::UserInterrupt => "User interrupt".to_owned(),
            TaskError::TerminalIo => "Terminal I/O error".to_owned(),
        }
    }
}

/// The status with which the process leaves once its tasks have been
/// joined: zero after a clean end or the user's interrupt, one after a
/// failure.
pub open spec fn spec_exit_code(outcome: Result<(), TaskError>) -> u8 {
    match outcome {
        Ok(_) => 0,
        Err(error) => if error.spec_is_failure() {
            1
        } else {
            0
        },
    }
}

/// The status with which the process leaves once its tasks have been
/// joined.
pub fn exit_code(outcome: &Result<(), TaskError>) -> (code: u8)
    ensures
        code == spec_exit_code(*outcome),
{
    match outcome {
        Ok(_) => 0,
        Err(error) => if error.is_failure() {
            1
        } else {
            0
        },
    }
}

} // verus!
