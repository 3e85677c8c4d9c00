//! The failures a workflow can end in, and what each one means for the
//! process that hosts it.

use vstd::prelude::*;

verus! {

/// Why a task, or the whole program, stopped short.
#[derive(Clone, Copy, Debug, PartialEq, Eq, Structural)]
pub enum TaskError {
    /// The script could not be read or compiled.
    ScriptLoad,
    /// A context suspended with a value that is not an effect.
    ProtocolViolation,
    /// The script raised while it was being resumed.
    RuntimeScript,
    /// A network fetch failed.
    Network,
    /// The interpreter was entered while another task was inside it.
    ResourceContention,
}

/// Exit status of a run that ended without failure.
pub const EXIT_OK: u8 = 0;

/// Exit status of a run that a failure ended.
pub const EXIT_FAILURE: u8 = 1;

/// Exit status of a run that was started with bad arguments.
pub const EXIT_USAGE: u8 = 2;

impl TaskError {
    /// A failure is recoverable when it can be confined to the task it
    /// happened in: a raised script error or a failed fetch.
    pub open spec fn spec_recoverable(self) -> bool {
        self == TaskError::RuntimeScript || self == TaskError::Network
    }

    /// Whether the failure may be handed to the task's job instead of ending
    /// the process.
    pub fn recoverable(&self) -> (r: bool)
        ensures
            r == self.spec_recoverable(),
    {
        match self {
            TaskError::RuntimeScript => true,
            TaskError::Network => true,
            _ => false,
        }
    }

    /// The text shown for each failure.
    pub open spec fn spec_message(self) -> Seq<char> {
        match self {
            TaskError::ScriptLoad => "script could not be loaded"@,
            TaskError::ProtocolViolation => "unexpected value yielded"@,
            TaskError::RuntimeScript => "script raised an error"@,
            TaskError::Network => "network fetch failed"@,
            TaskError::ResourceContention => "interpreter is already in use"@,
        }
    }

    /// A readable one-line description of the failure.
    pub fn message(&self) -> (s: &'static str)
        ensures
            s@ == self.spec_message(),
    {
        match self {
            TaskError::ScriptLoad => "script could not be loaded",
            TaskError::ProtocolViolation => "unexpected value yielded",
            TaskError::RuntimeScript => "script raised an error",
            TaskError::Network => "network fetch failed",
            TaskError::ResourceContention => "interpreter is already in use",
        }
    }
}

} // verus!
