//! The outcome of a command, as the process reports it.

use vstd::prelude::*;

verus! {

/// How a command ended.
#[derive(Copy, Clone)]
pub enum ExitStatus {
    /// The command succeeded.
    Success,
    /// The command failed due to an error in the user input.
    Failure,
    /// The command failed with an unexpected error.
    Error,
    /// The command's exit status is propagated from an external command.
    External(u8),
}

impl ExitStatus {
    /// The process exit code that stands for this status.
    pub open spec fn spec_code(self) -> u8 {
        match self {
            ExitStatus::Success => 0u8,
            ExitStatus::Failure => 1u8,
            ExitStatus::Error => 2u8,
            ExitStatus::External(code) => code,
        }
    }

    /// Returns the process exit code: 0 on success, 1 on a failure caused by
    /// the user's input, 2 on an unexpected error, and the external command's
    /// own code where one is propagated.
    pub fn code(self) -> (code: u8)
        ensures
            code == self.spec_code(),
    {
        match self {
            ExitStatus::Success => 0,
            ExitStatus::Failure => 1,
            ExitStatus::Error => 2,
            ExitStatus::External(code) => code,
        }
    }
}

} // verus!
