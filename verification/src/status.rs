//! Exit status of a supervised process: a signed code together with a flag
//! telling a signal-caused termination from a normal exit.

use vstd::prelude::*;

verus! {

/// What the operating system reported when the supervised process ended.
#[derive(Clone, Copy, Debug, PartialEq, Eq, Structural)]
pub struct ExitStatus {
    /// The exit code, or the signal number when `signaled` is set.
    pub code: i32,
    /// True when the process was terminated by a signal.
    pub signaled: bool,
}

impl ExitStatus {
    /// An exit status that stands for a clean exit.
    pub fn exited(code: i32) -> (r: ExitStatus)
        ensures
            r.code == code,
            !r.signaled,
    {
        ExitStatus { code, signaled: false }
    }

    /// An exit status for a process ended by the given signal.
    pub fn terminated_by_signal(signal: i32) -> (r: ExitStatus)
        ensures
            r.code == signal,
            r.signaled,
    {
        ExitStatus { code: signal, signaled: true }
    }

    /// True exactly when the process exited normally with code zero.
    pub fn success(&self) -> (r: bool)
        ensures
            r == (self.code == 0 && !self.signaled),
    {
        self.code == 0 && !self.signaled
    }
}

} // verus!
