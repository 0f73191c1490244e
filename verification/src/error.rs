use vstd::prelude::*;
use crate::trace::TraceError;

verus! {

/// Why an operation was rejected before any tracing syscall was attempted:
/// the debugger was asked to do something its current state does not allow.
#[derive(Debug, Clone, Copy, PartialEq, Eq, Structural)]
pub enum Reason {
    /// No executable path was recorded, so there is nothing to run.
    NoFile,
    /// The operation needs a live traced process and there is none.
    NoProcess,
    /// `run` was called while a traced process already exists.
    ProcessExists,
    /// The given breakpoint index does not name an existing breakpoint.
    NoSuchBreakpoint,
}

/// The error taxonomy of the debugger.
///
/// `InvalidOperation` is always detected locally, before any syscall, and
/// never wraps a system error. `TraceFailure` carries a failed tracing
/// syscall. `Sys` carries a lower-level OS failure (fork or wait) as the raw
/// OS error code. `Unknown` preserves a condition that fits none of the
/// others, preserved opaquely: it carries the raw value that was observed,
/// such as a wait status no classification matched.
#[derive(Debug, Clone, Copy, PartialEq, Eq, Structural)]
pub enum DebugError {
    InvalidOperation(Reason),
    TraceFailure(TraceError),
    Sys(i32),
    Unknown(i32),
}

impl Reason {
    /// A human-readable description of the rejection.
    pub fn describe(&self) -> (r: &'static str)
        ensures
            self is NoFile ==> r@ == "no file"@,
            self is NoProcess ==> r@ == "no process"@,
            self is ProcessExists ==> r@ == "process already exists"@,
            self is NoSuchBreakpoint ==> r@ == "no such breakpoint"@,
    {
        match self {
            Reason::NoFile => "no file",
            Reason::NoProcess => "no process",
            Reason::ProcessExists => "process already exists",
            Reason::NoSuchBreakpoint => "no such breakpoint",
        }
    }
}

} // verus!
