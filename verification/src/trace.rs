use vstd::prelude::*;

verus! {

/// A tracing syscall failed; the payload is the raw OS error code (errno).
#[derive(Debug, Clone, Copy, PartialEq, Eq, Structural)]
pub enum TraceError {
    Sys(i32),
}

/// The platform tracing backend. Each operation is one primitive tracing
/// syscall against the target process; every failure surfaces as
/// `TraceError::Sys` carrying the OS error code. The target must be a
/// stopped tracee of the calling process for the per-pid requests to
/// succeed; otherwise the OS rejects them with an error, never silently.
pub struct Tracer;

impl Tracer {
    /// Relies on `nix::sys::ptrace::read` (`PTRACE_PEEKDATA`): returns the
    /// machine word at `addr` in the stopped tracee's memory, or the OS
    /// error code on failure.
    #[verifier::external_body]
    pub(crate) fn read_text(pid: i32, addr: u64) -> (r: Result<i64, TraceError>) {
        nix::sys::ptrace::read(
            nix::unistd::Pid::from_raw(pid),
            addr as nix::sys::ptrace::AddressType,
        )
        .map_err(|e| TraceError::Sys(e as i32))
    }

    /// Relies on `nix::sys::ptrace::write` (`PTRACE_POKEDATA`): copies the
    /// word `data` to `addr` in the stopped tracee's memory; on failure the
    /// tracee's memory is not modified and the OS error code is returned.
    #[verifier::external_body]
    pub(crate) fn write_text(pid: i32, addr: u64, data: u64) -> (r: Result<(), TraceError>) {
        nix::sys::ptrace::write(
            nix::unistd::Pid::from_raw(pid),
            addr as nix::sys::ptrace::AddressType,
            data as i64,
        )
        .map_err(|e| TraceError::Sys(e as i32))
    }

    /// Reads a word from the data segment. The address space is unified on
    /// this platform, so this is the text read.
    pub(crate) fn read_data(pid: i32, addr: u64) -> (r: Result<i64, TraceError>) {
        Tracer::read_text(pid, addr)
    }

    /// Writes a word to the data segment. The address space is unified on
    /// this platform, so this is the text write.
    pub(crate) fn write_data(pid: i32, addr: u64, data: u64) -> (r: Result<(), TraceError>) {
        Tracer::write_text(pid, addr, data)
    }

    /// Relies on `nix::sys::ptrace::cont` (`PTRACE_CONT`): resumes the
    /// stopped tracee until its next trace-visible event, delivering no
    /// signal.
    #[verifier::external_body]
    pub(crate) fn proceed(pid: i32) -> (r: Result<(), TraceError>) {
        nix::sys::ptrace::cont(nix::unistd::Pid::from_raw(pid), None)
            .map_err(|e| TraceError::Sys(e as i32))
    }

    /// Relies on `nix::sys::ptrace::traceme` (`PTRACE_TRACEME`): marks the
    /// calling process as traced by its parent. Issued only in an
    /// about-to-exec child.
    #[verifier::external_body]
    pub(crate) fn trace_me() -> (r: Result<(), TraceError>) {
        nix::sys::ptrace::traceme().map_err(|e| TraceError::Sys(e as i32))
    }

    /// Relies on `nix::sys::ptrace::step` (`PTRACE_SINGLESTEP`): resumes the
    /// stopped tracee for exactly one instruction, delivering no signal.
    #[verifier::external_body]
    pub(crate) fn step(pid: i32) -> (r: Result<(), TraceError>) {
        nix::sys::ptrace::step(nix::unistd::Pid::from_raw(pid), None)
            .map_err(|e| TraceError::Sys(e as i32))
    }

    /// Relies on `nix::sys::ptrace::attach` (`PTRACE_ATTACH`): makes the
    /// process `pid` a tracee of the caller and sends it a stopping signal;
    /// the stop must still be observed with a wait call.
    #[verifier::external_body]
    pub(crate) fn attach(pid: i32) -> (r: Result<(), TraceError>) {
        nix::sys::ptrace::attach(nix::unistd::Pid::from_raw(pid))
            .map_err(|e| TraceError::Sys(e as i32))
    }

    /// Relies on `nix::sys::ptrace::detach` (`PTRACE_DETACH`): releases the
    /// tracee `pid`, letting it run freely, delivering no signal.
    #[verifier::external_body]
    pub(crate) fn detach(pid: i32) -> (r: Result<(), TraceError>) {
        nix::sys::ptrace::detach(nix::unistd::Pid::from_raw(pid), None)
            .map_err(|e| TraceError::Sys(e as i32))
    }
}

/// Read a word from the process text at the specified address.
pub fn read_text(pid: i32, addr: u64) -> (r: Result<i64, TraceError>) {
    Tracer::read_text(pid, addr)
}

/// Write a word to the process text at the specified address.
pub fn write_text(pid: i32, addr: u64, data: u64) -> (r: Result<(), TraceError>) {
    Tracer::write_text(pid, addr, data)
}

/// Read a word from the process data at the specified address.
pub fn read_data(pid: i32, addr: u64) -> (r: Result<i64, TraceError>) {
    Tracer::read_data(pid, addr)
}

/// Write a word to the process data at the specified address.
pub fn write_data(pid: i32, addr: u64, data: u64) -> (r: Result<(), TraceError>) {
    Tracer::write_data(pid, addr, data)
}

/// Continue execution of the process until the next trace-visible event.
pub fn proceed(pid: i32) -> (r: Result<(), TraceError>) {
    Tracer::proceed(pid)
}

/// Indicate that this process is waiting to be traced. Used before exec.
pub fn trace_me() -> (r: Result<(), TraceError>) {
    Tracer::trace_me()
}

/// Step a single instruction.
pub fn step(pid: i32) -> (r: Result<(), TraceError>) {
    Tracer::step(pid)
}

/// Attach to a given pid.
pub fn attach(pid: i32) -> (r: Result<(), TraceError>) {
    Tracer::attach(pid)
}

/// Detach from a given pid.
pub fn detach(pid: i32) -> (r: Result<(), TraceError>) {
    Tracer::detach(pid)
}

} // verus!
