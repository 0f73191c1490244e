use vstd::prelude::*;
use crate::error::DebugError;
use crate::trace;

verus! {

/// The classification of a wait status observed after resuming the target:
/// the target stopped on a signal (which includes breakpoint traps), exited
/// normally with a status code, or was killed by a signal.
#[derive(Debug, Clone, Copy, PartialEq, Eq, Structural)]
pub enum StopEvent {
    /// The target is alive but stopped by the given signal number.
    Stopped { signal: i32 },
    /// The target exited normally with the given exit status.
    Exited { code: i32 },
    /// The target was killed by the given signal number.
    Signaled { signal: i32 },
}

/// True when the raw wait status reports a normal exit
/// (the C macro `WIFEXITED`).
pub open spec fn is_exit_status(s: i32) -> bool {
    s & 0x7f == 0
}

/// The exit code carried by a normal-exit wait status
/// (the C macro `WEXITSTATUS`).
pub open spec fn exit_code_of(s: i32) -> i32 {
    (s >> 8) & 0xff
}

/// True when the raw wait status reports a stop
/// (the C macro `WIFSTOPPED`).
pub open spec fn is_stop_status(s: i32) -> bool {
    s & 0xff == 0x7f
}

/// The stopping signal carried by a stop wait status
/// (the C macro `WSTOPSIG`).
pub open spec fn stop_signal_of(s: i32) -> i32 {
    (s >> 8) & 0xff
}

/// True when the raw wait status reports death by signal
/// (the C macro `WIFSIGNALED`).
pub open spec fn is_signal_status(s: i32) -> bool {
    s & 0x7f != 0 && s & 0x7f != 0x7f
}

/// The terminating signal carried by a death-by-signal wait status
/// (the C macro `WTERMSIG`).
pub open spec fn term_signal_of(s: i32) -> i32 {
    s & 0x7f
}

/// The ptrace event byte of a stop wait status; nonzero only for
/// ptrace-specific stops, which this debugger does not request.
pub open spec fn ptrace_event_of(s: i32) -> i32 {
    (s >> 16) & 0xff
}

/// The classification a raw wait status must receive: plain stops, normal
/// exits and signal deaths map to their `StopEvent`; ptrace-specific events
/// and any other encoding are explicitly unsupported rather than ignored.
pub open spec fn classified(s: i32) -> Result<StopEvent, DebugError> {
    if is_stop_status(s) && ptrace_event_of(s) == 0 {
        Ok(StopEvent::Stopped { signal: stop_signal_of(s) })
    } else if is_exit_status(s) {
        Ok(StopEvent::Exited { code: exit_code_of(s) })
    } else if is_signal_status(s) {
        Ok(StopEvent::Signaled { signal: term_signal_of(s) })
    } else {
        Err(DebugError::Unknown(s))
    }
}

/// Interprets a raw wait status, as reported by the OS wait primitive, into
/// the event it encodes. Every status gets exactly the classification of
/// `classified`: stop, exit or signal death, with ptrace-specific events and
/// unrecognised encodings marked unsupported.
pub fn classify_wait_status(s: i32) -> (r: Result<StopEvent, DebugError>)
    ensures
        r == classified(s),
{
    proof {
        assert((s & 0xffi32) == 0x7f ==> (s & 0x7fi32) == 0x7f) by (bit_vector);
    }
    let low = s & 0x7f;
    let event = (s >> 16) & 0xff;
    if s & 0xff == 0x7f && event == 0 {
        Ok(StopEvent::Stopped { signal: (s >> 8) & 0xff })
    } else if low == 0 && !(s & 0xff == 0x7f) {
        Ok(StopEvent::Exited { code: (s >> 8) & 0xff })
    } else if low != 0 && low != 0x7f {
        Ok(StopEvent::Signaled { signal: low })
    } else {
        Err(DebugError::Unknown(s))
    }
}

/// A process currently under trace control: either freshly spawned and
/// already stopped at its initial trap, or attached. `words` is the ghost
/// record of what the debugger knows about the target's memory: every word
/// it has read or written at a given address while the target was stopped.
/// The record is reset whenever the target runs, since the target may then
/// change its own memory.
pub struct Process {
    /// The target's process id; positive once started.
    pub pid: i32,
    /// The debugger's knowledge of target memory, by word address.
    pub words: Ghost<Map<u64, u64>>,
}

/// True when every binding of `base` stands unchanged in `wider`: the
/// knowledge may have grown, but no known word changed.
pub open spec fn mem_extends(wider: Map<u64, u64>, base: Map<u64, u64>) -> bool {
    forall|a: u64| #[trigger] base.contains_key(a) ==> wider.contains_key(a) && wider[a] == base[a]
}

impl Process {
    /// The debugger's knowledge of the target's memory words.
    pub open spec fn mem(self) -> Map<u64, u64> {
        self.words@
    }

    /// Wraps an already-traced process id, with no memory knowledge yet.
    pub fn new(pid: i32) -> (r: Process)
        ensures
            r.pid == pid,
            r.mem() == Map::<u64, u64>::empty(),
    {
        Process { pid, words: Ghost(Map::empty()) }
    }

    /// Takes tracing control of the already-running process `pid` and waits
    /// until the target is confirmed stopped; returns only once the target
    /// is under control.
    pub fn attach(pid: i32) -> (r: Result<Process, DebugError>)
        ensures
            r is Ok ==> r->Ok_0.pid == pid && r->Ok_0.mem() == Map::<u64, u64>::empty(),
            r is Err ==> r->Err_0 is TraceFailure || r->Err_0 is Sys || r->Err_0 is Unknown,
    {
        match trace::attach(pid) {
            Err(e) => Err(DebugError::TraceFailure(e)),
            Ok(()) => {
                match wait_raw(pid) {
                    Err(code) => Err(DebugError::Sys(code)),
                    Ok(status) => {
                        match classify_wait_status(status) {
                            Ok(StopEvent::Stopped { signal: _ }) => Ok(Process::new(pid)),
                            Ok(_) => Err(DebugError::Unknown(status)),
                            Err(e) => Err(e),
                        }
                    }
                }
            }
        }
    }

    /// Spawns `path` as a fresh traced child. The parent branch waits until
    /// the child is confirmed stopped at its initial trap, so the resulting
    /// `Process` is under control. The child branch marks itself traced and
    /// replaces its image with the target, with `path` as the first argument
    /// followed by `args`; `env` is the child's environment, or the caller's
    /// own when `None`. If marking itself traced or the exec fails, the
    /// child kills itself rather than continue as an untraced copy of the
    /// parent. When the child died before reaching its trap (for example
    /// because the executable could not be run), the launch reports the
    /// observed wait status as `Unknown`.
    pub fn start(path: &String, args: &Vec<String>, env: &Option<Vec<String>>) -> (r: Result<
        Process,
        DebugError,
    >)
        ensures
            r is Ok ==> r->Ok_0.pid > 0 && r->Ok_0.mem() == Map::<u64, u64>::empty(),
            r is Err ==> r->Err_0 is Sys || r->Err_0 is Unknown,
    {
        let pid = match fork_raw() {
            Err(code) => {
                return Err(DebugError::Sys(code));
            }
            Ok(pid) => pid,
        };
        if pid == 0 {
            // the child: mark, exec, and on any failure die before falling
            // through as an untraced copy of the parent
            if trace::trace_me().is_ok() {
                let argv = nul_terminated_all(path, args);
                let envv = match env {
                    Some(vars) => Some(nul_terminated_vars(vars)),
                    None => None,
                };
                let _failure = exec_image(&argv, &envv);
            }
            kill_self();
            // not reached: the child is gone before this line
            return Err(DebugError::Unknown(0));
        }
        match wait_raw(pid) {
            Err(code) => Err(DebugError::Sys(code)),
            Ok(status) => {
                match classify_wait_status(status) {
                    Ok(StopEvent::Stopped { signal: _ }) => Ok(Process::new(pid)),
                    Ok(_) => Err(DebugError::Unknown(status)),
                    Err(e) => Err(e),
                }
            }
        }
    }

    /// Reads the machine word at `addr` in the stopped target. On success
    /// the word becomes part of the debugger's memory knowledge; on failure
    /// nothing changes.
    ///
    /// Relies on `nix::sys::ptrace::read` (`PTRACE_PEEKDATA`), which returns
    /// the word at `addr` in the tracee's memory, and on the target being
    /// stopped for as long as the knowledge is kept: a stopped tracee runs
    /// no instruction and nothing else writes its memory, so a read at an
    /// address whose word is already known returns exactly that word. The
    /// knowledge is reset whenever the target is resumed, so the claim is
    /// scoped to one stopped window. This wrapper, not the stateless
    /// `Tracer::read_text`, carries that memory model, which a per-pid call
    /// cannot state.
    #[verifier::external_body]
    pub fn read(&mut self, addr: u64) -> (r: Result<i64, DebugError>)
        ensures
            final(self).pid == old(self).pid,
            r is Ok ==> final(self).mem() == old(self).mem().insert(addr, r->Ok_0 as u64),
            r is Ok && old(self).mem().contains_key(addr) ==> r->Ok_0 as u64 == old(self).mem()[addr],
            r is Err ==> *final(self) == *old(self) && r->Err_0 is TraceFailure,
    {
        nix::sys::ptrace::read(
            nix::unistd::Pid::from_raw(self.pid),
            addr as nix::sys::ptrace::AddressType,
        )
        .map_err(|e| DebugError::TraceFailure(crate::trace::TraceError::Sys(e as i32)))
    }

    /// Writes the machine word `data` at `addr` in the stopped target. On
    /// success the target holds `data` at `addr`; on failure the target's
    /// memory is unmodified and nothing changes.
    pub fn write(&mut self, addr: u64, data: u64) -> (r: Result<(), DebugError>)
        ensures
            final(self).pid == old(self).pid,
            r is Ok ==> final(self).mem() == old(self).mem().insert(addr, data),
            r is Err ==> *final(self) == *old(self) && r->Err_0 is TraceFailure,
    {
        match trace::write_text(self.pid, addr, data) {
            Ok(()) => {
                self.words = Ghost(self.words@.insert(addr, data));
                Ok(())
            }
            Err(e) => Err(DebugError::TraceFailure(e)),
        }
    }

    /// Resumes the target until the next trace-visible event, blocks on the
    /// OS wait primitive, and classifies the resulting status. The memory
    /// knowledge is reset, since the target ran. A failure of the resume
    /// itself is a trace failure; a failure of the wait primitive is a
    /// system error; unsupported trace events are reported, not ignored.
    pub fn proceed(&mut self) -> (r: Result<StopEvent, DebugError>)
        ensures
            final(self).pid == old(self).pid,
            final(self).mem() == Map::<u64, u64>::empty(),
            r is Err ==> !(r->Err_0 is InvalidOperation),
    {
        self.words = Ghost(Map::empty());
        match trace::proceed(self.pid) {
            Err(e) => Err(DebugError::TraceFailure(e)),
            Ok(()) => {
                match wait_raw(self.pid) {
                    Err(code) => Err(DebugError::Sys(code)),
                    Ok(status) => classify_wait_status(status),
                }
            }
        }
    }

    /// Resumes the target for exactly one instruction, then interprets the
    /// resulting stop exactly as `proceed` does.
    pub fn step(&mut self) -> (r: Result<StopEvent, DebugError>)
        ensures
            final(self).pid == old(self).pid,
            final(self).mem() == Map::<u64, u64>::empty(),
            r is Err ==> !(r->Err_0 is InvalidOperation),
    {
        self.words = Ghost(Map::empty());
        match trace::step(self.pid) {
            Err(e) => Err(DebugError::TraceFailure(e)),
            Ok(()) => {
                match wait_raw(self.pid) {
                    Err(code) => Err(DebugError::Sys(code)),
                    Ok(status) => classify_wait_status(status),
                }
            }
        }
    }

    /// Releases the target, letting it run freely.
    pub fn detach(&self) -> (r: Result<(), DebugError>)
        ensures
            r is Err ==> r->Err_0 is TraceFailure,
    {
        match trace::detach(self.pid) {
            Ok(()) => Ok(()),
            Err(e) => Err(DebugError::TraceFailure(e)),
        }
    }
}

/// Relies on `fork::waitpid`, which calls waitpid(2) for `pid` (retrying on
/// EINTR) and hands back the raw wait status; blocks until the process
/// changes state. On failure, returns the raw OS error code.
#[verifier::external_body]
fn wait_raw(pid: i32) -> (r: Result<i32, i32>) {
    fork::waitpid(pid).map_err(|e| e.raw_os_error().unwrap_or(-1))
}

/// The UTF-8 encoding of a character sequence: the bytes that
/// `String::into_bytes` produces, a function of the characters alone.
pub uninterp spec fn utf8_of(s: Seq<char>) -> Seq<u8>;

/// Relies on `String::into_bytes`: the UTF-8 bytes of the string's
/// characters, nothing else.
#[verifier::external_body]
fn utf8_bytes(s: &String) -> (r: Vec<u8>)
    ensures
        r@ == utf8_of(s@),
{
    s.clone().into_bytes()
}

/// A zero-terminated byte string: at least the final zero byte, and no
/// other zero among its bytes.
pub open spec fn nul_form(b: Seq<u8>) -> bool {
    b.len() >= 1 && b.last() == 0 && (forall|i: int| 0 <= i < b.len() - 1 ==> #[trigger] b[i] != 0)
}

/// `r` is the zero-terminated form of the character sequence `s`: the
/// UTF-8 bytes of `s` up to their first zero byte — all of them when none
/// is zero — with a single zero byte appended.
pub open spec fn nul_terminated_form(r: Seq<u8>, s: Seq<char>) -> bool {
    let bytes = utf8_of(s);
    &&& nul_form(r)
    &&& r.len() <= bytes.len() + 1
    &&& (forall|i: int| 0 <= i < r.len() - 1 ==> #[trigger] r[i] == bytes[i])
    &&& (r.len() - 1 < bytes.len() ==> bytes[r.len() - 1] == 0)
    &&& ((forall|i: int| 0 <= i < bytes.len() ==> #[trigger] bytes[i] != 0) ==> r.len()
        == bytes.len() + 1)
}

/// The zero-terminated form of `s`: its UTF-8 bytes, cut at the first zero
/// byte if one occurs, with the terminating zero byte appended. No exec
/// argument can carry an interior zero, so the bytes past one are dropped.
fn nul_terminated(s: &String) -> (r: Vec<u8>)
    ensures
        nul_terminated_form(r@, s@),
{
    let mut bytes = utf8_bytes(s);
    let ghost whole = bytes@;
    let n = bytes.len();
    let mut cut: usize = n;
    let mut i: usize = 0;
    while i < n
        invariant
            n == bytes@.len(),
            i <= n,
            cut <= n,
            cut == n ==> forall|j: int| 0 <= j < i ==> #[trigger] bytes@[j] != 0,
            cut < n ==> bytes@[cut as int] == 0 && (forall|j: int|
                0 <= j < cut ==> #[trigger] bytes@[j] != 0),
        decreases n - i,
    {
        if cut == n && bytes[i] == 0 {
            cut = i;
        }
        i = i + 1;
    }
    bytes.truncate(cut);
    bytes.push(0u8);
    proof {
        assert(bytes@ == whole.subrange(0, cut as int).push(0u8));
        assert(bytes@.last() == 0u8);
        assert forall|j: int| 0 <= j < bytes@.len() - 1 implies #[trigger] bytes@[j] != 0 by {
            assert(bytes@[j] == whole[j]);
        }
    }
    bytes
}

/// The zero-terminated forms of `path` followed by each of `args`, in that
/// order: the argument array handed to the exec call.
fn nul_terminated_all(path: &String, args: &Vec<String>) -> (r: Vec<Vec<u8>>)
    ensures
        r@.len() == args@.len() + 1,
        nul_terminated_form(r@[0]@, path@),
        forall|j: int| 1 <= j < r@.len() ==> nul_terminated_form(#[trigger] r@[j]@, args@[j - 1]@),
{
    let mut out: Vec<Vec<u8>> = Vec::new();
    out.push(nul_terminated(path));
    let mut i: usize = 0;
    while i < args.len()
        invariant
            i <= args@.len(),
            out@.len() == i + 1,
            nul_terminated_form(out@[0]@, path@),
            forall|j: int| 1 <= j < out@.len() ==> nul_terminated_form(
                #[trigger] out@[j]@,
                args@[j - 1]@,
            ),
        decreases args@.len() - i,
    {
        out.push(nul_terminated(&args[i]));
        i = i + 1;
    }
    out
}

/// The zero-terminated forms of each of `vars`, in order: the environment
/// array handed to the exec call.
fn nul_terminated_vars(vars: &Vec<String>) -> (r: Vec<Vec<u8>>)
    ensures
        r@.len() == vars@.len(),
        forall|j: int| 0 <= j < r@.len() ==> nul_terminated_form(#[trigger] r@[j]@, vars@[j]@),
{
    let mut out: Vec<Vec<u8>> = Vec::new();
    let mut i: usize = 0;
    while i < vars.len()
        invariant
            i <= vars@.len(),
            out@.len() == i,
            forall|j: int| 0 <= j < out@.len() ==> nul_terminated_form(
                #[trigger] out@[j]@,
                vars@[j]@,
            ),
        decreases vars@.len() - i,
    {
        out.push(nul_terminated(&vars[i]));
        i = i + 1;
    }
    out
}

/// Relies on `fork::fork` (fork(2)): on success the call returns in both
/// processes — the child's pid, which fork(2) guarantees positive, in the
/// parent, and zero in the child. On failure, the raw OS error code.
#[verifier::external_body]
fn fork_raw() -> (r: Result<i32, i32>)
    ensures
        r is Ok ==> r->Ok_0 >= 0,
{
    match fork::fork() {
        Ok(fork::Fork::Parent(pid)) => Ok(pid),
        Ok(fork::Fork::Child) => Ok(0),
        Err(e) => Err(e.raw_os_error().unwrap_or(-1)),
    }
}

/// Relies on `nix::unistd::execv`/`execve`: replaces the calling process's
/// image with the executable at the path `argv[0]` (no search path in
/// either case), handing it `argv` as its arguments and `env` as its
/// environment — the inherited environment when `env` is `None`. Returns
/// only on failure, with the raw OS error code.
#[verifier::external_body]
fn exec_image(argv: &Vec<Vec<u8>>, env: &Option<Vec<Vec<u8>>>) -> (r: i32)
    requires
        argv@.len() >= 1,
        forall|j: int| 0 <= j < argv@.len() ==> nul_form(#[trigger] argv@[j]@),
        env is Some ==> forall|j: int|
            0 <= j < env->0@.len() ==> nul_form(#[trigger] env->0@[j]@),
{
    let a: Vec<&core::ffi::CStr> =
        argv.iter().map(|b| core::ffi::CStr::from_bytes_with_nul(b).unwrap()).collect();
    let failure = match env {
        None => nix::unistd::execv(a[0], &a).unwrap_err(),
        Some(vars) => {
            let e: Vec<&core::ffi::CStr> =
                vars.iter().map(|b| core::ffi::CStr::from_bytes_with_nul(b).unwrap()).collect();
            nix::unistd::execve(a[0], &a, &e).unwrap_err()
        }
    };
    failure as i32
}

/// Relies on `nix::sys::signal::raise(SIGKILL)`: ends the calling process
/// immediately; it does not return.
#[verifier::external_body]
fn kill_self() {
    let _ = nix::sys::signal::raise(nix::sys::signal::Signal::SIGKILL);
}

} // verus!
