use vstd::prelude::*;

pub mod breakpoint;
pub mod config;
pub mod error;
pub mod process;
pub mod trace;

use crate::breakpoint::Breakpoint;
use crate::config::Config;
use crate::error::{DebugError, Reason};
use crate::process::{mem_extends, Process, StopEvent};

verus! {

/// The single-byte trap opcode patched into the target's text to form a
/// software breakpoint (the x86-64 `int3` instruction).
pub const TRAP_OPCODE: u64 = 0xcc;

/// The word produced by patching the trap opcode into the low byte of `w`,
/// leaving the remaining bytes of the word unchanged.
pub open spec fn patched_word(w: u64) -> u64 {
    (w & 0xffff_ffff_ffff_ff00) | 0xcc
}

/// Computes the patched form of a word: the low byte becomes the trap
/// opcode, all other bytes are preserved.
pub fn patch_word(w: u64) -> (r: u64)
    ensures
        r == patched_word(w),
{
    let r = (w & !0xffu64) | TRAP_OPCODE;
    proof {
        assert(((w & !0xffu64) | 0xcc) == ((w & 0xffff_ffff_ffff_ff00) | 0xcc)) by (bit_vector);
    }
    r
}

/// The debugger orchestrator: zero or one traced process, the recorded
/// executable path for a deferred launch, and the ordered breakpoint
/// collection, whose positions are the indices handed to callers. It
/// enforces the legality of every transition: operations that need a live
/// process are rejected with `NoProcess` before any syscall, a second `run`
/// is rejected with `ProcessExists`, and an out-of-range breakpoint index is
/// rejected with `NoSuchBreakpoint`.
pub struct Debugger {
    /// The traced process, at most one at a time.
    pub process: Option<Process>,
    /// The path to the executable, used only for a deferred `run`.
    pub file: Option<String>,
    /// The breakpoints, in insertion order; indices shift on removal.
    pub breakpoints: Vec<Breakpoint>,
}

impl Debugger {
    /// Builds a debugger from the given configuration: attaches immediately
    /// when a pid was supplied, and otherwise records the path so the target
    /// can be launched later by `run`. An attach failure is reported rather
    /// than left unmodeled.
    pub fn from_config(cfg: Config) -> (r: Result<Debugger, DebugError>)
        requires
            cfg.should_attach ==> cfg.pid is Some,
        ensures
            !cfg.should_attach ==> r is Ok && r->Ok_0.process is None && r->Ok_0.file == cfg.file
                && r->Ok_0.breakpoints@.len() == 0,
            cfg.should_attach && r is Ok ==> r->Ok_0.process is Some && r->Ok_0.process->0.pid
                == cfg.pid->0 && r->Ok_0.file == cfg.file && r->Ok_0.breakpoints@.len() == 0,
            cfg.should_attach && r is Err ==> r->Err_0 is TraceFailure || r->Err_0 is Sys
                || r->Err_0 is Unknown,
    {
        if cfg.should_attach {
            if let Some(pid) = cfg.pid {
                match Process::attach(pid) {
                    Ok(p) => Ok(
                        Debugger { process: Some(p), file: cfg.file, breakpoints: Vec::new() },
                    ),
                    Err(e) => Err(e),
                }
            } else {
                vstd::pervasive::unreached()
            }
        } else {
            Ok(Debugger { process: None, file: cfg.file, breakpoints: Vec::new() })
        }
    }

    /// Whether a traced process currently exists.
    pub fn process_is_running(&self) -> (r: bool)
        ensures
            r == (self.process is Some),
    {
        self.process.is_some()
    }

    /// Runs the debuggee process, using the recorded file path: the new
    /// process is immediately traced and is stopped awaiting `proceed`.
    /// Returns the new process's pid. Rejected with `ProcessExists` while a
    /// process already exists — the existing process is untouched — and
    /// with `NoFile` when no path was recorded; both rejections happen
    /// before any syscall and change nothing.
    pub fn run(&mut self, args: Vec<String>, env: Option<Vec<String>>) -> (r: Result<
        i32,
        DebugError,
    >)
        ensures
            old(self).process is Some ==> r == Err::<i32, DebugError>(
                DebugError::InvalidOperation(Reason::ProcessExists),
            ) && *final(self) == *old(self),
            old(self).process is None && old(self).file is None ==> r == Err::<i32, DebugError>(
                DebugError::InvalidOperation(Reason::NoFile),
            ) && *final(self) == *old(self),
            r is Err ==> *final(self) == *old(self),
            old(self).process is None && old(self).file is Some && r is Err ==> r->Err_0 is Sys
                || r->Err_0 is Unknown,
            r is Ok ==> {
                &&& old(self).process is None
                &&& final(self).process is Some
                &&& final(self).process->0.pid == r->Ok_0
                &&& r->Ok_0 > 0
                &&& final(self).process->0.mem() == Map::<u64, u64>::empty()
                &&& final(self).file == old(self).file
                &&& final(self).breakpoints == old(self).breakpoints
            },
    {
        if self.process.is_some() {
            return Err(DebugError::InvalidOperation(Reason::ProcessExists));
        }
        match &self.file {
            None => Err(DebugError::InvalidOperation(Reason::NoFile)),
            Some(file) => {
                match Process::start(file, &args, &env) {
                    Ok(p) => {
                        let pid = p.pid;
                        self.process = Some(p);
                        Ok(pid)
                    }
                    Err(e) => Err(e),
                }
            }
        }
    }

    /// Continues the traced process until a signal is received or the
    /// process exits, and reports the classification. When the target is
    /// observed to have exited or been killed, the debugger returns to the
    /// no-process state, so later operations report `NoProcess` rather than
    /// act on a stale pid. Rejected with `NoProcess`, before any syscall,
    /// when no process exists.
    pub fn proceed(&mut self) -> (r: Result<StopEvent, DebugError>)
        ensures
            old(self).process is None ==> r == Err::<StopEvent, DebugError>(
                DebugError::InvalidOperation(Reason::NoProcess),
            ) && *final(self) == *old(self),
            final(self).file == old(self).file,
            final(self).breakpoints == old(self).breakpoints,
            old(self).process is Some ==> {
                &&& r is Err ==> !(r->Err_0 is InvalidOperation)
                &&& (r is Ok && !(r->Ok_0 is Stopped)) ==> final(self).process is None
                &&& (r is Ok && r->Ok_0 is Stopped) ==> final(self).process is Some && final(self).process->0.pid == old(self).process->0.pid
                &&& r is Err ==> final(self).process is Some && final(self).process->0.pid == old(self).process->0.pid
            },
    {
        let r = match &mut self.process {
            None => {
                return Err(DebugError::InvalidOperation(Reason::NoProcess));
            }
            Some(p) => p.proceed(),
        };
        match r {
            Ok(StopEvent::Stopped { signal }) => Ok(StopEvent::Stopped { signal }),
            Ok(StopEvent::Exited { code }) => {
                self.process = None;
                Ok(StopEvent::Exited { code })
            }
            Ok(StopEvent::Signaled { signal }) => {
                self.process = None;
                Ok(StopEvent::Signaled { signal })
            }
            Err(e) => Err(e),
        }
    }

    /// Adds a new breakpoint at the given absolute address in the traced
    /// process: the breakpoint is constructed, enabled against the process,
    /// and appended to the collection. Rejected with `NoProcess`, before any
    /// syscall, when no process exists; a memory failure while enabling is
    /// propagated and the collection is left unchanged.
    pub fn add_breakpoint(&mut self, addr: u64) -> (r: Result<(), DebugError>)
        ensures
            old(self).process is None ==> r == Err::<(), DebugError>(
                DebugError::InvalidOperation(Reason::NoProcess),
            ) && *final(self) == *old(self),
            final(self).file == old(self).file,
            old(self).process is Some ==> final(self).process is Some && final(self).process->0.pid == old(self).process->0.pid,
            old(self).process is Some && r is Ok ==> {
                &&& final(self).breakpoints@.len() == old(self).breakpoints@.len() + 1
                &&& final(self).breakpoints@.drop_last() == old(self).breakpoints@
                &&& final(self).breakpoints@.last().addr == addr
                &&& final(self).breakpoints@.last().enabled
                &&& final(self).process->0.mem() == old(self).process->0.mem().insert(
                    addr,
                    patched_word(final(self).breakpoints@.last().saved),
                )
                &&& old(self).process->0.mem().contains_key(addr) ==> final(self).breakpoints@.last().saved == old(self).process->0.mem()[addr]
            },
            old(self).process is Some && r is Err ==> {
                &&& final(self).breakpoints == old(self).breakpoints
                &&& r->Err_0 is TraceFailure
                &&& mem_extends(final(self).process->0.mem(), old(self).process->0.mem())
            },
    {
        match &mut self.process {
            None => Err(DebugError::InvalidOperation(Reason::NoProcess)),
            Some(p) => {
                let mut bp = Breakpoint::new(addr);
                match bp.enable(p) {
                    Ok(()) => {
                        self.breakpoints.push(bp);
                        proof {
                            assert(self.breakpoints@.drop_last() =~= old(self).breakpoints@);
                        }
                        Ok(())
                    }
                    Err(e) => Err(e),
                }
            }
        }
    }

    /// Removes the breakpoint at index `idx`, first disabling it in the
    /// traced process if it is enabled; the indices of all later breakpoints
    /// shift down by one. Rejected with `NoProcess` when no process exists
    /// and with `NoSuchBreakpoint` when the index is out of range; both
    /// rejections happen before any syscall and leave the collection
    /// unmodified, and so does a failure of the disabling write.
    pub fn remove_breakpoint(&mut self, idx: usize) -> (r: Result<(), DebugError>)
        ensures
            old(self).process is None ==> r == Err::<(), DebugError>(
                DebugError::InvalidOperation(Reason::NoProcess),
            ) && *final(self) == *old(self),
            final(self).file == old(self).file,
            old(self).process is Some ==> final(self).process is Some && final(self).process->0.pid == old(self).process->0.pid,
            old(self).process is Some && idx >= old(self).breakpoints@.len() ==> r == Err::<
                (),
                DebugError,
            >(DebugError::InvalidOperation(Reason::NoSuchBreakpoint)) && *final(self) == *old(self),
            old(self).process is Some && idx < old(self).breakpoints@.len() && r is Ok ==> {
                &&& final(self).breakpoints@ == old(self).breakpoints@.remove(idx as int)
                &&& old(self).breakpoints@[idx as int].enabled ==> final(self).process->0.mem()
                    == old(self).process->0.mem().insert(
                    old(self).breakpoints@[idx as int].addr,
                    old(self).breakpoints@[idx as int].saved,
                )
                &&& !old(self).breakpoints@[idx as int].enabled ==> final(self).process == old(self).process
            },
            old(self).process is Some && idx < old(self).breakpoints@.len() && r is Err ==> *final(self) == *old(self) && r->Err_0 is TraceFailure,
    {
        match &mut self.process {
            None => Err(DebugError::InvalidOperation(Reason::NoProcess)),
            Some(p) => {
                if idx >= self.breakpoints.len() {
                    return Err(DebugError::InvalidOperation(Reason::NoSuchBreakpoint));
                }
                let mut bp = self.breakpoints[idx];
                if bp.enabled {
                    match bp.disable(p) {
                        Ok(()) => {}
                        Err(e) => {
                            return Err(e);
                        }
                    }
                }
                self.breakpoints.remove(idx);
                Ok(())
            }
        }
    }

    /// Produces the address and enabled flag of each breakpoint, in index
    /// order. Never fails and needs no process.
    pub fn list_breakpoints(&self) -> (r: Vec<(u64, bool)>)
        ensures
            r@.len() == self.breakpoints@.len(),
            forall|i: int|
                0 <= i < r@.len() ==> #[trigger] r@[i] == (
                self.breakpoints@[i].addr,
                self.breakpoints@[i].enabled,
                ),
    {
        let mut out: Vec<(u64, bool)> = Vec::new();
        let mut i: usize = 0;
        while i < self.breakpoints.len()
            invariant
                i <= self.breakpoints@.len(),
                out@.len() == i,
                forall|j: int|
                    0 <= j < i ==> #[trigger] out@[j] == (
                    self.breakpoints@[j].addr,
                    self.breakpoints@[j].enabled,
                    ),
            decreases self.breakpoints@.len() - i,
        {
            let bp = self.breakpoints[i];
            out.push((bp.addr, bp.enabled));
            i = i + 1;
        }
        out
    }

    /// Enables the breakpoint at index `idx` in the traced process;
    /// enabling one that is already enabled changes nothing. Rejected with
    /// `NoProcess` when no process exists and with `NoSuchBreakpoint` when
    /// the index is out of range, both before any syscall and without any
    /// modification.
    pub fn enable_breakpoint(&mut self, idx: usize) -> (r: Result<(), DebugError>)
        ensures
            old(self).process is None ==> r == Err::<(), DebugError>(
                DebugError::InvalidOperation(Reason::NoProcess),
            ) && *final(self) == *old(self),
            final(self).file == old(self).file,
            old(self).process is Some ==> final(self).process is Some && final(self).process->0.pid == old(self).process->0.pid,
            old(self).process is Some && idx >= old(self).breakpoints@.len() ==> r == Err::<
                (),
                DebugError,
            >(DebugError::InvalidOperation(Reason::NoSuchBreakpoint)) && *final(self) == *old(self),
            old(self).process is Some && idx < old(self).breakpoints@.len() && old(self).breakpoints@[idx as int].enabled ==> r is Ok && *final(self) == *old(self),
            old(self).process is Some && idx < old(self).breakpoints@.len() && !old(self).breakpoints@[idx as int].enabled && r is Ok ==> {
                &&& final(self).breakpoints@ == old(self).breakpoints@.update(
                    idx as int,
                    final(self).breakpoints@[idx as int],
                )
                &&& final(self).breakpoints@[idx as int].addr == old(self).breakpoints@[idx as int].addr
                &&& final(self).breakpoints@[idx as int].enabled
                &&& final(self).process->0.mem() == old(self).process->0.mem().insert(
                    old(self).breakpoints@[idx as int].addr,
                    patched_word(final(self).breakpoints@[idx as int].saved),
                )
                &&& old(self).process->0.mem().contains_key(
                    old(self).breakpoints@[idx as int].addr,
                ) ==> final(self).breakpoints@[idx as int].saved == old(self).process->0.mem()[old(self).breakpoints@[idx as int].addr]
            },
            old(self).process is Some && idx < old(self).breakpoints@.len() && r is Err ==> {
                &&& final(self).breakpoints == old(self).breakpoints
                &&& r->Err_0 is TraceFailure
                &&& mem_extends(final(self).process->0.mem(), old(self).process->0.mem())
            },
    {
        match &mut self.process {
            None => Err(DebugError::InvalidOperation(Reason::NoProcess)),
            Some(p) => {
                if idx >= self.breakpoints.len() {
                    return Err(DebugError::InvalidOperation(Reason::NoSuchBreakpoint));
                }
                let mut bp = self.breakpoints[idx];
                if !bp.enabled {
                    match bp.enable(p) {
                        Ok(()) => {}
                        Err(e) => {
                            return Err(e);
                        }
                    }
                    self.breakpoints.set(idx, bp);
                }
                Ok(())
            }
        }
    }

    /// Disables the breakpoint at index `idx` in the traced process,
    /// restoring the saved word; disabling one that is already disabled
    /// changes nothing. Rejected with `NoProcess` when no process exists and
    /// with `NoSuchBreakpoint` when the index is out of range, both before
    /// any syscall and without any modification.
    pub fn disable_breakpoint(&mut self, idx: usize) -> (r: Result<(), DebugError>)
        ensures
            old(self).process is None ==> r == Err::<(), DebugError>(
                DebugError::InvalidOperation(Reason::NoProcess),
            ) && *final(self) == *old(self),
            final(self).file == old(self).file,
            old(self).process is Some ==> final(self).process is Some && final(self).process->0.pid == old(self).process->0.pid,
            old(self).process is Some && idx >= old(self).breakpoints@.len() ==> r == Err::<
                (),
                DebugError,
            >(DebugError::InvalidOperation(Reason::NoSuchBreakpoint)) && *final(self) == *old(self),
            old(self).process is Some && idx < old(self).breakpoints@.len() && !old(self).breakpoints@[idx as int].enabled ==> r is Ok && *final(self) == *old(self),
            old(self).process is Some && idx < old(self).breakpoints@.len() && old(self).breakpoints@[idx as int].enabled && r is Ok ==> {
                &&& final(self).breakpoints@ == old(self).breakpoints@.update(
                    idx as int,
                    final(self).breakpoints@[idx as int],
                )
                &&& final(self).breakpoints@[idx as int].addr == old(self).breakpoints@[idx as int].addr
                &&& final(self).breakpoints@[idx as int].saved == old(self).breakpoints@[idx as int].saved
                &&& !final(self).breakpoints@[idx as int].enabled
                &&& final(self).process->0.mem() == old(self).process->0.mem().insert(
                    old(self).breakpoints@[idx as int].addr,
                    old(self).breakpoints@[idx as int].saved,
                )
            },
            old(self).process is Some && idx < old(self).breakpoints@.len() && r is Err ==> *final(self) == *old(self) && r->Err_0 is TraceFailure,
    {
        match &mut self.process {
            None => Err(DebugError::InvalidOperation(Reason::NoProcess)),
            Some(p) => {
                if idx >= self.breakpoints.len() {
                    return Err(DebugError::InvalidOperation(Reason::NoSuchBreakpoint));
                }
                let mut bp = self.breakpoints[idx];
                if bp.enabled {
                    match bp.disable(p) {
                        Ok(()) => {}
                        Err(e) => {
                            return Err(e);
                        }
                    }
                    self.breakpoints.set(idx, bp);
                }
                Ok(())
            }
        }
    }

    /// Releases the traced process, letting it run freely, and returns to
    /// the no-process state. Rejected with `NoProcess`, before any syscall,
    /// when no process exists.
    pub fn detach(&mut self) -> (r: Result<(), DebugError>)
        ensures
            old(self).process is None ==> r == Err::<(), DebugError>(
                DebugError::InvalidOperation(Reason::NoProcess),
            ) && *final(self) == *old(self),
            final(self).file == old(self).file,
            final(self).breakpoints == old(self).breakpoints,
            old(self).process is Some && r is Ok ==> final(self).process is None,
            old(self).process is Some && r is Err ==> *final(self) == *old(self) && r->Err_0
                is TraceFailure,
    {
        let r = match &self.process {
            None => {
                return Err(DebugError::InvalidOperation(Reason::NoProcess));
            }
            Some(p) => p.detach(),
        };
        match r {
            Ok(()) => {
                self.process = None;
                Ok(())
            }
            Err(e) => Err(e),
        }
    }
}

} // verus!
