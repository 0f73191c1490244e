use sundbg::config::Config;
use sundbg::error::{DebugError, Reason};
use sundbg::process::StopEvent;
use sundbg::trace::{self, TraceError};
use sundbg::Debugger;

const TARGET: &str = "/bin/true";

fn debugger_for(path: &str) -> Debugger {
    let cfg = Config {
        should_attach: false,
        await_start: true,
        pid: None,
        file: Some(String::from(path)),
    };
    Debugger::from_config(cfg).unwrap()
}

/// The stopped target's instruction pointer: the entry address about to be
/// executed, which is certainly readable target text.
fn entry_address(pid: i32) -> u64 {
    let regs = nix::sys::ptrace::getregs(nix::unistd::Pid::from_raw(pid)).unwrap();
    regs.rip
}

#[test]
fn end_to_end_run_breakpoint_read_remove_proceed() {
    let mut dbg = debugger_for(TARGET);
    let pid = dbg.run(Vec::new(), None).unwrap();
    assert!(pid > 0);
    assert!(dbg.process_is_running());

    let addr = entry_address(pid);
    let original = trace::read_text(pid, addr).unwrap() as u64;

    // enable: the trap opcode appears as the low byte, all others unchanged
    assert_eq!(dbg.add_breakpoint(addr), Ok(()));
    assert_eq!(dbg.list_breakpoints(), vec![(addr, true)]);
    let patched = trace::read_text(pid, addr).unwrap() as u64;
    assert_eq!(patched & 0xff, 0xcc);
    assert_eq!(patched & !0xff, original & !0xff);

    // remove: the original first byte (and word) is restored
    assert_eq!(dbg.remove_breakpoint(0), Ok(()));
    assert_eq!(dbg.list_breakpoints(), vec![]);
    let restored = trace::read_text(pid, addr).unwrap() as u64;
    assert_eq!(restored, original);

    // proceed: the target runs to completion and the exit is classified
    assert_eq!(dbg.proceed(), Ok(StopEvent::Exited { code: 0 }));
    assert!(!dbg.process_is_running());

    // after the observed exit, operations report NoProcess again
    assert_eq!(dbg.proceed(), Err(DebugError::InvalidOperation(Reason::NoProcess)));
}

#[test]
fn enable_disable_round_trip_restores_word() {
    let mut dbg = debugger_for(TARGET);
    let pid = dbg.run(Vec::new(), None).unwrap();
    let addr = entry_address(pid);
    let original = trace::read_text(pid, addr).unwrap() as u64;

    assert_eq!(dbg.add_breakpoint(addr), Ok(()));
    assert_eq!(dbg.disable_breakpoint(0), Ok(()));
    let restored = trace::read_text(pid, addr).unwrap() as u64;
    assert_eq!(restored, original);
    assert_eq!(dbg.list_breakpoints(), vec![(addr, false)]);

    assert_eq!(dbg.proceed(), Ok(StopEvent::Exited { code: 0 }));
}

#[test]
fn enable_and_disable_are_idempotent() {
    let mut dbg = debugger_for(TARGET);
    let pid = dbg.run(Vec::new(), None).unwrap();
    let addr = entry_address(pid);
    let original = trace::read_text(pid, addr).unwrap() as u64;

    assert_eq!(dbg.add_breakpoint(addr), Ok(()));
    let once = trace::read_text(pid, addr).unwrap() as u64;

    // enabling again changes nothing: not the word, not the flag
    assert_eq!(dbg.enable_breakpoint(0), Ok(()));
    let twice = trace::read_text(pid, addr).unwrap() as u64;
    assert_eq!(twice, once);
    assert_eq!(dbg.list_breakpoints(), vec![(addr, true)]);

    // disabling twice equals disabling once
    assert_eq!(dbg.disable_breakpoint(0), Ok(()));
    assert_eq!(dbg.disable_breakpoint(0), Ok(()));
    let back = trace::read_text(pid, addr).unwrap() as u64;
    assert_eq!(back, original);
    assert_eq!(dbg.list_breakpoints(), vec![(addr, false)]);

    // re-enable after the round trip patches the same word again
    assert_eq!(dbg.enable_breakpoint(0), Ok(()));
    let again = trace::read_text(pid, addr).unwrap() as u64;
    assert_eq!(again, once);

    assert_eq!(dbg.remove_breakpoint(0), Ok(()));
    assert_eq!(dbg.proceed(), Ok(StopEvent::Exited { code: 0 }));
}

#[test]
fn enabled_breakpoint_traps_the_running_target() {
    let mut dbg = debugger_for(TARGET);
    let pid = dbg.run(Vec::new(), None).unwrap();
    let addr = entry_address(pid);

    // patch the instruction about to be executed, then resume: the target
    // runs into the trap and stops with SIGTRAP instead of exiting
    assert_eq!(dbg.add_breakpoint(addr), Ok(()));
    assert_eq!(dbg.proceed(), Ok(StopEvent::Stopped { signal: 5 }));
    assert!(dbg.process_is_running());
}

#[test]
fn run_twice_reports_process_exists_and_keeps_target() {
    let mut dbg = debugger_for(TARGET);
    let pid = dbg.run(Vec::new(), None).unwrap();

    let r = dbg.run(Vec::new(), None);
    assert_eq!(r, Err(DebugError::InvalidOperation(Reason::ProcessExists)));
    assert!(dbg.process_is_running());
    assert_eq!(dbg.process.as_ref().unwrap().pid, pid);

    assert_eq!(dbg.proceed(), Ok(StopEvent::Exited { code: 0 }));
}

#[test]
fn run_with_explicit_environment() {
    let mut dbg = debugger_for(TARGET);
    let env = vec![String::from("ANSWER=42")];
    let pid = dbg.run(Vec::new(), Some(env)).unwrap();
    assert!(pid > 0);
    assert_eq!(dbg.proceed(), Ok(StopEvent::Exited { code: 0 }));
}

#[test]
fn run_unrunnable_path_fails_without_process() {
    let mut dbg = debugger_for("/surely/not/a/real/executable");
    let r = dbg.run(Vec::new(), None);
    // the child could not exec and killed itself; the launch reports the
    // observed wait status (death by SIGKILL, signal 9) opaquely
    assert_eq!(r, Err(DebugError::Unknown(9)));
    assert!(!dbg.process_is_running());
}

#[test]
fn breakpoint_at_unmapped_address_reports_trace_failure() {
    let mut dbg = debugger_for(TARGET);
    dbg.run(Vec::new(), None).unwrap();

    let r = dbg.add_breakpoint(0);
    assert!(matches!(r, Err(DebugError::TraceFailure(TraceError::Sys(_)))));
    assert_eq!(dbg.breakpoints.len(), 0);

    assert_eq!(dbg.proceed(), Ok(StopEvent::Exited { code: 0 }));
}

#[test]
fn read_on_missing_pid_reports_os_error() {
    // no such process: ESRCH, which Linux numbers 3
    let r = trace::read_text(-1, 0x1000);
    assert_eq!(r, Err(TraceError::Sys(3)));
}

#[test]
fn process_read_write_round_trip() {
    let mut dbg = debugger_for(TARGET);
    let pid = dbg.run(Vec::new(), None).unwrap();
    let addr = entry_address(pid);

    let p = dbg.process.as_mut().unwrap();
    let w = p.read(addr).unwrap() as u64;
    let flipped = w ^ 0xff00;
    assert_eq!(p.write(addr, flipped), Ok(()));
    assert_eq!(p.read(addr).unwrap() as u64, flipped);
    assert_eq!(p.write(addr, w), Ok(()));
    assert_eq!(p.read(addr).unwrap() as u64, w);

    assert_eq!(dbg.proceed(), Ok(StopEvent::Exited { code: 0 }));
}

#[test]
fn single_step_stops_with_sigtrap() {
    let mut dbg = debugger_for(TARGET);
    dbg.run(Vec::new(), None).unwrap();

    let p = dbg.process.as_mut().unwrap();
    assert_eq!(p.step(), Ok(StopEvent::Stopped { signal: 5 }));

    assert_eq!(dbg.proceed(), Ok(StopEvent::Exited { code: 0 }));
}

#[test]
fn detach_and_attach_again() {
    let mut dbg = debugger_for("/bin/sleep");
    let pid = dbg.run(vec![String::from("30")], None).unwrap();

    assert_eq!(dbg.detach(), Ok(()));
    assert!(!dbg.process_is_running());

    let cfg = Config { should_attach: true, await_start: false, pid: Some(pid), file: None };
    let mut attached = Debugger::from_config(cfg).unwrap();
    assert!(attached.process_is_running());
    assert_eq!(attached.process.as_ref().unwrap().pid, pid);

    // the attached target is confirmed stopped: its memory is readable
    let addr = entry_address(pid);
    assert!(trace::read_text(pid, addr).is_ok());

    assert_eq!(attached.detach(), Ok(()));
    assert!(!attached.process_is_running());
}
