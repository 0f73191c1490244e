use sundbg::breakpoint::Breakpoint;
use sundbg::config::{Config, CommandLine};
use sundbg::error::{DebugError, Reason};
use sundbg::process::Process;
use sundbg::Debugger;

fn no_process_debugger() -> Debugger {
    Debugger { process: None, file: None, breakpoints: Vec::new() }
}

#[test]
fn run_without_file_reports_no_file() {
    let mut dbg = no_process_debugger();
    let r = dbg.run(Vec::new(), None);
    assert_eq!(r, Err(DebugError::InvalidOperation(Reason::NoFile)));
    assert!(!dbg.process_is_running());
}

#[test]
fn proceed_without_process_reports_no_process() {
    let mut dbg = no_process_debugger();
    let r = dbg.proceed();
    assert_eq!(r, Err(DebugError::InvalidOperation(Reason::NoProcess)));
}

#[test]
fn add_breakpoint_without_process_reports_no_process() {
    let mut dbg = no_process_debugger();
    let r = dbg.add_breakpoint(0x401000);
    assert_eq!(r, Err(DebugError::InvalidOperation(Reason::NoProcess)));
    assert_eq!(dbg.breakpoints.len(), 0);
}

#[test]
fn remove_breakpoint_without_process_reports_no_process() {
    let mut dbg = no_process_debugger();
    let r = dbg.remove_breakpoint(0);
    assert_eq!(r, Err(DebugError::InvalidOperation(Reason::NoProcess)));
}

#[test]
fn enable_breakpoint_without_process_reports_no_process() {
    let mut dbg = no_process_debugger();
    let r = dbg.enable_breakpoint(0);
    assert_eq!(r, Err(DebugError::InvalidOperation(Reason::NoProcess)));
}

#[test]
fn disable_breakpoint_without_process_reports_no_process() {
    let mut dbg = no_process_debugger();
    let r = dbg.disable_breakpoint(0);
    assert_eq!(r, Err(DebugError::InvalidOperation(Reason::NoProcess)));
}

#[test]
fn detach_without_process_reports_no_process() {
    let mut dbg = no_process_debugger();
    let r = dbg.detach();
    assert_eq!(r, Err(DebugError::InvalidOperation(Reason::NoProcess)));
}

// Index validity: an out-of-range index is rejected with NoSuchBreakpoint
// before any syscall is attempted, and the collection is unmodified. The
// process handle here is a bare pid wrapper; no tracing request is issued.
#[test]
fn remove_breakpoint_out_of_range_keeps_collection() {
    let mut dbg = Debugger {
        process: Some(Process::new(1)),
        file: None,
        breakpoints: vec![Breakpoint::new(0x401000)],
    };
    let r = dbg.remove_breakpoint(1);
    assert_eq!(r, Err(DebugError::InvalidOperation(Reason::NoSuchBreakpoint)));
    assert_eq!(dbg.breakpoints.len(), 1);
    assert_eq!(dbg.breakpoints[0].addr, 0x401000);
    assert!(!dbg.breakpoints[0].enabled);
}

#[test]
fn enable_breakpoint_out_of_range_keeps_collection() {
    let mut dbg = Debugger {
        process: Some(Process::new(1)),
        file: None,
        breakpoints: vec![Breakpoint::new(0x2000), Breakpoint::new(0x3000)],
    };
    let r = dbg.enable_breakpoint(2);
    assert_eq!(r, Err(DebugError::InvalidOperation(Reason::NoSuchBreakpoint)));
    assert_eq!(dbg.breakpoints.len(), 2);
    assert_eq!(dbg.breakpoints[0].addr, 0x2000);
    assert_eq!(dbg.breakpoints[1].addr, 0x3000);
}

#[test]
fn disable_breakpoint_out_of_range_keeps_collection() {
    let mut dbg = Debugger {
        process: Some(Process::new(1)),
        file: None,
        breakpoints: vec![Breakpoint::new(0x2000)],
    };
    let r = dbg.disable_breakpoint(7);
    assert_eq!(r, Err(DebugError::InvalidOperation(Reason::NoSuchBreakpoint)));
    assert_eq!(dbg.breakpoints.len(), 1);
}

// Removing a disabled breakpoint needs no syscall and shifts later indices.
#[test]
fn remove_disabled_breakpoint_shifts_indices() {
    let mut dbg = Debugger {
        process: Some(Process::new(1)),
        file: None,
        breakpoints: vec![Breakpoint::new(0x2000), Breakpoint::new(0x3000)],
    };
    let r = dbg.remove_breakpoint(0);
    assert_eq!(r, Ok(()));
    assert_eq!(dbg.breakpoints.len(), 1);
    assert_eq!(dbg.breakpoints[0].addr, 0x3000);
}

// Disabling an already-disabled breakpoint is a no-op and needs no syscall.
#[test]
fn disable_disabled_breakpoint_is_noop() {
    let mut dbg = Debugger {
        process: Some(Process::new(1)),
        file: None,
        breakpoints: vec![Breakpoint::new(0x2000)],
    };
    let r = dbg.disable_breakpoint(0);
    assert_eq!(r, Ok(()));
    assert!(!dbg.breakpoints[0].enabled);
}

#[test]
fn list_breakpoints_reports_addresses_and_flags_in_order() {
    let dbg = Debugger {
        process: None,
        file: None,
        breakpoints: vec![Breakpoint::new(0xdead), Breakpoint::new(0xbeef)],
    };
    let listing = dbg.list_breakpoints();
    assert_eq!(listing, vec![(0xdead, false), (0xbeef, false)]);
}

#[test]
fn from_config_with_file_records_path_and_no_process() {
    let cfg = Config {
        should_attach: false,
        await_start: true,
        pid: None,
        file: Some(String::from("/bin/true")),
    };
    let dbg = Debugger::from_config(cfg).unwrap();
    assert!(!dbg.process_is_running());
    assert_eq!(dbg.file, Some(String::from("/bin/true")));
    assert_eq!(dbg.breakpoints.len(), 0);
}

#[test]
fn config_from_command_line_with_pid_attaches() {
    let cfg = Config::from(CommandLine { file: None, pid: Some(42) });
    assert!(cfg.should_attach);
    assert!(!cfg.await_start);
    assert_eq!(cfg.pid, Some(42));
    assert_eq!(cfg.file, None);
}

#[test]
fn config_from_command_line_with_file_awaits_start() {
    let cfg = Config::from(CommandLine { file: Some(String::from("/bin/true")), pid: None });
    assert!(!cfg.should_attach);
    assert!(cfg.await_start);
    assert_eq!(cfg.file, Some(String::from("/bin/true")));
    assert_eq!(cfg.pid, None);
}

#[test]
fn reason_descriptions() {
    assert_eq!(Reason::NoFile.describe(), "no file");
    assert_eq!(Reason::NoProcess.describe(), "no process");
    assert_eq!(Reason::ProcessExists.describe(), "process already exists");
    assert_eq!(Reason::NoSuchBreakpoint.describe(), "no such breakpoint");
}
