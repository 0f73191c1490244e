use vstd::prelude::*;

verus! {

/// The command line a front end hands over: an optional path to the
/// executable to debug and an optional pid of a process to attach to.
#[derive(Debug, Clone)]
pub struct CommandLine {
    /// The path to the file to debug.
    pub file: Option<String>,
    /// The pid of the process to attach to.
    pub pid: Option<i32>,
}

/// The resolved target specification a `Debugger` is built from: attach to
/// `pid` right away when one was given, otherwise remember `file` so the
/// target can be launched later.
#[derive(Debug, Clone)]
pub struct Config {
    /// Attach immediately to `pid`; set exactly when a pid was supplied.
    pub should_attach: bool,
    /// The target must still be launched: a file was supplied and no pid.
    pub await_start: bool,
    /// The pid to attach to, if one was supplied.
    pub pid: Option<i32>,
    /// The path to the executable, if one was supplied.
    pub file: Option<String>,
}

/// The configuration a command line resolves to.
pub open spec fn config_of(c: CommandLine) -> Config {
    Config {
        should_attach: c.pid is Some,
        await_start: c.file is Some && c.pid is None,
        pid: c.pid,
        file: c.file,
    }
}

impl From<CommandLine> for Config {
    /// Resolves a command line: a supplied pid means attach immediately; a
    /// supplied file without a pid means the target awaits a later launch.
    fn from(c: CommandLine) -> (r: Config) {
        Config {
            should_attach: c.pid.is_some(),
            await_start: c.file.is_some() && c.pid.is_none(),
            pid: c.pid,
            file: c.file,
        }
    }
}

impl vstd::std_specs::convert::FromSpecImpl<CommandLine> for Config {
    open spec fn obeys_from_spec() -> bool {
        true
    }

    open spec fn from_spec(c: CommandLine) -> Config {
        config_of(c)
    }
}

} // verus!
