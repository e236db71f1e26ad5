//! How much the tool prints, and what it asks the engine to print.

use vstd::prelude::*;

verus! {

/// The verbosity of a run without `--quiet` and without `--verbose`.
pub const DEFAULT_VERBOSITY: usize = 3;

/// The severity of a message.
#[derive(Clone, Copy, Debug, PartialEq, Eq, Structural)]
pub enum Level {
    /// Fine detail.
    Trace,
    /// Detail for finding faults.
    Debug,
    /// What the tool is doing.
    Info,
    /// Something is odd, the run goes on.
    Warn,
    /// Something failed.
    Error,
}

/// One of the two streams of the console.
#[derive(Clone, Copy, Debug, PartialEq, Eq, Structural)]
pub enum Console {
    /// Standard output.
    Stdout,
    /// Standard error.
    Stderr,
}

/// The verbosity from which on messages of `level` are printed.
pub open spec fn threshold(level: Level) -> nat {
    match level {
        Level::Error => 1,
        Level::Warn => 2,
        Level::Info => 3,
        Level::Debug => 4,
        Level::Trace => 5,
    }
}

/// Where a message of `level` is printed at `verbosity`, if anywhere: warnings and errors go
/// to standard error, the rest to standard output.
pub open spec fn console_of(level: Level, verbosity: nat) -> Option<Console> {
    if verbosity < threshold(level) {
        None
    } else if level == Level::Warn || level == Level::Error {
        Some(Console::Stderr)
    } else {
        Some(Console::Stdout)
    }
}

/// The verbosity of a run: 0 with `--quiet`, else the default, raised by one for each
/// `--verbose`.
pub fn init_verbosity(quiet: bool, inc: u8) -> (verbosity: usize)
    ensures
        verbosity == (if quiet {
            0
        } else {
            DEFAULT_VERBOSITY as int
        }) + inc,
{
    let base: usize = if quiet {
        0
    } else {
        DEFAULT_VERBOSITY
    };
    base + inc as usize
}

/// The verbosity to ask of the engine: by how much `verbosity` lies above the default.
pub fn restic_verbosity(verbosity: usize) -> (r: usize)
    ensures
        r == if verbosity > DEFAULT_VERBOSITY {
            verbosity - DEFAULT_VERBOSITY
        } else {
            0
        },
{
    if verbosity > DEFAULT_VERBOSITY {
        verbosity - DEFAULT_VERBOSITY
    } else {
        0
    }
}

/// Where to print a message of `level` at `verbosity`, if anywhere.
pub fn console_for(level: Level, verbosity: usize) -> (r: Option<Console>)
    ensures
        r == console_of(level, verbosity as nat),
{
    match level {
        Level::Trace => if verbosity > 4 {
            Some(Console::Stdout)
        } else {
            None
        },
        Level::Debug => if verbosity > 3 {
            Some(Console::Stdout)
        } else {
            None
        },
        Level::Info => if verbosity > 2 {
            Some(Console::Stdout)
        } else {
            None
        },
        Level::Warn => if verbosity > 1 {
            Some(Console::Stderr)
        } else {
            None
        },
        Level::Error => if verbosity > 0 {
            Some(Console::Stderr)
        } else {
            None
        },
    }
}

/// Whether the output of a process is shown while it runs: not for a quiet process, and not
/// below the default verbosity.
pub fn echo_enabled(quiet: bool, verbosity: usize) -> (b: bool)
    ensures
        b == (!quiet && verbosity >= DEFAULT_VERBOSITY),
{
    !quiet && verbosity >= DEFAULT_VERBOSITY
}

} // verus!
