//! Exit codes of a debug session and the rule by which log records pass.

use vstd::prelude::*;

verus! {

/// Represents the exit code of a debug session.
#[derive(Debug, Copy, Clone, PartialEq, Eq, Structural)]
pub enum ExitCode {
    Success,
    Failure,
}

impl ExitCode {
    /// The [`ExitCode`] for success.
    pub const SUCCESS: Self = Self::Success;

    /// The [`ExitCode`] for failure.
    pub const FAILURE: Self = Self::Failure;

    /// The number that the host of the debug session is given.
    pub open spec fn spec_semihosting_code(self) -> i32 {
        match self {
            Self::Success => 0,
            Self::Failure => 1,
        }
    }

    /// Returns the number that the host of the debug session is given: 0
    /// for success, 1 for failure.
    pub fn to_semihosting_code(self) -> (code: i32)
        ensures
            code == self.spec_semihosting_code(),
    {
        match self {
            Self::Success => 0,
            Self::Failure => 1,
        }
    }
}

/// How serious a log record is. The most serious comes first.
#[derive(Debug, Copy, Clone, PartialEq, Eq, Structural)]
pub enum Level {
    Error,
    Warn,
    Info,
    Debug,
    Trace,
}

impl Level {
    /// The rank of the level: 1 for the most serious, 5 for the least.
    pub open spec fn rank(self) -> int {
        match self {
            Level::Error => 1,
            Level::Warn => 2,
            Level::Info => 3,
            Level::Debug => 4,
            Level::Trace => 5,
        }
    }

    /// Returns the rank of the level.
    pub fn to_rank(self) -> (r: u8)
        ensures
            r == self.rank(),
    {
        match self {
            Level::Error => 1,
            Level::Warn => 2,
            Level::Info => 3,
            Level::Debug => 4,
            Level::Trace => 5,
        }
    }
}

/// The state of the logging facade: whether a logger is installed, and the
/// least serious level that is let through to it.
#[derive(Debug, Copy, Clone, PartialEq, Eq, Structural)]
pub struct Logging {
    /// Whether a logger is installed.
    pub installed: bool,
    /// The least serious level that passes, if any does.
    pub max_level: Option<Level>,
}

/// Sets up the debug output where there is no console: nothing to do.
pub fn init() {
}

/// The logger of the debug console.
pub struct DebugLogger;

impl DebugLogger {
    /// Installs the logger and lets records up to `Info` through.
    pub fn init(logging: &mut Logging)
        requires
            !old(logging).installed,
        ensures
            *final(logging) == (Logging { installed: true, max_level: Some(Level::Info) }),
    {
        logging.installed = true;
        logging.max_level = Some(Level::Info);
    }

    /// Whether a record of level `level` is printed: those at least as
    /// serious as `Info`.
    pub fn enabled(&self, level: Level) -> (e: bool)
        ensures
            e <==> level.rank() <= Level::Info.rank(),
    {
        level.to_rank() <= Level::Info.to_rank()
    }
}

} // verus!
