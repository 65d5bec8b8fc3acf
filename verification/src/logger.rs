//! The kernel logger's level filter.  Rendering a log line to the display is
//! the output collaborator's business; the decision which levels pass is
//! taken here.
use vstd::prelude::*;

verus! {

/// Log Level.
#[derive(Debug, Clone, Copy, PartialEq, Eq, Structural)]
pub enum LogLevel {
    Quiet,
    Failure,
    Warning,
    Success,
    Apprise,
}

impl LogLevel {
    /// The level's rank: a message passes the filter when its rank is at most
    /// the configured one.
    pub open spec fn rank(&self) -> u8 {
        match *self {
            LogLevel::Quiet => 0,
            LogLevel::Failure => 1,
            LogLevel::Warning => 2,
            LogLevel::Success => 3,
            LogLevel::Apprise => 4,
        }
    }

    /// Returns the level's rank.
    pub fn as_u8(&self) -> (rank: u8)
        ensures
            rank == self.rank(),
    {
        match *self {
            LogLevel::Quiet => 0,
            LogLevel::Failure => 1,
            LogLevel::Warning => 2,
            LogLevel::Success => 3,
            LogLevel::Apprise => 4,
        }
    }
}

/// Logger.
pub struct Logger {
    log_level: LogLevel,
}

impl Logger {
    /// The configured level.
    pub closed spec fn level(&self) -> LogLevel {
        self.log_level
    }

    /// Creates a new object, letting every level through.
    pub fn new() -> (logger: Logger)
        ensures
            logger.level() == LogLevel::Apprise,
    {
        Logger { log_level: LogLevel::Apprise }
    }

    /// Returns the log level.
    pub fn get_log_level(&self) -> (level: LogLevel)
        ensures
            level == self.level(),
    {
        self.log_level
    }

    /// Sets the log level.
    pub fn set_log_level(&mut self, log_level: LogLevel)
        ensures
            final(self).level() == log_level,
    {
        self.log_level = log_level;
    }

    /// Whether a message of the given level is emitted: exactly when the
    /// configured level admits its rank.
    pub fn should_log(&self, log_level: LogLevel) -> (emit: bool)
        ensures
            emit == (self.level().rank() >= log_level.rank()),
    {
        self.log_level.as_u8() >= log_level.as_u8()
    }
}

} // verus!
