use vstd::prelude::*;

verus! {

/// Severity of a log event, from the most verbose to the most severe.
#[derive(Clone, Copy, Debug, PartialEq, Eq, Structural)]
pub enum LogLevel {
    Trace,
    Debug,
    Info,
    Warn,
    Error,
}

impl LogLevel {
    /// Rank of the level: higher is more severe.
    pub open spec fn severity(self) -> nat {
        match self {
            LogLevel::Trace => 0,
            LogLevel::Debug => 1,
            LogLevel::Info => 2,
            LogLevel::Warn => 3,
            LogLevel::Error => 4,
        }
    }

    /// Rank of the level, as an executable value.
    pub fn rank(&self) -> (r: u8)
        ensures
            r as nat == self.severity(),
    {
        match self {
            LogLevel::Trace => 0,
            LogLevel::Debug => 1,
            LogLevel::Info => 2,
            LogLevel::Warn => 3,
            LogLevel::Error => 4,
        }
    }

    /// Whether a layer whose minimum level is `self` lets an event of level
    /// `event` through: it does when the event is at least as severe.
    pub fn admits(&self, event: LogLevel) -> (r: bool)
        ensures
            r == (event.severity() >= self.severity()),
    {
        event.rank() >= self.rank()
    }
}

} // verus!
