//! Arguments of the client's commands.
use crate::logging::TracingLevel;
use crate::protocol::weather::WeatherHistoryQuery;
use vstd::prelude::*;

verus! {

/// Log levels that the command line offers.
#[derive(Clone, Copy, Debug, PartialEq, Eq, Structural)]
pub enum LogLevel {
    Error,
    Warn,
    Info,
    Debug,
    Trace,
}

impl LogLevel {
    /// The tracing level that a command-line log level selects.
    pub open spec fn spec_tracing_level(self) -> TracingLevel {
        match self {
            LogLevel::Error => TracingLevel::Error,
            LogLevel::Warn => TracingLevel::Warn,
            LogLevel::Info => TracingLevel::Info,
            LogLevel::Debug => TracingLevel::Debug,
            LogLevel::Trace => TracingLevel::Trace,
        }
    }

    /// Converts the command-line log level to the tracing level.
    pub fn to_tracing_level(self) -> (level: TracingLevel)
        ensures
            level == self.spec_tracing_level(),
    {
        match self {
            LogLevel::Error => TracingLevel::Error,
            LogLevel::Warn => TracingLevel::Warn,
            LogLevel::Info => TracingLevel::Info,
            LogLevel::Debug => TracingLevel::Debug,
            LogLevel::Trace => TracingLevel::Trace,
        }
    }
}

/// The position of a level in the command line's list of levels.
pub open spec fn log_level_rank(level: LogLevel) -> int {
    match level {
        LogLevel::Error => 0,
        LogLevel::Warn => 1,
        LogLevel::Info => 2,
        LogLevel::Debug => 3,
        LogLevel::Trace => 4,
    }
}

/// Each command-line log level selects its own tracing level, and a level
/// that the command line lists later is at least as verbose.
pub proof fn lemma_log_levels_distinct_and_ordered(a: LogLevel, b: LogLevel)
    ensures
        a.spec_tracing_level() == b.spec_tracing_level() ==> a == b,
        log_level_rank(a) <= log_level_rank(b) <==> a.spec_tracing_level().verbosity()
            <= b.spec_tracing_level().verbosity(),
{
}

/// Arguments of `weather list`.
#[derive(Debug, Clone)]
pub struct WeatherListArgs {
    pub from: Option<String>,
    pub to: Option<String>,
    pub limit: Option<u32>,
    pub cursor: Option<i64>,
}

impl WeatherListArgs {
    /// The history query that `weather list` sends: the arguments as given.
    pub fn into_query(self) -> (query: WeatherHistoryQuery)
        ensures
            query.from == self.from,
            query.to == self.to,
            query.limit == self.limit,
            query.cursor == self.cursor,
    {
        WeatherHistoryQuery { from: self.from, to: self.to, limit: self.limit, cursor: self.cursor }
    }
}

} // verus!
