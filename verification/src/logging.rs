use vstd::prelude::*;

verus! {

/// The five verbosity levels of the tracing facility, from the quietest to
/// the most verbose.
#[derive(Clone, Copy, Debug, PartialEq, Eq, Structural)]
pub enum TracingLevel {
    Error,
    Warn,
    Info,
    Debug,
    Trace,
}

impl TracingLevel {
    /// How verbose a level is: `Error` is 0 and `Trace` is 4; each level
    /// emits every event of the levels below it.
    pub open spec fn verbosity(self) -> int {
        match self {
            TracingLevel::Error => 0,
            TracingLevel::Warn => 1,
            TracingLevel::Info => 2,
            TracingLevel::Debug => 3,
            TracingLevel::Trace => 4,
        }
    }
}

} // verus!
