use vstd::prelude::*;

verus! {

/// Type tag byte marking a full aggregator state record.
pub const TAG_AGGREGATOR: u8 = 1;

/// Type tag byte marking a fast-parse optimized result record.
pub const TAG_AGGREGATOR_RESULT_PARSE_OPTIMIZED: u8 = 5;

/// How the reader picks a decode path for a non-empty buffer.
#[derive(Clone, Copy, Debug, PartialEq, Eq, Structural)]
pub enum DispatchMode {
    /// Inspect the tag byte: an aggregator tag takes the aggregator path, a
    /// fast-parse tag takes the fast path, anything else is rejected.
    StrictTag,
    /// Ignore the tag byte and always decode as a full aggregator record.
    AlwaysAggregator,
}

/// What the reader does when the aggregator decodes cleanly but its chosen
/// round carries no result value.
#[derive(Clone, Copy, Debug, PartialEq, Eq, Structural)]
pub enum AbsentPolicy {
    /// Log the value zero in place of the absent result.
    DefaultZero,
    /// Abort the invocation with a fatal fault.
    Fault,
}

/// The reader's configuration: one dispatch mode and one absent-result
/// policy.
#[derive(Clone, Copy, Debug, PartialEq, Eq, Structural)]
pub struct Config {
    pub dispatch: DispatchMode,
    pub absent: AbsentPolicy,
}

} // verus!
