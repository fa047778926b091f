use vstd::prelude::*;

verus! {

/// The ways a feed-reading invocation can fail.
///
/// None of these is recovered locally: every failure aborts the invocation,
/// and no log line is produced for it.
#[derive(Clone, Copy, Debug, PartialEq, Eq, Structural)]
pub enum FeedError {
    /// The invocation supplied no account at all.
    MissingAccount,
    /// The feed account's byte buffer could not be read (already held
    /// exclusively by someone else).
    BorrowFailure,
    /// The buffer is empty, or structurally invalid for the decode path that
    /// was chosen for it.
    MalformedAccountData,
    /// The type tag byte is none of the recognized constants (only raised
    /// under strict tag dispatch).
    InvalidAccountData,
    /// The decoder parsed the record but could not produce a usable round
    /// result from it.
    DecodeFault,
}

} // verus!
