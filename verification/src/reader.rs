//! The feed reader: dispatches on the account buffer's tag byte, decodes
//! through the oracle library, and produces the log line to emit.

use vstd::prelude::*;
use vstd::string::StringExecFns;

use crate::config::{AbsentPolicy, Config, DispatchMode, TAG_AGGREGATOR,
    TAG_AGGREGATOR_RESULT_PARSE_OPTIMIZED};
use crate::decode::{aggregator_decodes, aggregator_round_ok, aggregator_value_present,
    aggregator_value_text, decode_aggregator_value, fast_decode_value, fast_parse_ok,
    fast_value_text};
use crate::errors::FeedError;

verus! {

/// What the invoking runtime handed the reader: no account at all, an
/// account whose buffer could not be borrowed, or the buffer's bytes.
pub ghost enum FetchModel {
    NoAccounts,
    BorrowDenied,
    Data(Seq<u8>),
}

/// Executable counterpart of [`FetchModel`]. The caller extracts the first
/// account and copies its byte buffer into `Data`; the reader never touches
/// the runtime's account handles itself.
pub enum AccountFetch {
    NoAccounts,
    BorrowDenied,
    Data(Vec<u8>),
}

impl View for AccountFetch {
    type V = FetchModel;

    open spec fn view(&self) -> FetchModel {
        match self {
            AccountFetch::NoAccounts => FetchModel::NoAccounts,
            AccountFetch::BorrowDenied => FetchModel::BorrowDenied,
            AccountFetch::Data(b) => FetchModel::Data(b@),
        }
    }
}

/// How one invocation ends, as the contracts see it: exactly one log line
/// (carried by `Logged`), a typed failure with no log line, or a fatal
/// fault with no log line.
pub ghost enum OutcomeModel {
    Logged(Seq<char>),
    Failed(FeedError),
    Fatal,
}

/// Executable counterpart of [`OutcomeModel`]. `Logged` holds the one log
/// line to emit; `Failed` holds the error to surface to the caller; `Fatal`
/// stands for the unrecoverable abort that the fault policy demands.
#[derive(Debug, PartialEq, Eq)]
pub enum Outcome {
    Logged(String),
    Failed(FeedError),
    Fatal,
}

impl View for Outcome {
    type V = OutcomeModel;

    open spec fn view(&self) -> OutcomeModel {
        match self {
            Outcome::Logged(line) => OutcomeModel::Logged(line@),
            Outcome::Failed(e) => OutcomeModel::Failed(*e),
            Outcome::Fatal => OutcomeModel::Fatal,
        }
    }
}

/// The fixed text that precedes the value in the log line.
pub open spec fn log_prefix() -> Seq<char> {
    "Current feed result is "@
}

/// The fixed text that follows the value in the log line.
pub open spec fn log_suffix() -> Seq<char> {
    "!"@
}

/// The decimal text logged in place of an absent round result under the
/// default-to-zero policy.
pub open spec fn zero_text() -> Seq<char> {
    "0.0"@
}

/// The one log line emitted for a decoded value with decimal text `t`.
pub open spec fn log_line_model(t: Seq<char>) -> Seq<char> {
    log_prefix() + t + log_suffix()
}

/// Outcome of the aggregator decode path on buffer `b` under absent-result
/// policy `absent`.
pub open spec fn aggregator_path_outcome(b: Seq<u8>, absent: AbsentPolicy) -> OutcomeModel {
    if !aggregator_decodes(b) {
        OutcomeModel::Failed(FeedError::MalformedAccountData)
    } else if !aggregator_round_ok(b) {
        OutcomeModel::Failed(FeedError::DecodeFault)
    } else if aggregator_value_present(b) {
        OutcomeModel::Logged(log_line_model(aggregator_value_text(b)))
    } else {
        match absent {
            AbsentPolicy::DefaultZero => OutcomeModel::Logged(log_line_model(zero_text())),
            AbsentPolicy::Fault => OutcomeModel::Fatal,
        }
    }
}

/// Outcome of the fast-parse decode path on buffer `b`.
pub open spec fn fast_path_outcome(b: Seq<u8>) -> OutcomeModel {
    if fast_parse_ok(b) {
        OutcomeModel::Logged(log_line_model(fast_value_text(b)))
    } else {
        OutcomeModel::Failed(FeedError::MalformedAccountData)
    }
}

/// The outcome of one invocation of the reader, as a function of what was
/// fetched and of the configuration.
pub open spec fn feed_outcome(f: FetchModel, cfg: Config) -> OutcomeModel {
    match f {
        FetchModel::NoAccounts => OutcomeModel::Failed(FeedError::MissingAccount),
        FetchModel::BorrowDenied => OutcomeModel::Failed(FeedError::BorrowFailure),
        FetchModel::Data(b) => {
            if b.len() == 0 {
                OutcomeModel::Failed(FeedError::MalformedAccountData)
            } else {
                match cfg.dispatch {
                    DispatchMode::AlwaysAggregator => aggregator_path_outcome(b, cfg.absent),
                    DispatchMode::StrictTag => {
                        if b[0] == TAG_AGGREGATOR {
                            aggregator_path_outcome(b, cfg.absent)
                        } else if b[0] == TAG_AGGREGATOR_RESULT_PARSE_OPTIMIZED {
                            fast_path_outcome(b)
                        } else {
                            OutcomeModel::Failed(FeedError::InvalidAccountData)
                        }
                    },
                }
            }
        },
    }
}

/// Builds the one log line emitted for a value rendered as `value`.
pub fn render_log_line(value: &str) -> (r: String)
    ensures
        r@ == log_line_model(value@),
{
    let line = String::from_str("Current feed result is ");
    let line = line.concat(value);
    line.concat("!")
}

/// Runs the aggregator decode path on a non-empty buffer.
fn read_aggregator(buf: &Vec<u8>, absent: AbsentPolicy) -> (r: Outcome)
    requires
        buf@.len() >= 1,
    ensures
        r@ == aggregator_path_outcome(buf@, absent),
{
    match decode_aggregator_value(buf) {
        Err(e) => Outcome::Failed(e),
        Ok(Some(text)) => Outcome::Logged(render_log_line(text.as_str())),
        Ok(None) => match absent {
            AbsentPolicy::DefaultZero => Outcome::Logged(render_log_line("0.0")),
            AbsentPolicy::Fault => Outcome::Fatal,
        },
    }
}

/// Runs the fast-parse decode path on a non-empty buffer.
fn read_fast(buf: &Vec<u8>) -> (r: Outcome)
    requires
        buf@.len() >= 1,
    ensures
        r@ == fast_path_outcome(buf@),
{
    match fast_decode_value(buf) {
        Ok(text) => Outcome::Logged(render_log_line(text.as_str())),
        Err(e) => Outcome::Failed(e),
    }
}

/// Processes one invocation: selects the feed account's buffer, dispatches
/// on its tag byte per the configured mode, decodes, and returns the log
/// line to emit, the failure to surface, or the fatal fault to raise.
///
/// The caller emits a log line exactly when the outcome is `Logged`; every
/// other outcome emits nothing.
pub fn process(fetch: AccountFetch, cfg: Config) -> (r: Outcome)
    ensures
        r@ == feed_outcome(fetch@, cfg),
{
    match fetch {
        AccountFetch::NoAccounts => Outcome::Failed(FeedError::MissingAccount),
        AccountFetch::BorrowDenied => Outcome::Failed(FeedError::BorrowFailure),
        AccountFetch::Data(buf) => {
            if buf.len() == 0 {
                Outcome::Failed(FeedError::MalformedAccountData)
            } else {
                match cfg.dispatch {
                    DispatchMode::AlwaysAggregator => read_aggregator(&buf, cfg.absent),
                    DispatchMode::StrictTag => {
                        let tag = buf[0];
                        if tag == TAG_AGGREGATOR {
                            read_aggregator(&buf, cfg.absent)
                        } else if tag == TAG_AGGREGATOR_RESULT_PARSE_OPTIMIZED {
                            read_fast(&buf)
                        } else {
                            Outcome::Failed(FeedError::InvalidAccountData)
                        }
                    },
                }
            }
        },
    }
}

} // verus!
