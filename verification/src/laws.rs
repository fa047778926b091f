//! The reader's stated properties, proved against `feed_outcome`.
//!
//! `process` returns an `Outcome` whose view equals `feed_outcome` of its
//! inputs, so everything proved here of `feed_outcome` holds of every call.
//! A log line is emitted exactly for a `Logged` outcome, so an outcome
//! equal to `Failed(..)` or `Fatal` is one that emits no log line.

use vstd::prelude::*;

use crate::config::{Config, TAG_AGGREGATOR, TAG_AGGREGATOR_RESULT_PARSE_OPTIMIZED};
use crate::decode::{aggregator_decodes, aggregator_round_ok, aggregator_value_present,
    aggregator_value_text, fast_parse_ok, fast_value_text};
use crate::errors::FeedError;
use crate::reader::{feed_outcome, log_line_model, zero_text, FetchModel, OutcomeModel};

verus! {

/// For every buffer that decodes as an aggregator record whose usable round
/// carries a result, the operation succeeds and logs that result's decimal
/// text, under every configuration (the aggregator tag takes the
/// aggregator path in both dispatch modes).
pub proof fn lemma_aggregator_present_result_logs(b: Seq<u8>, cfg: Config)
    requires
        b.len() > 0,
        b[0] == TAG_AGGREGATOR,
        aggregator_decodes(b),
        aggregator_round_ok(b),
        aggregator_value_present(b),
    ensures
        feed_outcome(FetchModel::Data(b), cfg) == OutcomeModel::Logged(
            log_line_model(aggregator_value_text(b)),
        ),
{
}

/// For every buffer that decodes as an aggregator record whose usable round
/// carries no result, the outcome is fixed by the absent-result policy:
/// default-to-zero logs the zero text, the fault policy raises the fatal
/// fault. Exactly one of the two holds per configuration.
pub proof fn lemma_aggregator_absent_result_policy(b: Seq<u8>, cfg: Config)
    requires
        b.len() > 0,
        b[0] == TAG_AGGREGATOR,
        aggregator_decodes(b),
        aggregator_round_ok(b),
        !aggregator_value_present(b),
    ensures
        cfg.absent is DefaultZero ==> feed_outcome(FetchModel::Data(b), cfg)
            == OutcomeModel::Logged(log_line_model(zero_text())),
        cfg.absent is Fault ==> feed_outcome(FetchModel::Data(b), cfg) == OutcomeModel::Fatal,
{
}

/// Repeated invocations on identical input and configuration end the same
/// way: the outcome is a function of the two alone.
pub proof fn lemma_outcome_deterministic(f: FetchModel, cfg: Config, r1: OutcomeModel, r2: OutcomeModel)
    requires
        r1 == feed_outcome(f, cfg),
        r2 == feed_outcome(f, cfg),
    ensures
        r1 == r2,
{
}

/// For every buffer with the fast-parse tag and a structurally valid
/// fast-parse payload, strict tag dispatch succeeds and logs the payload's
/// result value as decimal text.
pub proof fn lemma_fast_parse_logs(b: Seq<u8>, cfg: Config)
    requires
        b.len() > 0,
        b[0] == TAG_AGGREGATOR_RESULT_PARSE_OPTIMIZED,
        cfg.dispatch is StrictTag,
        fast_parse_ok(b),
    ensures
        feed_outcome(FetchModel::Data(b), cfg) == OutcomeModel::Logged(
            log_line_model(fast_value_text(b)),
        ),
{
}

/// For every non-empty buffer whose tag byte is neither recognized
/// constant, strict tag dispatch fails with `InvalidAccountData`, so no log
/// line is produced.
pub proof fn lemma_unrecognized_tag_rejected(b: Seq<u8>, cfg: Config)
    requires
        b.len() > 0,
        b[0] != TAG_AGGREGATOR,
        b[0] != TAG_AGGREGATOR_RESULT_PARSE_OPTIMIZED,
        cfg.dispatch is StrictTag,
    ensures
        feed_outcome(FetchModel::Data(b), cfg) == OutcomeModel::Failed(
            FeedError::InvalidAccountData,
        ),
{
}

/// For an empty account list the operation fails with `MissingAccount`,
/// under every configuration, so no log line is produced.
pub proof fn lemma_empty_account_list(cfg: Config)
    ensures
        feed_outcome(FetchModel::NoAccounts, cfg) == OutcomeModel::Failed(
            FeedError::MissingAccount,
        ),
{
}

/// For an empty buffer the operation fails with `MalformedAccountData`,
/// under every configuration, so no log line is produced.
pub proof fn lemma_empty_buffer(b: Seq<u8>, cfg: Config)
    requires
        b.len() == 0,
    ensures
        feed_outcome(FetchModel::Data(b), cfg) == OutcomeModel::Failed(
            FeedError::MalformedAccountData,
        ),
{
}

} // verus!
