//! Trusted boundary to the oracle client library.
//!
//! The two decode paths below call into the oracle library and render the
//! decoded value as decimal text. Each outcome is a function of the buffer
//! bytes alone, so it is described here by uninterpreted names over those
//! bytes; the reader's own contracts are stated in terms of these names.

use vstd::prelude::*;

use crate::config::{TAG_AGGREGATOR, TAG_AGGREGATOR_RESULT_PARSE_OPTIMIZED};
use crate::errors::FeedError;
use solana_program::account_info::AccountInfo;
use solana_program::pubkey::Pubkey;
use switchboard_program::{get_aggregator, get_aggregator_result, FastRoundResultAccountData};

verus! {

/// Result of the aggregator decode path: the round result's decimal text,
/// `None` when the chosen round carries no value, or the failure.
pub type AggregatorDecode = Result<Option<String>, FeedError>;

/// Result of the fast-parse decode path: the result field's decimal text,
/// or the failure.
pub type FastDecode = Result<String, FeedError>;

/// The aggregator decode path's failure outcome carrying error `e`.
pub open spec fn agg_err(e: FeedError) -> AggregatorDecode {
    Err(e)
}

/// The fast-parse decode path's failure outcome carrying error `e`.
pub open spec fn fast_err(e: FeedError) -> FastDecode {
    Err(e)
}

/// Whether the buffer decodes as a full aggregator state record: it is
/// non-empty, carries the aggregator tag byte, and its remainder parses.
pub uninterp spec fn aggregator_decodes(b: Seq<u8>) -> bool;

/// Whether the decoded aggregator state yields a usable round: its current
/// round if that round is valid, else its last round, if either is there.
pub uninterp spec fn aggregator_round_ok(b: Seq<u8>) -> bool;

/// Whether the usable round of the decoded aggregator state carries a
/// result value at all.
pub uninterp spec fn aggregator_value_present(b: Seq<u8>) -> bool;

/// The decimal text of the round result decoded from an aggregator buffer.
pub uninterp spec fn aggregator_value_text(b: Seq<u8>) -> Seq<char>;

/// Whether the buffer parses as a fast-parse optimized result record: it
/// carries the fast-parse tag byte and is long enough for the fixed layout.
pub uninterp spec fn fast_parse_ok(b: Seq<u8>) -> bool;

/// The decimal text of the result field of a fast-parse record.
pub uninterp spec fn fast_value_text(b: Seq<u8>) -> Seq<char>;

/// Decodes the buffer as an aggregator state record and renders its round
/// result, if one is present, as decimal text.
///
/// Relies on `switchboard_program::get_aggregator` (checks the tag byte and
/// parses the record), `switchboard_program::get_aggregator_result` (picks
/// the current round if valid, else the last round), and
/// `lexical::to_string` (decimal rendering); each is a pure function of the
/// buffer bytes. The account handle built in the body only carries the
/// bytes to `get_aggregator`, which reads nothing else of it.
#[verifier::external_body]
pub(crate) fn decode_aggregator_value(buf: &Vec<u8>) -> (r: AggregatorDecode)
    requires
        buf@.len() >= 1,
    ensures
        (r is Ok) <==> (aggregator_decodes(buf@) && aggregator_round_ok(buf@)),
        !aggregator_decodes(buf@) ==> r == agg_err(FeedError::MalformedAccountData),
        (aggregator_decodes(buf@) && !aggregator_round_ok(buf@)) ==> r == agg_err(FeedError::DecodeFault),
        r is Ok ==> ((r->Ok_0 is Some) <==> aggregator_value_present(buf@)),
        (r is Ok && aggregator_value_present(buf@)) ==> r->Ok_0->Some_0@ == aggregator_value_text(buf@),
        buf@[0] != TAG_AGGREGATOR ==> r == agg_err(FeedError::MalformedAccountData),
{
    let key = Pubkey::default();
    let owner = Pubkey::default();
    let mut lamports: u64 = 0;
    let mut data = buf.clone();
    let info = AccountInfo::new(&key, false, false, &mut lamports, &mut data, &owner, false, 0);
    let state = get_aggregator(&info).map_err(|_| FeedError::MalformedAccountData)?;
    let round = get_aggregator_result(&state).map_err(|_| FeedError::DecodeFault)?;
    Ok(round.result.map(lexical::to_string))
}

/// Parses the buffer as a fast-parse optimized result record and renders
/// its result field as decimal text.
///
/// Relies on
/// `switchboard_program::FastRoundResultAccountData::deserialize` (checks
/// the tag byte and the fixed record length, then copies the record out of
/// the buffer) and `lexical::to_string` (decimal rendering); both are pure
/// functions of the buffer bytes.
#[verifier::external_body]
pub(crate) fn fast_decode_value(buf: &Vec<u8>) -> (r: FastDecode)
    requires
        buf@.len() >= 1,
    ensures
        (r is Ok) <==> fast_parse_ok(buf@),
        r is Ok ==> r->Ok_0@ == fast_value_text(buf@),
        !fast_parse_ok(buf@) ==> r == fast_err(FeedError::MalformedAccountData),
        buf@[0] != TAG_AGGREGATOR_RESULT_PARSE_OPTIMIZED ==> r == fast_err(FeedError::MalformedAccountData),
{
    match FastRoundResultAccountData::deserialize(buf.as_slice()) {
        Ok(d) => Ok(lexical::to_string(d.result.result)),
        Err(_) => Err(FeedError::MalformedAccountData),
    }
}

} // verus!
