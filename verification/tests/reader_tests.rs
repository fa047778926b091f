use feed_reader::config::{AbsentPolicy, Config, DispatchMode};
use feed_reader::errors::FeedError;
use feed_reader::reader::{process, AccountFetch, Outcome};

use switchboard_program::{mod_AggregatorState, AggregatorState, RoundResult, SwitchboardAccountType};
use switchboard_program::FastRoundResultAccountData;
use switchboard_utils::save_state_to_buffer;

fn strict_zero() -> Config {
    Config { dispatch: DispatchMode::StrictTag, absent: AbsentPolicy::DefaultZero }
}

fn strict_fault() -> Config {
    Config { dispatch: DispatchMode::StrictTag, absent: AbsentPolicy::Fault }
}

fn always_zero() -> Config {
    Config { dispatch: DispatchMode::AlwaysAggregator, absent: AbsentPolicy::DefaultZero }
}

fn round(num_success: i32, result: Option<f64>) -> RoundResult {
    RoundResult {
        num_success: Some(num_success),
        num_error: Some(0),
        result,
        round_open_slot: Some(1),
        round_open_timestamp: Some(1),
        min_response: result,
        max_response: result,
        medians: Vec::new(),
    }
}

fn aggregator(
    current: Option<RoundResult>,
    last: Option<RoundResult>,
    min_confirmations: i32,
) -> AggregatorState {
    AggregatorState {
        version: Some(1),
        configs: Some(mod_AggregatorState::Configs {
            locked: Some(false),
            min_confirmations: Some(min_confirmations),
            min_update_delay_seconds: Some(10),
            schedule: None,
        }),
        fulfillment_manager_pubkey: Some(Vec::new()),
        job_definition_pubkeys: Vec::new(),
        agreement: None,
        current_round_result: current,
        last_round_result: last,
        parse_optimized_result_address: None,
        bundle_auth_addresses: Vec::new(),
    }
}

fn aggregator_buffer(state: &AggregatorState) -> Vec<u8> {
    save_state_to_buffer(state, SwitchboardAccountType::TYPE_AGGREGATOR).unwrap()
}

fn fast_buffer(value: f64) -> Vec<u8> {
    let mut record = FastRoundResultAccountData::default();
    record.result.result = value;
    let mut buf: Vec<u8> = Vec::new();
    record.serialize(&mut buf).unwrap();
    buf
}

fn logged(text: &str) -> Outcome {
    Outcome::Logged(format!("Current feed result is {}!", text))
}

#[test]
fn missing_account_fails() {
    let r = process(AccountFetch::NoAccounts, strict_zero());
    assert_eq!(r, Outcome::Failed(FeedError::MissingAccount));
}

#[test]
fn borrow_failure_fails() {
    let r = process(AccountFetch::BorrowDenied, strict_zero());
    assert_eq!(r, Outcome::Failed(FeedError::BorrowFailure));
}

#[test]
fn empty_buffer_fails() {
    let r = process(AccountFetch::Data(Vec::new()), strict_zero());
    assert_eq!(r, Outcome::Failed(FeedError::MalformedAccountData));

    let r = process(AccountFetch::Data(Vec::new()), always_zero());
    assert_eq!(r, Outcome::Failed(FeedError::MalformedAccountData));
}

#[test]
fn unrecognized_tag_fails_under_strict_dispatch() {
    let r = process(AccountFetch::Data(vec![7, 1, 2, 3]), strict_zero());
    assert_eq!(r, Outcome::Failed(FeedError::InvalidAccountData));

    let r = process(AccountFetch::Data(vec![0]), strict_zero());
    assert_eq!(r, Outcome::Failed(FeedError::InvalidAccountData));
}

#[test]
fn aggregator_present_result_is_logged() {
    let state = aggregator(Some(round(20, Some(42.5))), None, 10);
    let r = process(AccountFetch::Data(aggregator_buffer(&state)), strict_zero());
    assert_eq!(r, logged("42.5"));
}

#[test]
fn aggregator_falls_back_to_last_round() {
    let state = aggregator(Some(round(2, Some(97.0))), Some(round(30, Some(100.0))), 10);
    let r = process(AccountFetch::Data(aggregator_buffer(&state)), strict_zero());
    assert_eq!(r, logged("100.0"));
}

#[test]
fn aggregator_absent_result_defaults_to_zero() {
    let state = aggregator(Some(round(20, None)), None, 10);
    let r = process(AccountFetch::Data(aggregator_buffer(&state)), strict_zero());
    assert_eq!(r, logged("0.0"));
}

#[test]
fn aggregator_absent_result_faults_under_fault_policy() {
    let state = aggregator(Some(round(20, None)), None, 10);
    let r = process(AccountFetch::Data(aggregator_buffer(&state)), strict_fault());
    assert_eq!(r, Outcome::Fatal);
}

#[test]
fn aggregator_without_usable_round_is_a_decode_fault() {
    let state = aggregator(None, None, 10);
    let r = process(AccountFetch::Data(aggregator_buffer(&state)), strict_zero());
    assert_eq!(r, Outcome::Failed(FeedError::DecodeFault));
}

#[test]
fn aggregator_garbage_payload_fails() {
    let r = process(AccountFetch::Data(vec![1, 0xFF]), strict_zero());
    assert_eq!(r, Outcome::Failed(FeedError::MalformedAccountData));
}

#[test]
fn fast_parse_result_is_logged() {
    let r = process(AccountFetch::Data(fast_buffer(7.0)), strict_zero());
    assert_eq!(r, logged("7.0"));
}

#[test]
fn fast_parse_fractional_result_is_logged() {
    let r = process(AccountFetch::Data(fast_buffer(1234.25)), strict_zero());
    assert_eq!(r, logged("1234.25"));
}

#[test]
fn fast_parse_short_buffer_fails() {
    let r = process(AccountFetch::Data(vec![5, 1, 2, 3]), strict_zero());
    assert_eq!(r, Outcome::Failed(FeedError::MalformedAccountData));
}

#[test]
fn always_aggregator_rejects_fast_parse_buffer() {
    let r = process(AccountFetch::Data(fast_buffer(7.0)), always_zero());
    assert_eq!(r, Outcome::Failed(FeedError::MalformedAccountData));
}

#[test]
fn always_aggregator_decodes_aggregator_buffer() {
    let state = aggregator(Some(round(20, Some(42.5))), None, 10);
    let r = process(AccountFetch::Data(aggregator_buffer(&state)), always_zero());
    assert_eq!(r, logged("42.5"));
}

#[test]
fn repeated_calls_agree() {
    let state = aggregator(Some(round(20, Some(42.5))), None, 10);
    let buf = aggregator_buffer(&state);
    let first = process(AccountFetch::Data(buf.clone()), strict_zero());
    let second = process(AccountFetch::Data(buf), strict_zero());
    assert_eq!(first, second);
}
