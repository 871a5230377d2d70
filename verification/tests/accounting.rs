use chat_relay::metrics::database::{
    AccountingFailure, LogAction, LogPhase, MetricsState, StoreEvent,
};

fn log_with_success(state: &mut MetricsState, tokens: i32) {
    let (phase, action) = state.log_request(LogPhase::Pending, StoreEvent::Requested, tokens);
    assert_eq!(action, LogAction::Connect);
    let (phase, action) = state.log_request(phase, StoreEvent::Connected, tokens);
    assert_eq!(action, LogAction::Insert);
    let (phase, action) = state.log_request(phase, StoreEvent::Inserted, tokens);
    assert_eq!(phase, LogPhase::Finished);
    assert_eq!(action, LogAction::Finish);
}

#[test]
fn counter_starts_at_zero() {
    assert_eq!(MetricsState::init(true).tokens(), 0);
    assert_eq!(MetricsState::init(false).tokens(), 0);
    assert!(MetricsState::init(true).has_store());
    assert!(!MetricsState::init(false).has_store());
}

#[test]
fn without_a_store_nothing_is_written_or_counted() {
    let mut state = MetricsState::init(false);
    let (phase, action) = state.log_request(LogPhase::Pending, StoreEvent::Requested, 50);
    assert_eq!(phase, LogPhase::Finished);
    assert_eq!(action, LogAction::Finish);
    assert_eq!(state.tokens(), 0);
}

#[test]
fn failed_connection_is_reported_and_not_counted() {
    let mut state = MetricsState::init(true);
    let (phase, action) = state.log_request(LogPhase::Pending, StoreEvent::Requested, 50);
    assert_eq!((phase, action), (LogPhase::Connecting, LogAction::Connect));
    let (phase, action) = state.log_request(phase, StoreEvent::ConnectFailed, 50);
    assert_eq!(phase, LogPhase::Finished);
    assert_eq!(action, LogAction::Report(AccountingFailure::Pool));
    assert_eq!(state.tokens(), 0);
}

#[test]
fn failed_insert_is_reported_and_not_counted() {
    let mut state = MetricsState::init(true);
    let (phase, _) = state.log_request(LogPhase::Pending, StoreEvent::Requested, 50);
    let (phase, action) = state.log_request(phase, StoreEvent::Connected, 50);
    assert_eq!((phase, action), (LogPhase::Inserting, LogAction::Insert));
    let (phase, action) = state.log_request(phase, StoreEvent::InsertFailed, 50);
    assert_eq!(phase, LogPhase::Finished);
    assert_eq!(action, LogAction::Report(AccountingFailure::Insert));
    assert_eq!(state.tokens(), 0);
}

#[test]
fn successful_insert_is_counted() {
    let mut state = MetricsState::init(true);
    log_with_success(&mut state, 50);
    assert_eq!(state.tokens(), 50);
}

#[test]
fn count_of_zero_or_less_adds_nothing() {
    let mut state = MetricsState::init(true);
    log_with_success(&mut state, 9);
    log_with_success(&mut state, 0);
    log_with_success(&mut state, -4);
    assert_eq!(state.tokens(), 9);
}

#[test]
fn counter_is_the_sum_in_any_order() {
    let counts = [7, 0, 2147483647, 13, 1];
    let mut forward = MetricsState::init(true);
    for tokens in counts.iter() {
        log_with_success(&mut forward, *tokens);
    }
    let mut backward = MetricsState::init(true);
    for tokens in counts.iter().rev() {
        log_with_success(&mut backward, *tokens);
    }
    assert_eq!(forward.tokens(), 7 + 2147483647 + 13 + 1);
    assert_eq!(backward.tokens(), forward.tokens());
}

#[test]
fn requests_may_interleave() {
    let mut state = MetricsState::init(true);
    let (a, _) = state.log_request(LogPhase::Pending, StoreEvent::Requested, 5);
    let (b, _) = state.log_request(LogPhase::Pending, StoreEvent::Requested, 6);
    let (b, _) = state.log_request(b, StoreEvent::Connected, 6);
    let (a, _) = state.log_request(a, StoreEvent::Connected, 5);
    let (b, _) = state.log_request(b, StoreEvent::Inserted, 6);
    assert_eq!(state.tokens(), 6);
    let (a, _) = state.log_request(a, StoreEvent::InsertFailed, 5);
    assert_eq!((a, b), (LogPhase::Finished, LogPhase::Finished));
    assert_eq!(state.tokens(), 6);
}

#[test]
fn store_event_out_of_place_is_ignored() {
    let mut state = MetricsState::init(true);
    for (phase, event) in [
        (LogPhase::Pending, StoreEvent::Inserted),
        (LogPhase::Pending, StoreEvent::Connected),
        (LogPhase::Connecting, StoreEvent::Inserted),
        (LogPhase::Connecting, StoreEvent::Requested),
        (LogPhase::Inserting, StoreEvent::Connected),
        (LogPhase::Finished, StoreEvent::Inserted),
        (LogPhase::Finished, StoreEvent::Requested),
    ] {
        let (next, action) = state.log_request(phase, event, 99);
        assert_eq!(next, phase);
        assert_eq!(action, LogAction::Ignore);
    }
    assert_eq!(state.tokens(), 0);
}

#[test]
fn increment_adds_and_wraps() {
    let mut state = MetricsState::init(false);
    state.inc_tokens(5);
    state.inc_tokens(7);
    assert_eq!(state.tokens(), 12);
    state.inc_tokens(i64::MAX);
    assert_eq!(state.tokens(), i64::MIN + 11);
}
