use repo_search::error::{ConfigField, FetchError};
use repo_search::fetcher::{FetchState, PageOutcome, RawBody, PER_PAGE};

fn new_state() -> FetchState {
    FetchState::new("rust".to_string(), "token".to_string()).unwrap()
}

fn page_body(total: u64, first: usize, count: usize) -> RawBody {
    let mut items: Vec<Option<String>> = Vec::new();
    let mut i = first;
    while i < first + count {
        items.push(Some(format!("owner/repo{}", i)));
        i += 1;
    }
    RawBody { total_count: Some(total), items: Some(items) }
}

fn ok_outcome(total: u64, first: usize, count: usize) -> PageOutcome {
    PageOutcome::Answered { status: 200, body: page_body(total, first, count), text: String::new() }
}

#[test]
fn construction_starts_at_page_zero() {
    let state = new_state();
    assert_eq!(state.page(), 0);
    assert_eq!(state.per_page(), PER_PAGE);
    assert_eq!(state.total(), None);
    assert!(state.accumulated().is_empty());
}

#[test]
fn construction_rejects_empty_search_str() {
    let r = FetchState::new(String::new(), "token".to_string());
    assert_eq!(r.unwrap_err(), FetchError::Configuration(ConfigField::SearchStr));
}

#[test]
fn construction_rejects_empty_token() {
    let r = FetchState::new("rust".to_string(), String::new());
    assert_eq!(r.unwrap_err(), FetchError::Configuration(ConfigField::Token));
}

#[test]
fn round_trip_two_pages() {
    let mut state = new_state();

    let req1 = state.next_request().expect("a first request is owed");
    assert_eq!(req1.page, 1);
    let more = state.apply_outcome(ok_outcome(45, 0, 30)).unwrap();
    assert!(more);
    assert_eq!(state.accumulated().len(), 30);

    let req2 = state.next_request().expect("a second request is owed");
    assert_eq!(req2.page, 2);
    let more = state.apply_outcome(ok_outcome(45, 30, 15)).unwrap();
    assert!(!more);

    assert!(state.next_request().is_none());
    let acc = state.accumulated();
    assert_eq!(acc.len(), 45);
    for (i, item) in acc.iter().enumerate() {
        assert_eq!(item.full_name, format!("owner/repo{}", i));
    }
    assert_eq!(state.total(), Some(45));
}

#[test]
fn total_zero_completes_after_first_fetch() {
    let mut state = new_state();
    let req = state.next_request().expect("the first page is always attempted");
    assert_eq!(req.page, 1);
    let more = state.apply_outcome(ok_outcome(0, 0, 0)).unwrap();
    assert!(!more);
    assert!(state.accumulated().is_empty());
    assert!(state.next_request().is_none());
}

#[test]
fn total_exactly_divisible_fetches_one_page() {
    let mut state = new_state();
    let req = state.next_request().unwrap();
    assert_eq!(req.page, 1);
    let more = state.apply_outcome(ok_outcome(30, 0, 30)).unwrap();
    assert!(!more);
    assert!(state.next_request().is_none());
    assert_eq!(state.accumulated().len(), 30);
    assert_eq!(state.page(), 1);
}

#[test]
fn guard_answer_is_idempotent() {
    let mut state = new_state();
    state.next_request().unwrap();
    state.apply_outcome(ok_outcome(0, 0, 0)).unwrap();
    for _ in 0..5 {
        assert!(state.next_request().is_none());
        assert_eq!(state.page(), 1);
    }
}

#[test]
fn http_401_yields_protocol_error_and_keeps_nothing() {
    let mut state = new_state();
    let req = state.next_request().unwrap();
    assert_eq!(req.page, 1);
    let outcome = PageOutcome::Answered {
        status: 401,
        body: RawBody { total_count: None, items: None },
        text: "bad credentials".to_string(),
    };
    let err = state.apply_outcome(outcome).unwrap_err();
    assert_eq!(err, FetchError::Protocol(401, "bad credentials".to_string()));
    assert!(state.accumulated().is_empty());
    assert_eq!(state.total(), None);
    // the whole failed step left the state as constructed
    assert_eq!(state.page(), 0);
    assert!(!state.request_pending());
}

#[test]
fn missing_items_yields_decode_error_and_keeps_state() {
    let mut state = new_state();
    state.next_request().unwrap();
    state.apply_outcome(ok_outcome(45, 0, 30)).unwrap();
    state.next_request().unwrap();

    let outcome = PageOutcome::Answered {
        status: 200,
        body: RawBody { total_count: Some(45), items: None },
        text: String::new(),
    };
    let err = state.apply_outcome(outcome).unwrap_err();
    assert_eq!(err, FetchError::Decode);
    assert_eq!(state.accumulated().len(), 30);
    assert_eq!(state.total(), Some(45));
    // the failed step rolled the page counter back to the last applied page
    assert_eq!(state.page(), 1);
}

#[test]
fn transport_failure_yields_transport_error() {
    let mut state = new_state();
    state.next_request().unwrap();
    let err = state.apply_outcome(PageOutcome::Failed("connection refused".to_string())).unwrap_err();
    assert_eq!(err, FetchError::Transport("connection refused".to_string()));
    assert!(state.accumulated().is_empty());
    assert_eq!(state.page(), 0);
}

#[test]
fn failed_step_can_be_retried_without_skipping_a_page() {
    let mut state = new_state();
    let req = state.next_request().unwrap();
    assert_eq!(req.page, 1);
    state.apply_outcome(PageOutcome::Failed("timed out".to_string())).unwrap_err();
    // the attempt was rolled back, so the retry asks for the same page
    let req = state.next_request().unwrap();
    assert_eq!(req.page, 1);
    let more = state.apply_outcome(ok_outcome(1, 0, 1)).unwrap();
    assert!(!more);
    assert_eq!(state.accumulated().len(), 1);
}

#[test]
fn request_pending_tracks_the_outstanding_request() {
    let mut state = new_state();
    assert!(!state.request_pending());
    state.next_request().unwrap();
    assert!(state.request_pending());
    state.apply_outcome(ok_outcome(0, 0, 0)).unwrap();
    assert!(!state.request_pending());
}

#[test]
fn empty_page_below_total_does_not_complete_or_loop() {
    let mut state = new_state();
    state.next_request().unwrap();
    let more = state.apply_outcome(ok_outcome(45, 0, 0)).unwrap();
    assert!(more);
    // the next attempt asks for the next page, never the same one again
    let req = state.next_request().unwrap();
    assert_eq!(req.page, 2);
    let more = state.apply_outcome(ok_outcome(45, 0, 0)).unwrap();
    assert!(!more);
    assert!(state.next_request().is_none());
}

#[test]
fn total_may_change_between_pages() {
    let mut state = new_state();
    state.next_request().unwrap();
    let more = state.apply_outcome(ok_outcome(45, 0, 30)).unwrap();
    assert!(more);
    state.next_request().unwrap();
    let more = state.apply_outcome(ok_outcome(31, 30, 1)).unwrap();
    assert!(!more);
    assert_eq!(state.total(), Some(31));
    assert_eq!(state.accumulated().len(), 31);
}
