use esp32c3_embassy_picoserve::bootstrap::BootstrapAction;
use esp32c3_embassy_picoserve::bootstrap::BootstrapState;
use esp32c3_embassy_picoserve::clock::fallback_snapshot;
use esp32c3_embassy_picoserve::clock::Clock;
use esp32c3_embassy_picoserve::clock::ClockError;
use esp32c3_embassy_picoserve::clock::ClockSnapshot;
use esp32c3_embassy_picoserve::clock::MAX_UNIX_TIMESTAMP;
use esp32c3_embassy_picoserve::clock::MIN_UNIX_TIMESTAMP;
use esp32c3_embassy_picoserve::http::Client;
use esp32c3_embassy_picoserve::http::Error;
use esp32c3_embassy_picoserve::web::AppState;
use esp32c3_embassy_picoserve::web::ClockExtractor;

/// Drive bootstrap with a simulated store and fetch body, counting how
/// often the policy asks for the network.
fn run_bootstrap(stored: Option<ClockSnapshot>, fetch_body: &[u8]) -> (ClockSnapshot, u32) {
    let mut fetch_calls: u32 = 0;
    let mut state = BootstrapState::start();
    loop {
        match state.required_action() {
            BootstrapAction::QueryStore => {
                state = state.on_store_loaded(stored);
            },
            BootstrapAction::FetchTime => {
                fetch_calls += 1;
                let mut client = Client::new();
                let _ = client.begin_request(9);
                assert!(client.on_connected(Ok(())).is_none());
                assert!(client.on_sent(Ok(())).is_none());
                let response = client.on_body(Ok(fetch_body));
                state = state.on_fetch(Client::fetch_current_time(response));
            },
            BootstrapAction::AdoptFallback => {
                state = state.on_fallback();
            },
            BootstrapAction::Finished => {
                return (state.snapshot().expect("done state carries a snapshot"), fetch_calls);
            },
        }
    }
}

#[test]
fn absent_store_fetches_and_adopts_timestamp() {
    let (snap, fetch_calls) = run_bootstrap(None, b"1700000000");
    assert_eq!(snap.epoch_seconds, 1700000000);
    assert_eq!(snap.offset_seconds, 0);
    assert_eq!(fetch_calls, 1);
}

#[test]
fn present_store_is_adopted_with_zero_network_calls() {
    let stored = ClockSnapshot::new(42, 7200);
    let (snap, fetch_calls) = run_bootstrap(Some(stored), b"1700000000");
    assert_eq!(snap, stored);
    assert_eq!(snap.epoch_seconds, 42);
    assert_eq!(snap.offset_seconds, 7200);
    assert_eq!(fetch_calls, 0);
}

#[test]
fn unparsable_body_falls_back_to_epoch_zero() {
    let mut client = Client::new();
    let _ = client.begin_request(9);
    assert!(client.on_connected(Ok(())).is_none());
    assert!(client.on_sent(Ok(())).is_none());
    let response = client.on_body(Ok(&b"not-a-number"[..]));
    assert_eq!(Client::fetch_current_time(response), Err(Error::ParseIntError));

    let (snap, _) = run_bootstrap(None, b"not-a-number");
    assert_eq!(snap.epoch_seconds, 0);
    assert_eq!(snap.offset_seconds, 0);
}

#[test]
fn negative_timestamp_is_accepted() {
    let (snap, _) = run_bootstrap(None, b"-5");
    assert_eq!(snap.epoch_seconds, -5);
    assert_eq!(snap.offset_seconds, 0);
}

#[test]
fn dns_failure_with_absent_store_falls_back() {
    let mut state = BootstrapState::start();
    state = state.on_store_loaded(None);
    assert_eq!(state.required_action(), BootstrapAction::FetchTime);
    state = state.on_fetch(Err(Error::Dns));
    assert_eq!(state.required_action(), BootstrapAction::AdoptFallback);
    state = state.on_fallback();
    let snap = state.snapshot().unwrap();
    assert_eq!(snap, fallback_snapshot());
    assert_eq!(snap.epoch_seconds, 0);
    assert_eq!(snap.offset_seconds, 0);
}

#[test]
fn clock_advances_by_elapsed_seconds() {
    let clock = Clock::new(1700000000, 0);
    assert_eq!(clock.now(0), Ok(1700000000));
    assert_eq!(clock.now(3600), Ok(1700003600));
}

#[test]
fn clock_reports_epoch_overflow() {
    let clock = Clock::new(i64::MAX, 0);
    assert_eq!(clock.now(0), Ok(i64::MAX));
    assert_eq!(clock.now(1), Err(ClockError::EpochOverflow));
}

#[test]
fn clock_datetime_matches_the_epoch() {
    let clock = Clock::new(1700000000, 0);
    let instant = clock.now_datetime(5).expect("within calendar range");
    assert_eq!(instant.unix_timestamp(), 1700000005);
}

#[test]
fn clock_datetime_respects_the_calendar_range() {
    let clock = Clock::new(MAX_UNIX_TIMESTAMP, 0);
    assert!(clock.now_datetime(0).is_ok());
    assert_eq!(clock.now_datetime(1), Err(ClockError::OutOfCalendarRange));

    let early = Clock::new(MIN_UNIX_TIMESTAMP, 0);
    assert!(early.now_datetime(0).is_ok());
    let too_early = Clock::new(MIN_UNIX_TIMESTAMP - 1, 0);
    assert_eq!(too_early.now_datetime(0), Err(ClockError::OutOfCalendarRange));
}

#[test]
fn snapshot_becomes_the_boot_clock() {
    let snap = ClockSnapshot::new(1700000000, 3600);
    let clock = Clock::from_snapshot(snap);
    assert_eq!(clock.boot_epoch_seconds, 1700000000);
    assert_eq!(clock.offset_seconds, 3600);
}

#[test]
fn extractor_hands_out_the_shared_clock() {
    let clock = Clock::new(42, 0);
    let state = AppState { clock };
    let ClockExtractor(extracted) = ClockExtractor::from_app_state(&state);
    assert_eq!(extracted, clock);
}

#[test]
fn panic_marker_reports_halt() {
    assert!(esp32c3_embassy_picoserve::panic());
}
