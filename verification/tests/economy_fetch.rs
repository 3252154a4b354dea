use poe2_overlord::domain::economy::fetch::{CurrencyFetch, FetchAction, FetchEvent, FetchPhase};
use poe2_overlord::domain::economy::models::EconomyType;
use poe2_overlord::errors::{AppError, ErrorKind};

fn started(league: &str, hardcore: bool) -> CurrencyFetch<u32> {
    let (fetch, action) = CurrencyFetch::<u32>::start(league, hardcore, EconomyType::Currency);
    assert!(matches!(action, FetchAction::LoadFreshCache));
    fetch
}

#[test]
fn blank_league_finishes_at_once() {
    let (fetch, action) = CurrencyFetch::<u32>::start("   ", false, EconomyType::Runes);
    assert_eq!(fetch.phase, FetchPhase::Done);
    match action {
        FetchAction::Finish(Err(e), false) => assert_eq!(
            e.to_string(),
            "Validation error: fetch_currency_exchange_data: League name cannot be empty"
        ),
        other => panic!("unexpected action {other:?}"),
    }
}

#[test]
fn fresh_cache_answers_without_a_request() {
    let mut fetch = started("Standard", false);
    assert_eq!(fetch.key, "Standard:false:Currency");
    match fetch.step(FetchEvent::FreshCache(Ok(Some(7)))) {
        FetchAction::Finish(Ok(7), false) => {}
        other => panic!("unexpected action {other:?}"),
    }
}

#[test]
fn successful_fetch_is_saved_then_released() {
    let mut fetch = started("The Fate of the Vaal", true);
    assert!(matches!(fetch.step(FetchEvent::FreshCache(Ok(None))), FetchAction::AcquireLock(k) if k == "The Fate of the Vaal:true:Currency"));
    assert!(matches!(fetch.step(FetchEvent::LockAcquired(Ok(()))), FetchAction::LoadFreshCache));
    match fetch.step(FetchEvent::FreshCache(Ok(None))) {
        FetchAction::Fetch(url) => assert_eq!(
            url,
            "https://poe.ninja/poe2/api/economy/exchange/current/overview?league=HC%20Fate%20of%20the%20Vaal&type=Currency"
        ),
        other => panic!("unexpected action {other:?}"),
    }
    assert!(matches!(fetch.step(FetchEvent::Fetched(Ok(5))), FetchAction::Save(5)));
    assert!(matches!(fetch.step(FetchEvent::Saved(5)), FetchAction::Release(_)));
    assert!(fetch.accepts(&FetchEvent::Released));
    assert!(!fetch.accepts(&FetchEvent::Saved(1)));
    assert!(matches!(fetch.step(FetchEvent::Released), FetchAction::Finish(Ok(5), false)));
    assert_eq!(fetch.phase, FetchPhase::Done);
}

#[test]
fn cache_filled_while_waiting_for_the_lock() {
    let mut fetch = started("Standard", false);
    fetch.step(FetchEvent::FreshCache(Ok(None)));
    fetch.step(FetchEvent::LockAcquired(Ok(())));
    assert!(matches!(fetch.step(FetchEvent::FreshCache(Ok(Some(9)))), FetchAction::Release(_)));
    assert!(matches!(fetch.step(FetchEvent::Released), FetchAction::Finish(Ok(9), false)));
}

#[test]
fn failed_fetch_falls_back_to_stale_data() {
    let mut fetch = started("Standard", false);
    fetch.step(FetchEvent::FreshCache(Ok(None)));
    fetch.step(FetchEvent::LockAcquired(Ok(())));
    fetch.step(FetchEvent::FreshCache(Ok(None)));
    let err = AppError::network_error("poe.ninja_api", "API server error: 503");
    assert!(matches!(fetch.step(FetchEvent::Fetched(Err(err))), FetchAction::LoadStaleCache));
    assert!(matches!(fetch.step(FetchEvent::StaleCache(Ok(Some(3)))), FetchAction::Release(_)));
    assert!(matches!(fetch.step(FetchEvent::Released), FetchAction::Finish(Ok(3), true)));
}

#[test]
fn failed_fetch_without_stale_data_reports_the_failure() {
    let mut fetch = started("Standard", false);
    fetch.step(FetchEvent::FreshCache(Ok(None)));
    fetch.step(FetchEvent::LockAcquired(Ok(())));
    fetch.step(FetchEvent::FreshCache(Ok(None)));
    let err = AppError::validation_error("poe.ninja_api", "API client error: 404 Not Found");
    fetch.step(FetchEvent::Fetched(Err(err)));
    assert!(matches!(fetch.step(FetchEvent::StaleCache(Ok(None))), FetchAction::Release(_)));
    match fetch.step(FetchEvent::Released) {
        FetchAction::Finish(Err(e), false) => {
            assert_eq!(e.error_kind(), ErrorKind::Validation);
            assert_eq!(e.to_string(), "Validation error: poe.ninja_api: API client error: 404 Not Found");
        }
        other => panic!("unexpected action {other:?}"),
    }
}

#[test]
fn lock_failure_is_an_internal_error() {
    let mut fetch = started("Standard", false);
    fetch.step(FetchEvent::FreshCache(Ok(None)));
    match fetch.step(FetchEvent::LockAcquired(Err("semaphore closed".to_string()))) {
        FetchAction::Finish(Err(e), false) => assert_eq!(
            e.to_string(),
            "Internal error: fetch_currency_exchange_data: Failed to acquire fetch lock: semaphore closed"
        ),
        other => panic!("unexpected action {other:?}"),
    }
}
