use poe2_overlord::domain::configuration::models::{
    log_level_from_config, log_target_allowed, LogLevel,
};
use poe2_overlord::domain::economy::fetch::{
    CurrencyFetch, FetchAction, FetchEvent, FetchLocks, FetchPhase,
};
use poe2_overlord::domain::economy::models::{CurrencyInfo, CurrencyTier, EconomyType};
use poe2_overlord::domain::economy::service::display_currency_for;
use poe2_overlord::domain::event_management::models::{EventChannelConfig, EventType};
use poe2_overlord::domain::event_management::service::ChannelConfigs;
use poe2_overlord::errors::AppError;

#[test]
fn one_holder_per_fetch_key() {
    let mut locks = FetchLocks::new();
    assert!(locks.try_acquire("Standard:false:Currency"));
    assert!(!locks.try_acquire("Standard:false:Currency"));
    assert!(locks.try_acquire("Standard:false:Runes"));
    assert!(locks.is_held("Standard:false:Currency"));
    locks.release("Standard:false:Currency");
    assert!(!locks.is_held("Standard:false:Currency"));
    assert!(locks.is_held("Standard:false:Runes"));
    assert!(locks.try_acquire("Standard:false:Currency"));
    locks.release("never taken");
    assert!(locks.is_held("Standard:false:Runes"));
}

fn locked_fetch() -> CurrencyFetch<u32> {
    let (mut fetch, _) = CurrencyFetch::<u32>::start("Standard", false, EconomyType::Currency);
    fetch.step(FetchEvent::FreshCache(Ok(None)));
    fetch.step(FetchEvent::LockAcquired(Ok(())));
    fetch
}

#[test]
fn failed_cache_read_under_the_lock_releases_it_first() {
    let mut fetch = locked_fetch();
    let e = AppError::internal_error("load_fresh_exchange_data", "disk gone");
    assert!(matches!(fetch.step(FetchEvent::FreshCache(Err(e))), FetchAction::Release(k) if k == "Standard:false:Currency"));
    match fetch.step(FetchEvent::Released) {
        FetchAction::Finish(Err(e), false) => {
            assert_eq!(e.to_string(), "Internal error: load_fresh_exchange_data: disk gone")
        }
        other => panic!("unexpected action {other:?}"),
    }
    assert_eq!(fetch.phase, FetchPhase::Done);
}

#[test]
fn failed_stale_read_releases_the_lock_first() {
    let mut fetch = locked_fetch();
    fetch.step(FetchEvent::FreshCache(Ok(None)));
    fetch.step(FetchEvent::Fetched(Err(AppError::network_error("poe.ninja_api", "timeout"))));
    let e = AppError::internal_error("load_exchange_data", "locked");
    assert!(matches!(fetch.step(FetchEvent::StaleCache(Err(e))), FetchAction::Release(_)));
    assert!(matches!(fetch.step(FetchEvent::Released), FetchAction::Finish(Err(_), false)));
}

#[test]
fn channel_settings_read_back_what_was_set() {
    let mut configs = ChannelConfigs::new();
    let d = configs.get_channel_config(EventType::LogEvent).unwrap();
    assert_eq!((d.channel_capacity, d.max_subscribers), (1000, 100));
    assert!(!d.enable_persistence);
    assert_eq!(d.retention_duration_hours, 24);
    let small = EventChannelConfig {
        channel_capacity: 10,
        max_subscribers: 2,
        enable_persistence: true,
        retention_duration_hours: 1,
    };
    configs.update_channel_config(EventType::ServerPing, small);
    let c = configs.get_channel_config(EventType::ServerPing).unwrap();
    assert_eq!((c.channel_capacity, c.max_subscribers), (10, 2));
    assert!(c.enable_persistence);
    let other = configs.get_channel_config(EventType::LogEvent).unwrap();
    assert_eq!(other.max_subscribers, 100);
    let bigger = EventChannelConfig { max_subscribers: 5, ..small };
    configs.update_channel_config(EventType::ServerPing, bigger);
    assert_eq!(configs.get_channel_config(EventType::ServerPing).unwrap().max_subscribers, 5);
    assert_eq!(configs.entries.len(), 1);
}

#[test]
fn log_settings() {
    assert_eq!(log_level_from_config(None), LogLevel::Info);
    assert_eq!(log_level_from_config(Some("DEBUG")), LogLevel::Debug);
    assert_eq!(log_level_from_config(Some("nonsense")), LogLevel::Info);
    assert!(!log_target_allowed("selectors::matching"));
    assert!(!log_target_allowed("html5ever::tree_builder"));
    assert!(log_target_allowed("poe2_overlord::economy"));
    assert!(log_target_allowed("html"));
}

fn info(id: &str) -> CurrencyInfo {
    CurrencyInfo { id: id.to_string(), name: id.to_uppercase(), image_url: String::new() }
}

#[test]
fn ordinary_lines_are_shown_in_the_tier_their_value_selects() {
    let p = info("divine");
    let s = info("chaos");
    let t = Some(info("exalted"));
    let (c, tier) = display_currency_for("annul", &p, &s, &t, CurrencyTier::Primary);
    assert_eq!((c.id.as_str(), tier), ("divine", CurrencyTier::Primary));
    let (c, tier) = display_currency_for("annul", &p, &s, &t, CurrencyTier::Secondary);
    assert_eq!((c.id.as_str(), tier), ("chaos", CurrencyTier::Secondary));
    let (c, tier) = display_currency_for("chaos", &p, &s, &None, CurrencyTier::Tertiary);
    assert_eq!((c.id.as_str(), tier), ("divine", CurrencyTier::Primary));
    let (c, tier) = display_currency_for("divine", &p, &s, &None, CurrencyTier::Tertiary);
    assert_eq!((c.id.as_str(), tier), ("chaos", CurrencyTier::Secondary));
}
