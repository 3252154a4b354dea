use poe2_overlord::domain::economy::models::{
    is_within_ttl, CachedEconomyData, CurrencyInfo, CurrencyItem, CurrencyTier, EconomyType,
    LeagueEconomyCache,
};
use poe2_overlord::domain::economy::service::{
    display_currency_for, find_currency_item, resolve_core_currencies, EconomyService,
    RetryDecision, MAX_RETRY_ATTEMPTS,
};
use poe2_overlord::errors::{AppError, ErrorKind};
use poe2_overlord::time::Timestamp;

fn item(id: &str, name: &str) -> CurrencyItem {
    CurrencyItem {
        id: id.to_string(),
        name: name.to_string(),
        image: format!("/image/{id}.png"),
        category: "Currency".to_string(),
        details_id: format!("{id}-orb"),
    }
}

fn info(id: &str) -> CurrencyInfo {
    CurrencyInfo {
        id: id.to_string(),
        name: id.to_string(),
        image_url: String::new(),
    }
}

#[test]
fn economy_type_names_and_display() {
    assert_eq!(EconomyType::all().len(), 13);
    assert_eq!(EconomyType::UncutGems.as_str(), "UncutGems");
    assert_eq!(EconomyType::Breach.to_string(), "Breach");
    assert_eq!(
        EconomyType::parse("nope").unwrap_err(),
        "Unknown economy type: nope"
    );
}

#[test]
fn tiers_are_stored_by_name() {
    for t in [CurrencyTier::Primary, CurrencyTier::Secondary, CurrencyTier::Tertiary] {
        assert_eq!(CurrencyTier::from_stored(t.as_str()), t);
    }
    assert_eq!(CurrencyTier::from_stored("garbage"), CurrencyTier::Primary);
}

#[test]
fn currency_info_image_is_absolute() {
    let i = CurrencyInfo::from_item(&item("divine", "Divine Orb"));
    assert_eq!(i.image_url, "https://web.poecdn.com/image/divine.png");
    assert_eq!(i.name, "Divine Orb");
}

#[test]
fn freshness_counts_whole_seconds() {
    let now = Timestamp { secs: 1_700_000_600, nanos: 0 };
    // 2023-11-14T22:13:20Z is 1_700_000_000.
    assert!(is_within_ttl("2023-11-14T22:13:20Z", 601, now));
    assert!(!is_within_ttl("2023-11-14T22:13:20Z", 600, now));
    assert!(is_within_ttl("2023-11-14T23:13:20+01:00", 601, now));
    assert!(!is_within_ttl("not a date", u64::MAX, now));
    let later = Timestamp { secs: 1_700_000_000 - 5, nanos: 0 };
    assert!(is_within_ttl("2023-11-14T22:13:20Z", 0, later));
    let cached = CachedEconomyData {
        data: 7u8,
        cached_at: "2023-11-14T22:13:20Z".to_string(),
        ttl_seconds: 600,
    };
    assert!(cached.is_fresh_at(Timestamp { secs: 1_700_000_599, nanos: 999_999_999 }));
    assert!(!cached.is_fresh());
}

#[test]
fn league_cache_reads_back_what_was_written() {
    let mut cache: LeagueEconomyCache<u32> = LeagueEconomyCache::new("Standard".to_string(), false);
    assert!(cache.get_economy_type(EconomyType::Currency).is_none());
    cache.update_economy_type(EconomyType::Currency, 1, 600);
    cache.update_economy_type(EconomyType::Runes, 2, 60);
    cache.update_economy_type(EconomyType::Currency, 3, 30);
    assert_eq!(cache.economy_types.len(), 2);
    let c = cache.get_economy_type(EconomyType::Currency).unwrap();
    assert_eq!(c.data, 3);
    assert_eq!(c.ttl_seconds, 30);
    assert_eq!(cache.get_economy_type(EconomyType::Runes).unwrap().data, 2);
    assert!(cache.get_economy_type(EconomyType::Breach).is_none());
}

#[test]
fn retries_only_network_failures() {
    let network = AppError::network_error("poe.ninja_api", "API server error: 503");
    assert_eq!(
        EconomyService::after_failed_attempt(0, &network),
        RetryDecision::RetryAfter { next_attempt: 1, delay_ms: 500 }
    );
    assert_eq!(
        EconomyService::after_failed_attempt(1, &network),
        RetryDecision::RetryAfter { next_attempt: 2, delay_ms: 1500 }
    );
    assert_eq!(
        EconomyService::after_failed_attempt(MAX_RETRY_ATTEMPTS - 1, &network),
        RetryDecision::GiveUp
    );
    let client = AppError::validation_error("poe.ninja_api", "API client error: 404 Not Found");
    assert_eq!(EconomyService::after_failed_attempt(0, &client), RetryDecision::GiveUp);
}

#[test]
fn response_status_classification() {
    assert!(EconomyService::check_response_status(200, "200 OK").is_ok());
    let e = EconomyService::check_response_status(404, "404 Not Found").unwrap_err();
    assert_eq!(e.error_kind(), ErrorKind::Validation);
    assert_eq!(e.to_string(), "Validation error: poe.ninja_api: API client error: 404 Not Found");
    let e = EconomyService::check_response_status(503, "503 Service Unavailable").unwrap_err();
    assert_eq!(e.error_kind(), ErrorKind::Network);
    assert!(EconomyService::is_retryable_error(&e));
}

#[test]
fn conversion_errors() {
    let e = EconomyService::conversion_error("No currency data available for this economy type");
    assert_eq!(e.error_kind(), ErrorKind::Validation);
    let e = EconomyService::conversion_error("Missing exchange rate for secondary currency: chaos");
    assert_eq!(e.error_kind(), ErrorKind::Serialization);
    assert_eq!(
        e.to_string(),
        "Serialization error: process_currency_data: Missing exchange rate for secondary currency: chaos"
    );
}

#[test]
fn blank_league_is_refused() {
    assert!(EconomyService::validate_league("Standard").is_ok());
    assert_eq!(
        EconomyService::validate_league("  ").unwrap_err().to_string(),
        "Validation error: fetch_currency_exchange_data: League name cannot be empty"
    );
}

#[test]
fn stale_data_stands_in_for_a_failed_fetch() {
    let err = AppError::network_error("x", "down");
    assert_eq!(EconomyService::fallback_to_stale(err, Some(5)).unwrap(), 5);
    let err = AppError::network_error("x", "down");
    assert!(EconomyService::fallback_to_stale::<u8>(err, None).is_err());
}

#[test]
fn core_currencies_are_checked_in_order() {
    let core = vec![item("divine", "Divine Orb"), item("chaos", "Chaos Orb")];
    let (p, s) = resolve_core_currencies(&vec![], &core, "divine", "chaos").unwrap();
    assert_eq!(p.name, "Divine Orb");
    assert_eq!(s.image_url, "https://web.poecdn.com/image/chaos.png");
    assert_eq!(
        resolve_core_currencies(&vec![], &vec![], "divine", "chaos").unwrap_err(),
        "No currency data available for this economy type"
    );
    assert_eq!(
        resolve_core_currencies(&vec![], &core, "", "chaos").unwrap_err(),
        "API response missing primary currency"
    );
    assert_eq!(
        resolve_core_currencies(&vec![], &core, "divine", "").unwrap_err(),
        "API response missing secondary currency"
    );
    assert_eq!(
        resolve_core_currencies(&vec![], &core, "divine", "exalted").unwrap_err(),
        "No currency data available - 'exalted' currency not found"
    );
    assert_eq!(find_currency_item(&core, "chaos"), Some(1));
    assert_eq!(find_currency_item(&core, "mirror"), None);
}

#[test]
fn core_currencies_are_not_shown_in_themselves() {
    let p = info("divine");
    let s = info("chaos");
    let t = Some(info("exalted"));
    let (c, tier) = display_currency_for("divine", &p, &s, &t, CurrencyTier::Primary);
    assert_eq!((c.id.as_str(), tier), ("chaos", CurrencyTier::Secondary));
    let (c, tier) = display_currency_for("chaos", &p, &s, &t, CurrencyTier::Secondary);
    assert_eq!((c.id.as_str(), tier), ("divine", CurrencyTier::Primary));
    let (c, tier) = display_currency_for("exalted", &p, &s, &t, CurrencyTier::Tertiary);
    assert_eq!((c.id.as_str(), tier), ("chaos", CurrencyTier::Secondary));
    let (c, tier) = display_currency_for("annul", &p, &s, &t, CurrencyTier::Tertiary);
    assert_eq!((c.id.as_str(), tier), ("exalted", CurrencyTier::Tertiary));
    let (c, tier) = display_currency_for("annul", &p, &s, &None, CurrencyTier::Tertiary);
    assert_eq!((c.id.as_str(), tier), ("chaos", CurrencyTier::Tertiary));
}

#[test]
fn urls_encode_reserved_and_unicode_characters() {
    let url = EconomyService::build_poe_ninja_url("a&b/ü~", EconomyType::Currency);
    assert_eq!(
        url,
        "https://poe.ninja/poe2/api/economy/exchange/current/overview?league=a%26b%2F%C3%BC~&type=Currency"
    );
}

#[test]
fn cache_keys_separate_their_parts() {
    let a = EconomyService::cache_key("a:true", false, EconomyType::Idols);
    let b = EconomyService::cache_key("a", true, EconomyType::Idols);
    assert_ne!(a, b);
    assert_eq!(a, "a:true:false:Idols");
}
