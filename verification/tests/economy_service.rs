use poe2_overlord::domain::economy::models::EconomyType;
use poe2_overlord::domain::economy::service::EconomyService;
use poe2_overlord::errors::AppError;
use std::time::Duration;

// ============= Helper Function Tests =============

#[test]
fn test_build_poe_ninja_url_basic() {
    let url = EconomyService::build_poe_ninja_url("Standard", EconomyType::Currency);
    assert_eq!(
        url,
        "https://poe.ninja/poe2/api/economy/exchange/current/overview?league=Standard&type=Currency"
    );
}

#[test]
fn test_build_poe_ninja_url_with_spaces() {
    // League names with spaces should be URL-encoded
    let url =
        EconomyService::build_poe_ninja_url("Rise of the Abyssal", EconomyType::Fragments);
    assert!(url.contains("Rise%20of%20the%20Abyssal"));
    assert!(url.contains("type=Fragments"));
}

#[test]
fn test_build_poe_ninja_url_different_economy_types() {
    let economy_types = [
        (EconomyType::Currency, "Currency"),
        (EconomyType::Fragments, "Fragments"),
        (EconomyType::Essences, "Essences"),
        (EconomyType::Runes, "Runes"),
        (EconomyType::Ritual, "Ritual"),
    ];

    for (economy_type, expected_type_str) in economy_types {
        let url = EconomyService::build_poe_ninja_url("TestLeague", economy_type);
        assert!(
            url.contains(&format!("type={expected_type_str}")),
            "URL should contain type={expected_type_str} for {economy_type:?}"
        );
    }
}

#[test]
fn test_calculate_retry_delay_first_attempt() {
    // First attempt (attempt 0) should have no delay
    let delay = Duration::from_millis(EconomyService::calculate_retry_delay(0));
    assert_eq!(delay, Duration::from_millis(0));
}

#[test]
fn test_calculate_retry_delay_second_attempt() {
    // Second attempt (attempt 1) should have initial delay (500ms)
    let delay = Duration::from_millis(EconomyService::calculate_retry_delay(1));
    assert_eq!(delay, Duration::from_millis(500));
}

#[test]
fn test_calculate_retry_delay_third_attempt() {
    // Third attempt (attempt 2) should have 500 * 3 = 1500ms
    let delay = Duration::from_millis(EconomyService::calculate_retry_delay(2));
    assert_eq!(delay, Duration::from_millis(1500));
}

#[test]
fn test_calculate_retry_delay_fourth_attempt() {
    // Fourth attempt (attempt 3) should have 500 * 9 = 4500ms
    let delay = Duration::from_millis(EconomyService::calculate_retry_delay(3));
    assert_eq!(delay, Duration::from_millis(4500));
}

#[test]
fn test_is_retryable_error_network() {
    let error = AppError::Network {
        message: "Connection refused".to_string(),
    };
    assert!(EconomyService::is_retryable_error(&error));
}

#[test]
fn test_is_retryable_error_validation() {
    // Validation errors (4xx) should NOT be retryable
    let error = AppError::Validation {
        message: "Bad request".to_string(),
    };
    assert!(!EconomyService::is_retryable_error(&error));
}

#[test]
fn test_is_retryable_error_serialization() {
    // Serialization errors should NOT be retryable
    let error = AppError::Serialization {
        message: "Failed to parse JSON".to_string(),
    };
    assert!(!EconomyService::is_retryable_error(&error));
}

#[test]
fn test_is_retryable_error_internal() {
    // Internal errors should NOT be retryable
    let error = AppError::internal_error("test_function", "Something went wrong");
    assert!(!EconomyService::is_retryable_error(&error));
}

#[test]
fn test_cache_key_format() {
    // Test that cache_key generates unique keys for different combinations
    let key1 = EconomyService::cache_key("Standard", false, EconomyType::Currency);
    let key2 = EconomyService::cache_key("Standard", true, EconomyType::Currency);
    let key3 = EconomyService::cache_key("Standard", false, EconomyType::Fragments);
    let key4 = EconomyService::cache_key("Hardcore", false, EconomyType::Currency);

    // All keys should be different
    assert_ne!(key1, key2, "Hardcore flag should affect key");
    assert_ne!(key1, key3, "Economy type should affect key");
    assert_ne!(key1, key4, "League should affect key");
    assert_ne!(key2, key3);
    assert_ne!(key2, key4);
    assert_ne!(key3, key4);

    // Key format should be "{league}:{is_hardcore}:{economy_type}"
    assert_eq!(key1, "Standard:false:Currency");
    assert_eq!(key2, "Standard:true:Currency");
}

#[test]
fn test_league_name_construction_normal() {
    // Normal leagues should remain unchanged
    assert_eq!(
        EconomyService::format_league_for_api("Rise of the Abyssal", false),
        "Rise of the Abyssal"
    );
}

#[test]
fn test_league_name_construction_hardcore() {
    // Non-standard hardcore leagues should have "HC " prefix
    assert_eq!(
        EconomyService::format_league_for_api("Rise of the Abyssal", true),
        "HC Rise of the Abyssal"
    );
}

#[test]
fn test_league_name_construction_standard_hardcore() {
    // Standard + hardcore should be "Hardcore" not "HC Standard"
    assert_eq!(
        EconomyService::format_league_for_api("Standard", true),
        "Hardcore"
    );
}

#[test]
fn test_league_name_construction_standard_case_insensitive() {
    // Should handle "STANDARD", "standard", "Standard" all the same
    for standard_variant in &["Standard", "STANDARD", "standard", "StAnDaRd"] {
        assert_eq!(
            EconomyService::format_league_for_api(standard_variant, true),
            "Hardcore",
            "Failed for variant: {standard_variant}"
        );
    }
}

#[test]
fn test_league_name_construction_the_prefix_stripped() {
    // "The " prefix should be stripped before passing to poe.ninja
    assert_eq!(
        EconomyService::format_league_for_api("The Fate of the Vaal", false),
        "Fate of the Vaal"
    );
    assert_eq!(
        EconomyService::format_league_for_api("The Fate of the Vaal", true),
        "HC Fate of the Vaal"
    );
}
