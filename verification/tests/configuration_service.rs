use poe2_overlord::domain::configuration::models::{AppConfig, ZoneRefreshInterval};
use poe2_overlord::domain::configuration::service::{
    prepare_config_update, prepare_zone_refresh_interval_update, validate_config,
};
use poe2_overlord::errors::ErrorKind;

#[test]
fn validation_reports_path_then_level() {
    let config = AppConfig::with_values("/p".to_string(), "INFO".to_string());
    let report = validate_config(&config, &Err("does not exist".to_string()));
    assert!(!report.is_valid);
    assert_eq!(
        report.errors,
        vec![
            "Invalid POE client log path: does not exist".to_string(),
            "Invalid log level 'INFO'. Must be one of: [\"trace\", \"debug\", \"info\", \"warn\", \"warning\", \"error\"]".to_string(),
        ]
    );
    let ok = validate_config(
        &AppConfig::with_values("/p".to_string(), "warn".to_string()),
        &Ok(()),
    );
    assert!(ok.is_valid);
    assert!(ok.errors.is_empty());
}

#[test]
fn update_lower_cases_the_level() {
    let config = AppConfig::with_values("/p".to_string(), "DeBuG".to_string());
    let stored = prepare_config_update(config, &Ok(())).unwrap();
    assert_eq!(stored.log_level, "debug");
    assert_eq!(stored.poe_client_log_path, "/p");
}

#[test]
fn update_refuses_unknown_level() {
    let config = AppConfig::with_values("/p".to_string(), "loud".to_string());
    let err = prepare_config_update(config, &Ok(())).unwrap_err();
    assert_eq!(err.error_kind(), ErrorKind::Validation);
    assert_eq!(
        err.to_string(),
        "Validation error: normalize_log_level: Invalid log level 'loud'. Valid levels are: trace, debug, info, warn, warning, error"
    );
}

#[test]
fn update_refuses_bad_path() {
    let config = AppConfig::with_values("/p".to_string(), "info".to_string());
    let err = prepare_config_update(config, &Err("not a file".to_string())).unwrap_err();
    assert_eq!(
        err.to_string(),
        "Validation error: validate_config: Configuration validation failed: Invalid POE client log path: not a file"
    );
}

#[test]
fn interval_change_keeps_the_rest() {
    let previous = AppConfig::with_values("/p".to_string(), "Error".to_string());
    let stored =
        prepare_zone_refresh_interval_update(&previous, ZoneRefreshInterval::OneHour, &Ok(()))
            .unwrap();
    assert_eq!(stored.zone_refresh_interval, ZoneRefreshInterval::OneHour);
    assert_eq!(stored.log_level, "error");
    assert_eq!(stored.poe_client_log_path, "/p");
}

#[test]
fn default_paths_per_system() {
    assert_eq!(
        AppConfig::get_default_poe_client_log_path("windows", None),
        "C:\\Program Files (x86)\\Grinding Gear Games\\Path of Exile 2\\logs\\Client.txt"
    );
    assert_eq!(
        AppConfig::get_default_poe_client_log_path("macos", None),
        "/Users/default/Library/Application Support/Path of Exile 2/logs/Client.txt"
    );
    assert_eq!(
        AppConfig::get_default_poe_client_log_path("linux", Some("/home/x")),
        "/home/x/.var/app/com.valvesoftware.Steam/.local/share/Steam/steamapps/common/Path of Exile 2/logs/Client.txt"
    );
    assert_eq!(AppConfig::get_default_poe_client_log_path("freebsd", None), "Client.txt");
}

#[test]
fn normalize_and_validity() {
    assert!(AppConfig::is_valid_log_level("WARNING"));
    assert!(!AppConfig::is_valid_log_level("verbose"));
    assert_eq!(AppConfig::normalize_log_level("Trace").unwrap(), "trace");
    assert!(AppConfig::normalize_log_level("verbose").is_err());
}

#[test]
fn interval_names_read_back() {
    for interval in ZoneRefreshInterval::all_options() {
        let name = format!("{:?}", interval);
        assert_eq!(ZoneRefreshInterval::from_str(&name), Some(interval));
    }
    let seconds: Vec<i64> = ZoneRefreshInterval::all_options().iter().map(|i| i.to_seconds()).collect();
    let mut sorted = seconds.clone();
    sorted.sort();
    assert_eq!(seconds, sorted);
}

#[test]
fn stored_interval_names_default_to_seven_days() {
    assert_eq!(ZoneRefreshInterval::from_stored("OneHour"), ZoneRefreshInterval::OneHour);
    assert_eq!(ZoneRefreshInterval::from_stored("1 Hour"), ZoneRefreshInterval::SevenDays);
}
