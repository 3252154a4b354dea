//! The decisions of the configuration service: how a configuration is
//! checked, and what an update or a change of refresh interval stores or
//! refuses. Loading, storing and publishing are done by the caller.

use vstd::prelude::*;
use crate::domain::configuration::models::{
    AppConfig, ConfigurationValidationResult, ZoneRefreshInterval, string_texts,
    is_listed_level, is_listed_log_level, log_level_is_valid, invalid_level_text,
};
use crate::errors::{AppError, AppResult, ErrorKind, operation_message};
use crate::text::{join_texts, join_strings, unicode_lowercase};

verus! {

/// The listed log levels as they are shown in a validation report.
pub open spec fn listed_levels_text() -> Seq<char> {
    "[\"trace\", \"debug\", \"info\", \"warn\", \"warning\", \"error\"]"@
}

/// The report text for a log level that is not listed exactly.
pub open spec fn unlisted_level_text(level: Seq<char>) -> Seq<char> {
    "Invalid log level '"@ + level + "'. Must be one of: "@ + listed_levels_text()
}

/// The report text for a log path that the path check refused.
pub open spec fn bad_path_text(reason: Seq<char>) -> Seq<char> {
    "Invalid POE client log path: "@ + reason
}

/// The reason a path check gave, if it refused the path.
pub open spec fn path_refusal(path_check: Result<(), String>) -> Option<Seq<char>> {
    match path_check {
        Ok(_) => None,
        Err(reason) => Some(reason@),
    }
}

/// The errors a configuration is reported with: first the refused path, then
/// a log level that is not listed exactly (case matters).
pub open spec fn validation_errors(level: Seq<char>, path_refused: Option<Seq<char>>) -> Seq<Seq<char>> {
    let path_errors = match path_refused {
        Some(reason) => seq![bad_path_text(reason)],
        None => Seq::empty(),
    };
    if is_listed_level(level) {
        path_errors
    } else {
        path_errors.push(unlisted_level_text(level))
    }
}

/// The message an update is refused with when the configuration has errors.
pub open spec fn update_failure_text(errors: Seq<Seq<char>>) -> Seq<char> {
    "Configuration validation failed: "@ + join_texts(errors, ", "@)
}

/// What an update of the configuration to `config` gives, the path check
/// of its log path having given `path_refused`: the configuration with its
/// log level in lower case, or the error it is refused with.
pub open spec fn update_outcome_ok(config: AppConfig, path_refused: Option<Seq<char>>, res: AppResult<AppConfig>) -> bool {
    let level = config.log_level@;
    if !log_level_is_valid(level) {
        res matches Err(e) && e.kind() == ErrorKind::Validation && e.message()
            == operation_message("normalize_log_level"@, invalid_level_text(level))
    } else {
        let errors = validation_errors(unicode_lowercase(level), path_refused);
        if errors.len() == 0 {
            res matches Ok(c) && c.poe_client_log_path == config.poe_client_log_path
                && c.log_level@ == unicode_lowercase(level) && c.zone_refresh_interval
                == config.zone_refresh_interval
        } else {
            res matches Err(e) && e.kind() == ErrorKind::Validation && e.message()
                == operation_message("validate_config"@, update_failure_text(errors))
        }
    }
}

/// Checks a configuration: the log path (whose check `path_check` is the
/// outcome of) and the log level, which must be listed exactly.
pub fn validate_config(config: &AppConfig, path_check: &Result<(), String>) -> (res: ConfigurationValidationResult)
    ensures
        string_texts(res.errors@) == validation_errors(config.log_level@, path_refusal(*path_check)),
        res.is_valid == (res.errors@.len() == 0),
{
    let mut errors: Vec<String> = Vec::new();
    match path_check {
        Ok(_) => {},
        Err(reason) => {
            errors.push(String::from_str("Invalid POE client log path: ").concat(reason.as_str()));
        },
    }
    if !is_listed_log_level(config.log_level.as_str()) {
        let text = String::from_str("Invalid log level '").concat(config.log_level.as_str()).concat(
            "'. Must be one of: ",
        ).concat("[\"trace\", \"debug\", \"info\", \"warn\", \"warning\", \"error\"]");
        errors.push(text);
    }
    assert(string_texts(errors@) =~= validation_errors(config.log_level@, path_refusal(*path_check)));
    let is_valid = errors.len() == 0;
    ConfigurationValidationResult { is_valid, errors }
}

/// Normalises and checks a configuration that is to replace the current one.
fn checked_update(config: AppConfig, path_check: &Result<(), String>) -> (res: AppResult<AppConfig>)
    ensures
        update_outcome_ok(config, path_refusal(*path_check), res),
{
    let normalized = AppConfig::normalize_log_level(config.log_level.as_str());
    match normalized {
        Err(e) => Err(AppError::validation_error("normalize_log_level", e.as_str())),
        Ok(level) => {
            let candidate = AppConfig {
                poe_client_log_path: config.poe_client_log_path,
                log_level: level,
                zone_refresh_interval: config.zone_refresh_interval,
            };
            let report = validate_config(&candidate, path_check);
            if !report.is_valid {
                let joined = join_strings(&report.errors, ", ");
                let message = String::from_str("Configuration validation failed: ").concat(
                    joined.as_str(),
                );
                Err(AppError::validation_error("validate_config", message.as_str()))
            } else {
                Ok(candidate)
            }
        },
    }
}

/// What updating the configuration to `new_config` stores: the configuration
/// with its log level in lower case, or the validation error the update is
/// refused with. `path_check` is the outcome of checking its log path.
pub fn prepare_config_update(new_config: AppConfig, path_check: &Result<(), String>) -> (res: AppResult<AppConfig>)
    ensures
        update_outcome_ok(new_config, path_refusal(*path_check), res),
{
    checked_update(new_config, path_check)
}

/// What changing the zone refresh interval of `previous` to `interval`
/// stores: `previous` with that interval and its log level in lower case, or
/// the validation error the change is refused with.
pub fn prepare_zone_refresh_interval_update(
    previous: &AppConfig,
    interval: ZoneRefreshInterval,
    path_check: &Result<(), String>,
) -> (res: AppResult<AppConfig>)
    ensures
        update_outcome_ok(
            AppConfig {
                poe_client_log_path: previous.poe_client_log_path,
                log_level: previous.log_level,
                zone_refresh_interval: interval,
            },
            path_refusal(*path_check),
            res,
        ),
{
    let mut candidate = previous.clone();
    candidate.zone_refresh_interval = interval;
    checked_update(candidate, path_check)
}

/// A log level accepted as valid, once lower-cased, is listed exactly: the
/// level never stops an update whose level normalised.
pub proof fn lemma_normalized_level_is_listed(level: Seq<char>)
    requires
        log_level_is_valid(level),
    ensures
        is_listed_level(unicode_lowercase(level)),
        validation_errors(unicode_lowercase(level), None) == Seq::<Seq<char>>::empty(),
{
}

} // verus!
