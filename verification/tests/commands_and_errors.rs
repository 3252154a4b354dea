use poe2_overlord::commands::{
    error_to_command_result, handle_async_command_error, handle_command_error,
    log_and_convert_error, to_app_error, to_command_result, validate_positive_number,
    validate_string_param, CommandResponse,
};
use poe2_overlord::errors::{AppError, ErrorKind};

#[test]
fn command_results_carry_error_text() {
    let ok: Result<u8, AppError> = Ok(3);
    assert_eq!(to_command_result(ok), Ok(3));
    let err: Result<u8, AppError> = Err(AppError::time_tracking_error("start", "no character"));
    assert_eq!(to_command_result(err), Err("Time tracking error: start: no character".to_string()));
    assert_eq!(
        error_to_command_result::<()>("boom", "loading"),
        Err("loading: boom".to_string())
    );
}

#[test]
fn responses() {
    let r = CommandResponse::success(5u8, "done");
    assert!(r.success);
    assert_eq!(r.data, Some(5));
    assert_eq!(r.message, "done");
    assert_eq!(CommandResponse::<u8>::error("bad"), Err("bad".to_string()));
    assert_eq!(CommandResponse::<u8>::success_no_data(), Ok(()));
}

#[test]
fn parameter_checks() {
    assert!(validate_string_param("x", "name").is_ok());
    assert_eq!(validate_string_param(" \t", "name"), Err("name cannot be empty".to_string()));
    assert!(validate_positive_number(1, "level").is_ok());
    assert_eq!(
        validate_positive_number(0, "level"),
        Err("level must be positive, got 0".to_string())
    );
    assert_eq!(
        validate_positive_number(-12, "level"),
        Err("level must be positive, got -12".to_string())
    );
    assert_eq!(
        validate_positive_number(i64::MIN, "n"),
        Err("n must be positive, got -9223372036854775808".to_string())
    );
}

#[test]
fn error_helpers() {
    let e = to_app_error("disk full", "save");
    assert_eq!(e.error_kind(), ErrorKind::Internal);
    assert_eq!(e.to_string(), "Internal error: save: disk full");
    assert_eq!(log_and_convert_error("x", "y").to_string(), "Internal error: y: x");
    assert_eq!(handle_command_error("x", "y"), Err("y failed: x".to_string()));
    assert_eq!(
        handle_async_command_error(Err("x".to_string()), "y"),
        Err("y failed: x".to_string())
    );
    assert_eq!(handle_async_command_error(Ok(()), "y"), Ok(()));
}

#[test]
fn error_kinds_and_texts() {
    let cases = [
        (AppError::network_error("a", "b"), ErrorKind::Network, "Network error: a: b"),
        (AppError::validation_error("a", "b"), ErrorKind::Validation, "Validation error: a: b"),
        (AppError::serialization_error("a", "b"), ErrorKind::Serialization, "Serialization error: a: b"),
        (AppError::internal_error("a", "b"), ErrorKind::Internal, "Internal error: a: b"),
        (AppError::event_emission_error("a", "b"), ErrorKind::EventEmission, "Event emission error: a: b"),
        (AppError::time_tracking_error("a", "b"), ErrorKind::TimeTracking, "Time tracking error: a: b"),
    ];
    for (e, kind, text) in cases {
        assert_eq!(e.error_kind(), kind);
        assert_eq!(e.to_string(), text);
    }
}
