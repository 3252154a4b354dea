//! What commands hand back to the user interface: results with the error
//! as text, and the checks commands make of their parameters.

use vstd::prelude::*;
use crate::errors::{AppError, AppResult, ErrorKind, error_text, operation_message};
use crate::text::{decimal_text, is_blank, is_blank_str, u64_to_decimal};
use crate::time::{Timestamp, now};

verus! {

/// The result of a command: the value, or the error as text.
pub type CommandResult<T> = Result<T, String>;

/// A command result from an application result: an error becomes its text.
pub fn to_command_result<T>(result: AppResult<T>) -> (res: CommandResult<T>)
    ensures
        result matches Ok(v) ==> res == Ok::<T, String>(v),
        result matches Err(e) ==> (res matches Err(m) && m@ == error_text(e)),
{
    match result {
        Ok(v) => Ok(v),
        Err(e) => Err(e.to_string()),
    }
}

/// A failed command result: "`context`: `error`" (`error` being the error's
/// text).
pub fn error_to_command_result<T>(error: &str, context: &str) -> (res: CommandResult<T>)
    ensures
        res matches Err(m) && m@ == context@ + ": "@ + error@,
{
    Err(String::from_str(context).concat(": ").concat(error))
}

/// A command's answer with data, a message and when it was made.
#[derive(Debug, Clone)]
pub struct CommandResponse<T> {
    pub success: bool,
    pub data: Option<T>,
    pub message: String,
    pub timestamp: Timestamp,
}

impl<T> CommandResponse<T> {
    /// A successful answer carrying `data`, made now.
    pub fn success(data: T, message: &str) -> (res: CommandResponse<T>)
        ensures
            res.success,
            res.data == Some(data),
            res.message@ == message@,
    {
        CommandResponse {
            success: true,
            data: Some(data),
            message: String::from_str(message),
            timestamp: now(),
        }
    }

    /// A failed command result with `message`.
    pub fn error(message: &str) -> (res: CommandResult<T>)
        ensures
            res matches Err(m) && m@ == message@,
    {
        Err(String::from_str(message))
    }

    /// A successful command result without data.
    pub fn success_no_data() -> (res: CommandResult<()>)
        ensures
            res is Ok,
    {
        Ok(())
    }
}

/// A text parameter must not be blank.
pub fn validate_string_param(param: &str, param_name: &str) -> (res: CommandResult<()>)
    ensures
        res is Ok <==> !is_blank(param@),
        res matches Err(m) ==> m@ == param_name@ + " cannot be empty"@,
{
    if is_blank_str(param) {
        return Err(String::from_str(param_name).concat(" cannot be empty"));
    }
    Ok(())
}

/// The decimal text of an integer, with a minus sign when negative.
pub open spec fn signed_decimal_text(v: int) -> Seq<char> {
    if v < 0 {
        "-"@ + decimal_text((-v) as nat)
    } else {
        decimal_text(v as nat)
    }
}

/// The decimal text of a signed number.
fn i64_to_decimal(v: i64) -> (res: String)
    ensures
        res@ == signed_decimal_text(v as int),
{
    if v < 0 {
        let magnitude: u64 = (-(v as i128)) as u64;
        String::from_str("-").concat(u64_to_decimal(magnitude).as_str())
    } else {
        u64_to_decimal(v as u64)
    }
}

/// A number parameter must be positive.
pub fn validate_positive_number(value: i64, param_name: &str) -> (res: CommandResult<()>)
    ensures
        res is Ok <==> value > 0,
        res matches Err(m) ==> m@ == param_name@ + " must be positive, got "@ + signed_decimal_text(
            value as int,
        ),
{
    if value <= 0 {
        return Err(
            String::from_str(param_name).concat(" must be positive, got ").concat(
                i64_to_decimal(value).as_str(),
            ),
        );
    }
    Ok(())
}

/// An internal error of `operation`, carrying the text of what went wrong.
pub fn to_app_error(error: &str, operation: &str) -> (res: AppError)
    ensures
        res.kind() == ErrorKind::Internal,
        res.message() == operation_message(operation@, error@),
{
    AppError::internal_error(operation, error)
}

/// An internal error of `operation`, carrying the text of what went wrong;
/// the failure is meant to be logged by the caller.
pub fn log_and_convert_error(error: &str, operation: &str) -> (res: AppError)
    ensures
        res.kind() == ErrorKind::Internal,
        res.message() == operation_message(operation@, error@),
{
    AppError::internal_error(operation, error)
}

/// A failed command result: "`operation` failed: `error`".
pub fn handle_command_error(error: &str, operation: &str) -> (res: CommandResult<()>)
    ensures
        res matches Err(m) && m@ == operation@ + " failed: "@ + error@,
{
    Err(String::from_str(operation).concat(" failed: ").concat(error))
}

/// A command result from an outcome whose error is text: a failure
/// becomes "`operation` failed: `error`".
pub fn handle_async_command_error(result: Result<(), String>, operation: &str) -> (res: CommandResult<()>)
    ensures
        result is Ok ==> res is Ok,
        result matches Err(e) ==> (res matches Err(m) && m@ == operation@ + " failed: "@ + e@),
{
    match result {
        Ok(()) => Ok(()),
        Err(e) => Err(String::from_str(operation).concat(" failed: ").concat(e.as_str())),
    }
}

} // verus!
