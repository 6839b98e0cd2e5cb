//! Status codes that plugins return from `process`.

use vstd::prelude::*;

verus! {

/// The input is not UTF-8.
pub const ERROR_INVALID_UTF8: i32 = -1;

/// The input is missing or empty.
pub const ERROR_INVALID_INPUT: i32 = -2;

/// The input or the output does not fit the plugin's buffer.
pub const ERROR_BUFFER_OVERFLOW: i32 = -3;

/// The plugin could not allocate memory.
pub const ERROR_MEMORY_ALLOCATION: i32 = -4;

/// The input holds characters that the plugin does not take.
pub const ERROR_PARSE_ERROR: i32 = -5;

/// The environment could not be parsed.
pub const ERROR_ENV_PARSING: i32 = -6;

/// Any other failure.
pub const ERROR_UNKNOWN: i32 = -99;

/// Success.
pub const SUCCESS: i32 = 0;

/// What an operation of a plugin gives: its value, or the status code of its
/// failure.
pub type PluginResult<T> = Result<T, i32>;

/// Whether `code` reports success.
pub open spec fn is_success(code: i32) -> bool {
    code == SUCCESS
}

/// Tells whether a plugin's status reports success; negative codes are the
/// plugin's own errors.
pub fn succeeded(code: i32) -> (ok: bool)
    ensures
        ok == is_success(code),
{
    code == SUCCESS
}

} // verus!
