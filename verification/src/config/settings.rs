//! The normalizations the settings writers apply before a value is
//! persisted: defensive clamps, length limits and the values that clear a
//! setting.

use vstd::prelude::*;
use vstd::utf8::encode_utf8;

verus! {

/// The longest model name (in UTF-8 bytes) a settings writer accepts.
pub const MAX_DEFAULT_MODEL_LEN: usize = 256;

/// The bounds of `[ui].max_thoughts_width`.
pub const MAX_THOUGHTS_WIDTH_MIN: i64 = 40;

/// The upper bound of `[ui].max_thoughts_width`.
pub const MAX_THOUGHTS_WIDTH_MAX: i64 = 500;

/// `value` clamped to `[lo, hi]`.
pub open spec fn clamp_view(value: int, lo: int, hi: int) -> int {
    if value < lo {
        lo
    } else if value > hi {
        hi
    } else {
        value
    }
}

fn clamp(value: i64, lo: i64, hi: i64) -> (r: i64)
    requires
        lo <= hi,
    ensures
        r == clamp_view(value as int, lo as int, hi as int),
{
    if value < lo {
        lo
    } else if value > hi {
        hi
    } else {
        value
    }
}

/// `[ui].max_thoughts_width`: clamped to `[40, 500]`.
pub fn max_thoughts_width_value(value: i64) -> (r: u16)
    ensures
        r as int == clamp_view(value as int, 40, 500),
{
    clamp(value, MAX_THOUGHTS_WIDTH_MIN, MAX_THOUGHTS_WIDTH_MAX) as u16
}

/// `[ui].scroll_speed`: clamped to `[1, 100]`.
pub fn scroll_speed_value(value: i64) -> (r: u8)
    ensures
        r as int == clamp_view(value as int, 1, 100),
{
    clamp(value, 1, 100) as u8
}

/// `[ui].scroll_lines`: clamped to `[1, 10]`.
pub fn scroll_lines_value(value: i64) -> (r: u8)
    ensures
        r as int == clamp_view(value as int, 1, 10),
{
    clamp(value, 1, 10) as u8
}

/// Why a setting was refused.
#[derive(Debug, Clone, Copy, PartialEq, Eq)]
pub enum SettingsError {
    /// The model name is longer than [`MAX_DEFAULT_MODEL_LEN`] bytes; holds
    /// its length in bytes.
    ModelNameTooLong(usize),
}

/// The length of a name in bytes of UTF-8.
pub open spec fn byte_len(name: Seq<char>) -> usize {
    encode_utf8(name).len() as usize
}

/// A model name longer than [`MAX_DEFAULT_MODEL_LEN`] bytes of UTF-8.
pub open spec fn model_name_too_long(name: Seq<char>) -> bool {
    byte_len(name) > MAX_DEFAULT_MODEL_LEN
}

fn check_model_name_len(name: &str) -> (r: Result<(), SettingsError>)
    ensures
        r is Err <==> model_name_too_long(name@),
        r is Err ==> r == Err::<(), SettingsError>(SettingsError::ModelNameTooLong(byte_len(name@))),
{
    let n = name.len();
    if n > MAX_DEFAULT_MODEL_LEN {
        Err(SettingsError::ModelNameTooLong(n))
    } else {
        Ok(())
    }
}

/// `[models].default`: a name over 256 bytes is refused; the empty string
/// clears the setting (the remote or built-in default applies).
pub fn default_model_value(value: String) -> (r: Result<Option<String>, SettingsError>)
    ensures
        model_name_too_long(value@) ==> r == Err::<Option<String>, SettingsError>(
            SettingsError::ModelNameTooLong(byte_len(value@)),
        ),
        !model_name_too_long(value@) && value@.len() == 0 ==> r == Ok::<
            Option<String>,
            SettingsError,
        >(None),
        !model_name_too_long(value@) && value@.len() > 0 ==> r == Ok::<
            Option<String>,
            SettingsError,
        >(Some(value)),
{
    check_model_name_len(value.as_str())?;
    if value.as_str().is_empty() {
        Ok(None)
    } else {
        Ok(Some(value))
    }
}

/// `[ui].fork_secondary_model`: a name over 256 bytes is refused; the empty
/// string restores `built_in_default`.
pub fn fork_secondary_model_value(value: String, built_in_default: String) -> (r: Result<
    String,
    SettingsError,
>)
    ensures
        model_name_too_long(value@) ==> r == Err::<String, SettingsError>(
            SettingsError::ModelNameTooLong(byte_len(value@)),
        ),
        !model_name_too_long(value@) && value@.len() == 0 ==> r == Ok::<String, SettingsError>(
            built_in_default,
        ),
        !model_name_too_long(value@) && value@.len() > 0 ==> r == Ok::<String, SettingsError>(
            value,
        ),
{
    check_model_name_len(value.as_str())?;
    if value.as_str().is_empty() {
        Ok(built_in_default)
    } else {
        Ok(value)
    }
}

/// `[ui].cancel_subagents_on_turn_cancel`: `ask` (prompt each time) is the
/// default and clears the setting; any other value is stored.
pub fn cancel_subagents_value(value: String) -> (r: Option<String>)
    ensures
        value@ == "ask"@ ==> r is None,
        value@ != "ask"@ ==> r == Some(value),
{
    if crate::text::str_equal(value.as_str(), "ask") {
        None
    } else {
        Some(value)
    }
}

} // verus!
