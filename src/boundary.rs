//! Lookups for callers on the far side of a language boundary, which hold only
//! integers and strings, never the `ErrorCode` type itself.

use vstd::prelude::*;
use crate::error_code::{
    code_of, description_of, name_of, unknown_description, unknown_name, valid_code, variant_of,
    ErrorCode, ERROR_CODE_COUNT,
};

verus! {

/// Returns the validation error code (0).
pub fn kreuzberg_error_code_validation() -> (r: u32)
    ensures
        r == code_of(ErrorCode::Validation),
{
    ErrorCode::Validation.as_integer()
}

/// Returns the parsing error code (1).
pub fn kreuzberg_error_code_parsing() -> (r: u32)
    ensures
        r == code_of(ErrorCode::Parsing),
{
    ErrorCode::Parsing.as_integer()
}

/// Returns the OCR error code (2).
pub fn kreuzberg_error_code_ocr() -> (r: u32)
    ensures
        r == code_of(ErrorCode::Ocr),
{
    ErrorCode::Ocr.as_integer()
}

/// Returns the missing dependency error code (3).
pub fn kreuzberg_error_code_missing_dependency() -> (r: u32)
    ensures
        r == code_of(ErrorCode::MissingDependency),
{
    ErrorCode::MissingDependency.as_integer()
}

/// Returns the I/O error code (4).
pub fn kreuzberg_error_code_io() -> (r: u32)
    ensures
        r == code_of(ErrorCode::Io),
{
    ErrorCode::Io.as_integer()
}

/// Returns the plugin error code (5).
pub fn kreuzberg_error_code_plugin() -> (r: u32)
    ensures
        r == code_of(ErrorCode::Plugin),
{
    ErrorCode::Plugin.as_integer()
}

/// Returns the unsupported format error code (6).
pub fn kreuzberg_error_code_unsupported_format() -> (r: u32)
    ensures
        r == code_of(ErrorCode::UnsupportedFormat),
{
    ErrorCode::UnsupportedFormat.as_integer()
}

/// Returns the internal error code (7).
pub fn kreuzberg_error_code_internal() -> (r: u32)
    ensures
        r == code_of(ErrorCode::Internal),
{
    ErrorCode::Internal.as_integer()
}

/// Returns the total number of defined error codes, so that callers can
/// check a range without writing the bound themselves.
pub fn kreuzberg_error_code_count() -> (r: u32)
    ensures
        r == ERROR_CODE_COUNT,
        r == 8,
{
    ERROR_CODE_COUNT
}

/// Returns the name of the category with the given code, or `"unknown"` when
/// the code is out of range. Never empty.
pub fn kreuzberg_error_code_name(code: u32) -> (r: &'static str)
    ensures
        valid_code(code) ==> r@ == name_of(variant_of(code)),
        !valid_code(code) ==> r@ == unknown_name(),
{
    match ErrorCode::from_code(code) {
        Some(err_code) => err_code.name(),
        None => "unknown",
    }
}

/// Returns the description of the category with the given code, or
/// `"Unknown error code"` when the code is out of range. Never empty.
pub fn kreuzberg_error_code_description(code: u32) -> (r: &'static str)
    ensures
        valid_code(code) ==> r@ == description_of(variant_of(code)),
        !valid_code(code) ==> r@ == unknown_description(),
{
    match ErrorCode::from_code(code) {
        Some(err_code) => err_code.description(),
        None => "Unknown error code",
    }
}

} // verus!
