//! Stable error-code taxonomy shared by every language binding.
//!
//! Eight categories, each bound for all time to an integer in `0..=7`, with a
//! lowercase name and a short description, and lookups by raw integer that fall
//! back to fixed strings for codes outside that range.

mod boundary;
mod error_code;
mod laws;

pub use boundary::{
    kreuzberg_error_code_count, kreuzberg_error_code_description, kreuzberg_error_code_internal,
    kreuzberg_error_code_io, kreuzberg_error_code_missing_dependency, kreuzberg_error_code_name,
    kreuzberg_error_code_ocr, kreuzberg_error_code_parsing, kreuzberg_error_code_plugin,
    kreuzberg_error_code_unsupported_format, kreuzberg_error_code_validation,
};
pub use laws::{
    lemma_code_round_trip, lemma_count_matches_valid, lemma_fallbacks_nonempty,
    lemma_names_nonempty_and_distinct, lemma_out_of_range_invalid, lemma_variant_round_trip,
};
pub use error_code::{
    code_of, description_of, name_of, unknown_description, unknown_name, valid_code, variant_of,
    ErrorCode, ERROR_CODE_COUNT,
};
