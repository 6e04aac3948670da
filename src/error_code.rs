use vstd::prelude::*;

verus! {

/// The eight failure categories, in the order of their numeric codes.
#[derive(Debug, Clone, Copy, PartialEq, Eq, Hash, Structural)]
pub enum ErrorCode {
    /// Input validation error (invalid config, parameters, paths).
    Validation,
    /// Document parsing error (corrupt files, unsupported format features).
    Parsing,
    /// OCR processing error (backend failures, image quality issues).
    Ocr,
    /// Missing system dependency (a required tool is not installed).
    MissingDependency,
    /// File system I/O error (permissions, disk full, file not found).
    Io,
    /// Plugin registration or execution error.
    Plugin,
    /// Unsupported MIME type or file format.
    UnsupportedFormat,
    /// Internal library error (indicates a bug, should rarely occur).
    Internal,
}

/// Number of defined error codes.
pub const ERROR_CODE_COUNT: u32 = 8;

/// The stable numeric code of each category.
pub open spec fn code_of(e: ErrorCode) -> u32 {
    match e {
        ErrorCode::Validation => 0,
        ErrorCode::Parsing => 1,
        ErrorCode::Ocr => 2,
        ErrorCode::MissingDependency => 3,
        ErrorCode::Io => 4,
        ErrorCode::Plugin => 5,
        ErrorCode::UnsupportedFormat => 6,
        ErrorCode::Internal => 7,
    }
}

/// Whether a raw integer names one of the categories.
pub open spec fn valid_code(n: u32) -> bool {
    n < ERROR_CODE_COUNT
}

/// The category with code `n`; meaningful only when `valid_code(n)`.
pub open spec fn variant_of(n: u32) -> ErrorCode {
    if n == 0 {
        ErrorCode::Validation
    } else if n == 1 {
        ErrorCode::Parsing
    } else if n == 2 {
        ErrorCode::Ocr
    } else if n == 3 {
        ErrorCode::MissingDependency
    } else if n == 4 {
        ErrorCode::Io
    } else if n == 5 {
        ErrorCode::Plugin
    } else if n == 6 {
        ErrorCode::UnsupportedFormat
    } else {
        ErrorCode::Internal
    }
}

/// The lowercase identifier of each category.
pub open spec fn name_of(e: ErrorCode) -> Seq<char> {
    match e {
        ErrorCode::Validation => "validation"@,
        ErrorCode::Parsing => "parsing"@,
        ErrorCode::Ocr => "ocr"@,
        ErrorCode::MissingDependency => "missing_dependency"@,
        ErrorCode::Io => "io"@,
        ErrorCode::Plugin => "plugin"@,
        ErrorCode::UnsupportedFormat => "unsupported_format"@,
        ErrorCode::Internal => "internal"@,
    }
}

/// The human-readable description of each category.
pub open spec fn description_of(e: ErrorCode) -> Seq<char> {
    match e {
        ErrorCode::Validation => "Input validation error"@,
        ErrorCode::Parsing => "Document parsing error"@,
        ErrorCode::Ocr => "OCR processing error"@,
        ErrorCode::MissingDependency => "Missing system dependency"@,
        ErrorCode::Io => "File system I/O error"@,
        ErrorCode::Plugin => "Plugin error"@,
        ErrorCode::UnsupportedFormat => "Unsupported format"@,
        ErrorCode::Internal => "Internal library error"@,
    }
}

/// Name returned for a raw integer that is not a valid code.
pub open spec fn unknown_name() -> Seq<char> {
    "unknown"@
}

/// Description returned for a raw integer that is not a valid code.
pub open spec fn unknown_description() -> Seq<char> {
    "Unknown error code"@
}

impl ErrorCode {
    /// Returns the stable numeric code of this category.
    pub fn as_integer(self) -> (r: u32)
        ensures
            r == code_of(self),
    {
        match self {
            ErrorCode::Validation => 0,
            ErrorCode::Parsing => 1,
            ErrorCode::Ocr => 2,
            ErrorCode::MissingDependency => 3,
            ErrorCode::Io => 4,
            ErrorCode::Plugin => 5,
            ErrorCode::UnsupportedFormat => 6,
            ErrorCode::Internal => 7,
        }
    }

    /// Returns the lowercase identifier of this category (e.g. `"validation"`).
    pub fn name(self) -> (r: &'static str)
        ensures
            r@ == name_of(self),
    {
        match self {
            ErrorCode::Validation => "validation",
            ErrorCode::Parsing => "parsing",
            ErrorCode::Ocr => "ocr",
            ErrorCode::MissingDependency => "missing_dependency",
            ErrorCode::Io => "io",
            ErrorCode::Plugin => "plugin",
            ErrorCode::UnsupportedFormat => "unsupported_format",
            ErrorCode::Internal => "internal",
        }
    }

    /// Returns a brief description of this category for user-facing messages.
    pub fn description(self) -> (r: &'static str)
        ensures
            r@ == description_of(self),
    {
        match self {
            ErrorCode::Validation => "Input validation error",
            ErrorCode::Parsing => "Document parsing error",
            ErrorCode::Ocr => "OCR processing error",
            ErrorCode::MissingDependency => "Missing system dependency",
            ErrorCode::Io => "File system I/O error",
            ErrorCode::Plugin => "Plugin error",
            ErrorCode::UnsupportedFormat => "Unsupported format",
            ErrorCode::Internal => "Internal library error",
        }
    }

    /// Converts a numeric code to its category; `None` outside `0..=7`.
    pub fn from_code(code: u32) -> (r: Option<Self>)
        ensures
            r.is_some() <==> valid_code(code),
            valid_code(code) ==> r == Some(variant_of(code)),
            r matches Some(e) ==> code_of(e) == code,
    {
        match code {
            0 => Some(ErrorCode::Validation),
            1 => Some(ErrorCode::Parsing),
            2 => Some(ErrorCode::Ocr),
            3 => Some(ErrorCode::MissingDependency),
            4 => Some(ErrorCode::Io),
            5 => Some(ErrorCode::Plugin),
            6 => Some(ErrorCode::UnsupportedFormat),
            7 => Some(ErrorCode::Internal),
            _ => None,
        }
    }

    /// Checks whether a numeric code is within `0..=7`.
    pub fn is_valid(code: u32) -> (r: bool)
        ensures
            r == valid_code(code),
    {
        code <= 7
    }
}

} // verus!
