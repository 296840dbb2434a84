//! Status codes of the decoding engine and the bridge's structured error
//! taxonomy, with the translation between the two and the composition of
//! human-readable messages.

use vstd::prelude::*;

verus! {

/// A status code as the decoding engine reports it at its boundary.
/// The engine transmits these as small integers; `status_from_u32` recovers
/// the variant from the wire value.
#[derive(Clone, Copy, Debug, PartialEq, Eq, Structural)]
pub enum SasArrowErrorCode {
    SasArrowOk,
    SasArrowErrorFileNotFound,
    SasArrowErrorInvalidFile,
    SasArrowErrorOutOfMemory,
    SasArrowErrorArrowError,
    SasArrowErrorEndOfData,
    SasArrowErrorInvalidBatchIndex,
    SasArrowErrorNullPointer,
}

/// The bridge's closed error taxonomy.  `EndOfData` is the designated
/// terminal signal for stream exhaustion, not a failure; every other code is
/// fatal for the operation that produced it.
#[derive(Clone, Copy, Debug, PartialEq, Eq, Structural)]
pub enum ErrorCode {
    FileNotFound,
    InvalidFile,
    OutOfMemory,
    InternalEngineError,
    EndOfData,
    InvalidBatchIndex,
    NullPointer,
    UnsupportedType,
}

/// The engine's wire value for each status code.
pub open spec fn spec_status_from_u32(x: u32) -> SasArrowErrorCode {
    if x == 0 {
        SasArrowErrorCode::SasArrowOk
    } else if x == 1 {
        SasArrowErrorCode::SasArrowErrorFileNotFound
    } else if x == 2 {
        SasArrowErrorCode::SasArrowErrorInvalidFile
    } else if x == 3 {
        SasArrowErrorCode::SasArrowErrorOutOfMemory
    } else if x == 4 {
        SasArrowErrorCode::SasArrowErrorArrowError
    } else if x == 5 {
        SasArrowErrorCode::SasArrowErrorEndOfData
    } else if x == 6 {
        SasArrowErrorCode::SasArrowErrorInvalidBatchIndex
    } else if x == 7 {
        SasArrowErrorCode::SasArrowErrorNullPointer
    } else {
        // A value outside the engine's closed enumeration is treated as an
        // internal engine fault rather than silently coerced to success.
        SasArrowErrorCode::SasArrowErrorArrowError
    }
}

/// Recover a status code from the engine's wire value.
pub fn status_from_u32(x: u32) -> (c: SasArrowErrorCode)
    ensures
        c == spec_status_from_u32(x),
{
    match x {
        0 => SasArrowErrorCode::SasArrowOk,
        1 => SasArrowErrorCode::SasArrowErrorFileNotFound,
        2 => SasArrowErrorCode::SasArrowErrorInvalidFile,
        3 => SasArrowErrorCode::SasArrowErrorOutOfMemory,
        4 => SasArrowErrorCode::SasArrowErrorArrowError,
        5 => SasArrowErrorCode::SasArrowErrorEndOfData,
        6 => SasArrowErrorCode::SasArrowErrorInvalidBatchIndex,
        7 => SasArrowErrorCode::SasArrowErrorNullPointer,
        _ => SasArrowErrorCode::SasArrowErrorArrowError,
    }
}

/// The taxonomy entry for each non-OK engine status; `None` for success.
pub open spec fn spec_translate_status(c: SasArrowErrorCode) -> Option<ErrorCode> {
    match c {
        SasArrowErrorCode::SasArrowOk => None,
        SasArrowErrorCode::SasArrowErrorFileNotFound => Some(ErrorCode::FileNotFound),
        SasArrowErrorCode::SasArrowErrorInvalidFile => Some(ErrorCode::InvalidFile),
        SasArrowErrorCode::SasArrowErrorOutOfMemory => Some(ErrorCode::OutOfMemory),
        SasArrowErrorCode::SasArrowErrorArrowError => Some(ErrorCode::InternalEngineError),
        SasArrowErrorCode::SasArrowErrorEndOfData => Some(ErrorCode::EndOfData),
        SasArrowErrorCode::SasArrowErrorInvalidBatchIndex => Some(ErrorCode::InvalidBatchIndex),
        SasArrowErrorCode::SasArrowErrorNullPointer => Some(ErrorCode::NullPointer),
    }
}

/// Translate an engine status code into the bridge taxonomy.  Returns `None`
/// exactly for the success status.
pub fn translate_status(c: SasArrowErrorCode) -> (r: Option<ErrorCode>)
    ensures
        r == spec_translate_status(c),
{
    match c {
        SasArrowErrorCode::SasArrowOk => None,
        SasArrowErrorCode::SasArrowErrorFileNotFound => Some(ErrorCode::FileNotFound),
        SasArrowErrorCode::SasArrowErrorInvalidFile => Some(ErrorCode::InvalidFile),
        SasArrowErrorCode::SasArrowErrorOutOfMemory => Some(ErrorCode::OutOfMemory),
        SasArrowErrorCode::SasArrowErrorArrowError => Some(ErrorCode::InternalEngineError),
        SasArrowErrorCode::SasArrowErrorEndOfData => Some(ErrorCode::EndOfData),
        SasArrowErrorCode::SasArrowErrorInvalidBatchIndex => Some(ErrorCode::InvalidBatchIndex),
        SasArrowErrorCode::SasArrowErrorNullPointer => Some(ErrorCode::NullPointer),
    }
}

/// The statically known message for each taxonomy entry.
pub open spec fn spec_static_message(c: ErrorCode) -> Seq<char> {
    match c {
        ErrorCode::FileNotFound => "File not found"@,
        ErrorCode::InvalidFile => "Invalid SAS file"@,
        ErrorCode::OutOfMemory => "Out of memory"@,
        ErrorCode::InternalEngineError => "Internal engine error"@,
        ErrorCode::EndOfData => "End of data reached"@,
        ErrorCode::InvalidBatchIndex => "Batch index out of range"@,
        ErrorCode::NullPointer => "Null pointer"@,
        ErrorCode::UnsupportedType => "Unsupported data type"@,
    }
}

/// The statically known message for a taxonomy entry.
pub fn static_message(c: ErrorCode) -> (s: &'static str)
    ensures
        s@ == spec_static_message(c),
{
    match c {
        ErrorCode::FileNotFound => "File not found",
        ErrorCode::InvalidFile => "Invalid SAS file",
        ErrorCode::OutOfMemory => "Out of memory",
        ErrorCode::InternalEngineError => "Internal engine error",
        ErrorCode::EndOfData => "End of data reached",
        ErrorCode::InvalidBatchIndex => "Batch index out of range",
        ErrorCode::NullPointer => "Null pointer",
        ErrorCode::UnsupportedType => "Unsupported data type",
    }
}

/// A message composed from the statically known text for a code and any
/// dynamically captured detail: the detail is appended after a separator so
/// that no diagnostic information is dropped, and an empty detail adds
/// nothing.
pub open spec fn spec_compose_message(base: Seq<char>, detail: Seq<char>) -> Seq<char> {
    if detail.len() == 0 {
        base
    } else {
        base + ": "@ + detail
    }
}

/// Relies on `String::push_str`: appends the given string slice onto the end
/// of this `String`.
#[verifier::external_body]
fn append_str(dst: &mut String, s: &str)
    ensures
        final(dst)@ == old(dst)@ + s@,
{
    dst.push_str(s)
}

/// Compose a full diagnostic message from a static text and a captured
/// detail.
pub fn compose_message(base: &str, detail: &str) -> (m: String)
    ensures
        m@ == spec_compose_message(base@, detail@),
{
    let mut m = base.to_owned();
    if !detail.is_empty() {
        append_str(&mut m, ": ");
        append_str(&mut m, detail);
    }
    m
}

/// A structured error: a taxonomy entry plus the composed human-readable
/// message.
#[derive(Debug, PartialEq)]
pub struct BridgeError {
    pub code: ErrorCode,
    pub message: String,
}

impl BridgeError {
    /// Build an error for a code, composing the message from the code's
    /// static text and the given detail.
    pub fn new(code: ErrorCode, detail: &str) -> (e: BridgeError)
        ensures
            e.code == code,
            e.message@ == spec_compose_message(spec_static_message(code), detail@),
    {
        BridgeError { code, message: compose_message(static_message(code), detail) }
    }
}

} // verus!
