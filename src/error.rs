use vstd::prelude::*;

verus! {

/// Main category of a failed operation.
#[derive(Debug, Clone, Copy, PartialEq, Eq, Structural)]
pub enum HeifErrorCode {
    InputDoesNotExist,
    InvalidInput,
    UnsupportedFileType,
    UnsupportedFeature,
    UsageError,
    MemoryAllocationError,
    DecoderPluginError,
    EncoderPluginError,
    EncodingError,
    ColorProfileDoesNotExist,
    PluginLoadingError,
    Canceled,
    EndOfSequence,
    /// The engine could not allocate a processing context.
    ContextCreateFailed,
    /// A status code that this library does not know by name.
    Unknown(u32),
}

/// Detail code of a failed operation.
#[derive(Debug, Clone, Copy, PartialEq, Eq, Structural)]
pub enum HeifErrorSubCode {
    Unspecified,
    /// Any other detail code, as the engine reported it.
    Code(u32),
}

/// A translated failure: category, detail and message.
#[derive(Debug)]
pub struct HeifError {
    pub code: HeifErrorCode,
    pub sub_code: HeifErrorSubCode,
    pub message: String,
}

/// The category that a native status code (other than success) stands for.
pub open spec fn code_of(c: u32) -> HeifErrorCode {
    if c == 1 {
        HeifErrorCode::InputDoesNotExist
    } else if c == 2 {
        HeifErrorCode::InvalidInput
    } else if c == 3 {
        HeifErrorCode::UnsupportedFileType
    } else if c == 4 {
        HeifErrorCode::UnsupportedFeature
    } else if c == 5 {
        HeifErrorCode::UsageError
    } else if c == 6 {
        HeifErrorCode::MemoryAllocationError
    } else if c == 7 {
        HeifErrorCode::DecoderPluginError
    } else if c == 8 {
        HeifErrorCode::EncoderPluginError
    } else if c == 9 {
        HeifErrorCode::EncodingError
    } else if c == 10 {
        HeifErrorCode::ColorProfileDoesNotExist
    } else if c == 11 {
        HeifErrorCode::PluginLoadingError
    } else if c == 12 {
        HeifErrorCode::Canceled
    } else if c == 13 {
        HeifErrorCode::EndOfSequence
    } else {
        HeifErrorCode::Unknown(c)
    }
}

/// The detail that a native sub-code stands for.
pub open spec fn sub_code_of(s: u32) -> HeifErrorSubCode {
    if s == 0 {
        HeifErrorSubCode::Unspecified
    } else {
        HeifErrorSubCode::Code(s)
    }
}

/// The native status code that means success.
pub const NATIVE_OK: u32 = 0;

/// Maps a native status code to its category.
pub fn error_code_from_native(c: u32) -> (r: HeifErrorCode)
    ensures
        r == code_of(c),
{
    match c {
        1 => HeifErrorCode::InputDoesNotExist,
        2 => HeifErrorCode::InvalidInput,
        3 => HeifErrorCode::UnsupportedFileType,
        4 => HeifErrorCode::UnsupportedFeature,
        5 => HeifErrorCode::UsageError,
        6 => HeifErrorCode::MemoryAllocationError,
        7 => HeifErrorCode::DecoderPluginError,
        8 => HeifErrorCode::EncoderPluginError,
        9 => HeifErrorCode::EncodingError,
        10 => HeifErrorCode::ColorProfileDoesNotExist,
        11 => HeifErrorCode::PluginLoadingError,
        12 => HeifErrorCode::Canceled,
        13 => HeifErrorCode::EndOfSequence,
        _ => HeifErrorCode::Unknown(c),
    }
}

/// Maps a native sub-code to its detail.
pub fn sub_code_from_native(s: u32) -> (r: HeifErrorSubCode)
    ensures
        r == sub_code_of(s),
{
    if s == 0 {
        HeifErrorSubCode::Unspecified
    } else {
        HeifErrorSubCode::Code(s)
    }
}

impl HeifError {
    /// Translates a native result: success when the status code is the
    /// success code, otherwise an error carrying category, detail and message.
    pub fn from_heif_error(code: u32, sub_code: u32, message: String) -> (r: Result<(), HeifError>)
        ensures
            r is Ok <==> code == NATIVE_OK,
            r matches Err(e) ==> e.code == code_of(code) && e.sub_code == sub_code_of(sub_code)
                && e.message@ == message@,
    {
        if code == NATIVE_OK {
            Ok(())
        } else {
            Err(
                HeifError {
                    code: error_code_from_native(code),
                    sub_code: sub_code_from_native(sub_code),
                    message,
                },
            )
        }
    }

    /// The error for an engine that handed back no processing context; the
    /// engine gives no detail at that stage.
    pub fn context_create_failed() -> (r: HeifError)
        ensures
            r.code == HeifErrorCode::ContextCreateFailed,
            r.sub_code == HeifErrorSubCode::Unspecified,
            r.message@ == Seq::<char>::empty(),
    {
        HeifError {
            code: HeifErrorCode::ContextCreateFailed,
            sub_code: HeifErrorSubCode::Unspecified,
            message: String::new(),
        }
    }
}

} // verus!
