//! Error taxonomy for the composition engine.
//!
//! Every fallible operation of the library reports one of these variants,
//! carrying a message with enough context to reconstruct the failure.

use vstd::prelude::*;

verus! {

/// Error type for all library operations.
///
/// `FFmpeg` wraps engine invocation failures, `FFprobe` wraps metadata-probe
/// failures, `Json` wraps protocol parse/encode failures; the remaining
/// variants describe validation and request problems.
#[derive(Debug, Clone, PartialEq, Eq)]
pub enum CluvError {
    /// Engine invocation error.
    FFmpeg(String),
    /// Metadata probe error.
    FFprobe(String),
    /// I/O error, as a message.
    Io(String),
    /// Protocol parse or encode error, as a message.
    Json(String),
    /// Validation failed or a request was malformed.
    InvalidParams(String),
    /// A required builder field was absent.
    MissingParam(String),
    /// A referenced file does not exist.
    FileNotFound(String),
    /// A format is not supported.
    UnsupportedFormat(String),
    /// Any other error.
    Custom(String),
}

impl CluvError {
    /// Build an engine error from a message.
    pub fn ffmpeg(msg: &str) -> (r: CluvError)
        ensures
            r matches CluvError::FFmpeg(s) && s@ == msg@,
    {
        CluvError::FFmpeg(String::from_str(msg))
    }

    /// Build a probe error from a message.
    pub fn ffprobe(msg: &str) -> (r: CluvError)
        ensures
            r matches CluvError::FFprobe(s) && s@ == msg@,
    {
        CluvError::FFprobe(String::from_str(msg))
    }

    /// Build a validation error from a message.
    pub fn invalid_params(msg: &str) -> (r: CluvError)
        ensures
            r matches CluvError::InvalidParams(s) && s@ == msg@,
    {
        CluvError::InvalidParams(String::from_str(msg))
    }

    /// Build a missing-parameter error naming the parameter.
    pub fn missing_param(param: &str) -> (r: CluvError)
        ensures
            r matches CluvError::MissingParam(s) && s@ == param@,
    {
        CluvError::MissingParam(String::from_str(param))
    }

    /// Build a file-not-found error naming the path.
    pub fn file_not_found(path: &str) -> (r: CluvError)
        ensures
            r matches CluvError::FileNotFound(s) && s@ == path@,
    {
        CluvError::FileNotFound(String::from_str(path))
    }

    /// Build an unsupported-format error naming the format.
    pub fn unsupported_format(format: &str) -> (r: CluvError)
        ensures
            r matches CluvError::UnsupportedFormat(s) && s@ == format@,
    {
        CluvError::UnsupportedFormat(String::from_str(format))
    }

    /// Build a custom error from a message.
    pub fn custom(msg: &str) -> (r: CluvError)
        ensures
            r matches CluvError::Custom(s) && s@ == msg@,
    {
        CluvError::Custom(String::from_str(msg))
    }

    /// The message carried by this error, without its category prefix.
    pub fn message(&self) -> (r: &str)
        ensures
            r@ == self.message_view(),
    {
        match self {
            CluvError::FFmpeg(s) => s.as_str(),
            CluvError::FFprobe(s) => s.as_str(),
            CluvError::Io(s) => s.as_str(),
            CluvError::Json(s) => s.as_str(),
            CluvError::InvalidParams(s) => s.as_str(),
            CluvError::MissingParam(s) => s.as_str(),
            CluvError::FileNotFound(s) => s.as_str(),
            CluvError::UnsupportedFormat(s) => s.as_str(),
            CluvError::Custom(s) => s.as_str(),
        }
    }

    /// The full description: the category prefix followed by the message.
    pub open spec fn display_view(&self) -> Seq<char> {
        match self {
            CluvError::FFmpeg(s) => "FFmpeg error: "@ + s@,
            CluvError::FFprobe(s) => "FFprobe error: "@ + s@,
            CluvError::Io(s) => "IO error: "@ + s@,
            CluvError::Json(s) => "JSON error: "@ + s@,
            CluvError::InvalidParams(s) => "Invalid parameters: "@ + s@,
            CluvError::MissingParam(s) => "Missing required parameter: "@ + s@,
            CluvError::FileNotFound(s) => "File not found: "@ + s@,
            CluvError::UnsupportedFormat(s) => "Unsupported format: "@ + s@,
            CluvError::Custom(s) => Seq::<char>::empty() + s@,
        }
    }

    /// Render the full description, category prefix included.
    pub fn to_display_string(&self) -> (r: String)
        ensures
            r@ == self.display_view(),
    {
        let mut r = match self {
            CluvError::FFmpeg(_) => String::from_str("FFmpeg error: "),
            CluvError::FFprobe(_) => String::from_str("FFprobe error: "),
            CluvError::Io(_) => String::from_str("IO error: "),
            CluvError::Json(_) => String::from_str("JSON error: "),
            CluvError::InvalidParams(_) => String::from_str("Invalid parameters: "),
            CluvError::MissingParam(_) => String::from_str("Missing required parameter: "),
            CluvError::FileNotFound(_) => String::from_str("File not found: "),
            CluvError::UnsupportedFormat(_) => String::from_str("Unsupported format: "),
            CluvError::Custom(_) => String::new(),
        };
        r.append(self.message());
        assert(r@ =~= self.display_view());
        r
    }

    /// The message carried by an error value.
    pub open spec fn message_view(&self) -> Seq<char> {
        match self {
            CluvError::FFmpeg(s) => s@,
            CluvError::FFprobe(s) => s@,
            CluvError::Io(s) => s@,
            CluvError::Json(s) => s@,
            CluvError::InvalidParams(s) => s@,
            CluvError::MissingParam(s) => s@,
            CluvError::FileNotFound(s) => s@,
            CluvError::UnsupportedFormat(s) => s@,
            CluvError::Custom(s) => s@,
        }
    }
}

} // verus!
