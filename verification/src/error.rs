//! Error taxonomy of the downloader core.

use vstd::prelude::*;

verus! {

/// Everything that can go wrong while validating input, driving the
/// external tool, or handling configuration and history.
#[derive(Debug, Clone, PartialEq, Eq)]
pub enum YtdlError {
    /// The given text is not a recognized video or playlist URL.
    InvalidUrl(String),
    /// The external downloading tool is not installed or not on PATH.
    YtdlpNotFound,
    /// The external downloading tool could not be launched or exited
    /// with a failure; carries its captured diagnostic text.
    YtdlpFailed(String),
    /// The audio conversion helper is not installed or not on PATH.
    FfmpegNotFound,
    /// A network-level failure reported by a collaborator.
    Network(String),
    /// Metadata text from the external tool was not valid JSON.
    JsonParse(String),
    /// A progress line could not be interpreted.
    ProgressParse(String),
    /// A filesystem operation failed; carries the underlying message.
    Io(String),
    /// Invalid configuration or invalid batch input.
    Config(String),
    /// The requested format does not exist for this video.
    FormatNotAvailable(String),
    /// The user interrupted a running download.
    Interrupted,
    /// Any other failure, described by its message.
    Other(String),
}

impl YtdlError {
    /// A short machine-readable name for the error's kind.
    pub fn kind_name(&self) -> (r: &'static str)
        ensures
            r@ == spec_kind_name(*self),
    {
        match self {
            YtdlError::InvalidUrl(_) => "invalid url",
            YtdlError::YtdlpNotFound => "tool not found",
            YtdlError::YtdlpFailed(_) => "tool failed",
            YtdlError::FfmpegNotFound => "ffmpeg not found",
            YtdlError::Network(_) => "network error",
            YtdlError::JsonParse(_) => "json parse error",
            YtdlError::ProgressParse(_) => "progress parse error",
            YtdlError::Io(_) => "io error",
            YtdlError::Config(_) => "configuration error",
            YtdlError::FormatNotAvailable(_) => "format not available",
            YtdlError::Interrupted => "interrupted",
            YtdlError::Other(_) => "error",
        }
    }

    /// The detail text carried by the error, if any.
    pub fn detail(&self) -> (r: Option<&String>)
        ensures
            r == spec_detail(self),
    {
        match self {
            YtdlError::InvalidUrl(s) => Some(s),
            YtdlError::YtdlpNotFound => None,
            YtdlError::YtdlpFailed(s) => Some(s),
            YtdlError::FfmpegNotFound => None,
            YtdlError::Network(s) => Some(s),
            YtdlError::JsonParse(s) => Some(s),
            YtdlError::ProgressParse(s) => Some(s),
            YtdlError::Io(s) => Some(s),
            YtdlError::Config(s) => Some(s),
            YtdlError::FormatNotAvailable(s) => Some(s),
            YtdlError::Interrupted => None,
            YtdlError::Other(s) => Some(s),
        }
    }
}

/// The kind name each variant maps to.
pub open spec fn spec_kind_name(e: YtdlError) -> Seq<char> {
    match e {
        YtdlError::InvalidUrl(_) => "invalid url"@,
        YtdlError::YtdlpNotFound => "tool not found"@,
        YtdlError::YtdlpFailed(_) => "tool failed"@,
        YtdlError::FfmpegNotFound => "ffmpeg not found"@,
        YtdlError::Network(_) => "network error"@,
        YtdlError::JsonParse(_) => "json parse error"@,
        YtdlError::ProgressParse(_) => "progress parse error"@,
        YtdlError::Io(_) => "io error"@,
        YtdlError::Config(_) => "configuration error"@,
        YtdlError::FormatNotAvailable(_) => "format not available"@,
        YtdlError::Interrupted => "interrupted"@,
        YtdlError::Other(_) => "error"@,
    }
}

/// The detail string each variant carries.
pub open spec fn spec_detail(e: &YtdlError) -> Option<&String> {
    match e {
        YtdlError::InvalidUrl(s) => Some(s),
        YtdlError::YtdlpNotFound => None,
        YtdlError::YtdlpFailed(s) => Some(s),
        YtdlError::FfmpegNotFound => None,
        YtdlError::Network(s) => Some(s),
        YtdlError::JsonParse(s) => Some(s),
        YtdlError::ProgressParse(s) => Some(s),
        YtdlError::Io(s) => Some(s),
        YtdlError::Config(s) => Some(s),
        YtdlError::FormatNotAvailable(s) => Some(s),
        YtdlError::Interrupted => None,
        YtdlError::Other(s) => Some(s),
    }
}

} // verus!
