//! Error values of the capture library and the text each one is reported
//! with.

use vstd::prelude::*;
use vstd::string::*;

verus! {

/// Audio-specific errors.
#[derive(Debug, Clone, PartialEq, Eq)]
pub enum AudioError {
    /// Failed to initialize audio system
    InitializationFailed(String),
    /// Audio device not found
    DeviceNotFound(String),
    /// Audio format not supported
    UnsupportedFormat(String),
    /// Audio stream error
    StreamError(String),
    /// Audio encoding error
    EncodingError(String),
    /// Audio buffer overflow/underflow
    BufferError(String),
    /// A permission that audio capture depends on is missing
    PermissionDenied(String),
}

/// Screen capture specific errors.
#[derive(Debug, Clone, PartialEq, Eq)]
pub enum ScreenError {
    /// Failed to initialize screen capture
    InitializationFailed(String),
    /// Display not found
    DisplayNotFound(String),
    /// Window not found
    WindowNotFound(String),
    /// Screen capture permission denied
    PermissionDenied,
    /// Screen capture format error
    FormatError(String),
    /// Frame capture failed
    CaptureError(String),
}

/// Error types for the capture library.
#[derive(Debug, Clone, PartialEq, Eq)]
pub enum CaptureError {
    /// Audio-related errors
    Audio(AudioError),
    /// Screen capture errors
    Screen(ScreenError),
    /// Configuration errors
    Config(String),
    /// Platform-specific errors
    Platform(String),
    /// Permission errors (microphone, screen recording, etc.)
    Permission(String),
    /// Device not found or unavailable
    Device(String),
    /// I/O errors, by their message
    Io(String),
    /// Serialization errors, by their message
    Serialization(String),
    /// General errors, by their message
    General(String),
    /// A codec could not be set up or rejected a frame
    EncodingError(String),
    /// A delivery to remote storage failed or ran out of time
    Upload(String),
    /// An operation was asked for in a state that does not allow it
    InvalidState(String),
}

/// Result type for capture operations.
pub type CaptureResult<T> = Result<T, CaptureError>;

impl AudioError {
    /// The text this error is reported with.
    pub open spec fn message(self) -> Seq<char> {
        match self {
            AudioError::InitializationFailed(m) => "Failed to initialize audio system: "@ + m@,
            AudioError::DeviceNotFound(m) => "Audio device not found: "@ + m@,
            AudioError::UnsupportedFormat(m) => "Audio format not supported: "@ + m@,
            AudioError::StreamError(m) => "Audio stream error: "@ + m@,
            AudioError::EncodingError(m) => "Audio encoding error: "@ + m@,
            AudioError::BufferError(m) => "Audio buffer error: "@ + m@,
            AudioError::PermissionDenied(m) => "Audio permission denied: "@ + m@,
        }
    }

    /// Renders the error as text.
    pub fn to_string(&self) -> (res: String)
        ensures
            res@ == self.message(),
    {
        match self {
            AudioError::InitializationFailed(m) => prefixed(
                "Failed to initialize audio system: ",
                m.as_str(),
            ),
            AudioError::DeviceNotFound(m) => prefixed("Audio device not found: ", m.as_str()),
            AudioError::UnsupportedFormat(m) => prefixed(
                "Audio format not supported: ",
                m.as_str(),
            ),
            AudioError::StreamError(m) => prefixed("Audio stream error: ", m.as_str()),
            AudioError::EncodingError(m) => prefixed("Audio encoding error: ", m.as_str()),
            AudioError::BufferError(m) => prefixed("Audio buffer error: ", m.as_str()),
            AudioError::PermissionDenied(m) => prefixed("Audio permission denied: ", m.as_str()),
        }
    }
}

impl ScreenError {
    /// The text this error is reported with.
    pub open spec fn message(self) -> Seq<char> {
        match self {
            ScreenError::InitializationFailed(m) => "Failed to initialize screen capture: "@ + m@,
            ScreenError::DisplayNotFound(m) => "Display not found: "@ + m@,
            ScreenError::WindowNotFound(m) => "Window not found: "@ + m@,
            ScreenError::PermissionDenied => "Screen capture permission denied"@,
            ScreenError::FormatError(m) => "Screen capture format error: "@ + m@,
            ScreenError::CaptureError(m) => "Frame capture failed: "@ + m@,
        }
    }

    /// Renders the error as text.
    pub fn to_string(&self) -> (res: String)
        ensures
            res@ == self.message(),
    {
        match self {
            ScreenError::InitializationFailed(m) => prefixed(
                "Failed to initialize screen capture: ",
                m.as_str(),
            ),
            ScreenError::DisplayNotFound(m) => prefixed("Display not found: ", m.as_str()),
            ScreenError::WindowNotFound(m) => prefixed("Window not found: ", m.as_str()),
            ScreenError::PermissionDenied => String::from_str("Screen capture permission denied"),
            ScreenError::FormatError(m) => prefixed("Screen capture format error: ", m.as_str()),
            ScreenError::CaptureError(m) => prefixed("Frame capture failed: ", m.as_str()),
        }
    }
}

impl CaptureError {
    /// The text this error is reported with.
    pub open spec fn message(self) -> Seq<char> {
        match self {
            CaptureError::Audio(e) => "Audio error: "@ + e.message(),
            CaptureError::Screen(e) => "Screen capture error: "@ + e.message(),
            CaptureError::Config(m) => "Configuration error: "@ + m@,
            CaptureError::Platform(m) => "Platform error: "@ + m@,
            CaptureError::Permission(m) => "Permission denied: "@ + m@,
            CaptureError::Device(m) => "Device error: "@ + m@,
            CaptureError::Io(m) => "I/O error: "@ + m@,
            CaptureError::Serialization(m) => "Serialization error: "@ + m@,
            CaptureError::General(m) => "General error: "@ + m@,
            CaptureError::EncodingError(m) => "Encoding error: "@ + m@,
            CaptureError::Upload(m) => "Upload error: "@ + m@,
            CaptureError::InvalidState(m) => "Invalid state: "@ + m@,
        }
    }

    /// Renders the error as text.
    pub fn to_string(&self) -> (res: String)
        ensures
            res@ == self.message(),
    {
        match self {
            CaptureError::Audio(e) => {
                let inner = e.to_string();
                prefixed("Audio error: ", inner.as_str())
            },
            CaptureError::Screen(e) => {
                let inner = e.to_string();
                prefixed("Screen capture error: ", inner.as_str())
            },
            CaptureError::Config(m) => prefixed("Configuration error: ", m.as_str()),
            CaptureError::Platform(m) => prefixed("Platform error: ", m.as_str()),
            CaptureError::Permission(m) => prefixed("Permission denied: ", m.as_str()),
            CaptureError::Device(m) => prefixed("Device error: ", m.as_str()),
            CaptureError::Io(m) => prefixed("I/O error: ", m.as_str()),
            CaptureError::Serialization(m) => prefixed("Serialization error: ", m.as_str()),
            CaptureError::General(m) => prefixed("General error: ", m.as_str()),
            CaptureError::EncodingError(m) => prefixed("Encoding error: ", m.as_str()),
            CaptureError::Upload(m) => prefixed("Upload error: ", m.as_str()),
            CaptureError::InvalidState(m) => prefixed("Invalid state: ", m.as_str()),
        }
    }
}

/// `head` followed by `tail`, as a new string.
pub fn prefixed(head: &str, tail: &str) -> (res: String)
    ensures
        res@ == head@ + tail@,
{
    let mut res = String::from_str(head);
    res.append(tail);
    res
}

} // verus!
