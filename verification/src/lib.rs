//! Real-time capture-to-delivery pipeline: segment encoding bookkeeping,
//! rolling HLS playlists and time-bounded delivery planning, with the
//! capture-side values and decisions that surround them.

use vstd::prelude::*;
use vstd::string::*;

pub mod audio;
pub mod bytes;
pub mod clock;
pub mod config;
pub mod encoding;
pub mod error;
pub mod permissions;
pub mod platform;
pub mod recording;
pub mod screen;
pub mod screencapturekit;
pub mod screencapturekit_audio;
pub mod text;

pub use audio::{AudioProcessor, AudioSegment};
pub use config::{AudioCaptureConfig, CaptureConfig, OutputFormat, ScreenCaptureConfig};
pub use encoding::{AACEncoder, HLSSegmenter, S3Uploader, VideoEncoder};
pub use error::{CaptureError, CaptureResult};
pub use recording::{CapRecordingPipeline, RecordingConfig, RecordingSession};
pub use screen::ScreenCapture;

verus! {

/// Get platform-specific instructions for enabling system audio capture.
pub fn get_system_audio_setup_instructions(platform: platform::Platform) -> (res: String)
    ensures
        res@ == permissions::setup_instructions(platform),
{
    String::from_str(permissions::get_system_audio_setup_instructions(platform))
}

} // verus!
