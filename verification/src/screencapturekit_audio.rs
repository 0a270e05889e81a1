//! Segments of captured audio as they are handed to real-time
//! transcription, and the microphone capture that goes with them.

use crate::config::AudioCaptureConfig;
use crate::error::CaptureResult;
use vstd::prelude::*;
use vstd::string::*;

verus! {

/// Audio segment for real-time transcription.
#[derive(Debug, PartialEq, Eq)]
pub struct AudioSegment {
    /// Raw audio data
    pub data: Vec<u8>,
    /// Audio source (microphone, system, etc.)
    pub source: String,
    /// Segment duration in milliseconds
    pub duration_ms: u64,
    /// Timestamp when captured
    pub timestamp: u64,
    /// Audio format (PCM, AAC, etc.)
    pub format: String,
    /// Sample rate
    pub sample_rate: u32,
    /// Number of channels
    pub channels: u32,
}

/// The segment that carries `data` captured from the system's audio
/// output at time `timestamp`: 100 milliseconds of PCM at 48 kHz stereo.
pub fn system_audio_segment(data: Vec<u8>, timestamp: u64) -> (res: AudioSegment)
    ensures
        res.data@ == data@,
        res.source@ == "system_audio"@,
        res.duration_ms == 100,
        res.timestamp == timestamp,
        res.format@ == "PCM"@,
        res.sample_rate == 48000,
        res.channels == 2,
{
    AudioSegment {
        data,
        source: String::from_str("system_audio"),
        duration_ms: 100,
        timestamp,
        format: String::from_str("PCM"),
        sample_rate: 48000,
        channels: 2,
    }
}

/// Simple microphone capture.
#[derive(Debug)]
pub struct MicrophoneCapture {
    config: AudioCaptureConfig,
}

impl MicrophoneCapture {
    /// The configuration of the capture.
    pub closed spec fn config(&self) -> AudioCaptureConfig {
        self.config
    }

    /// A microphone capture with the given configuration.
    pub fn new(config: AudioCaptureConfig) -> (res: CaptureResult<Self>)
        ensures
            res matches Ok(capture) && capture.config() == config,
    {
        Ok(MicrophoneCapture { config })
    }

    /// Starts the capture; nothing is captured yet, and the start always
    /// succeeds.
    pub fn start_capture(&mut self) -> (res: CaptureResult<()>)
        ensures
            res is Ok,
            final(self).config() == old(self).config(),
    {
        Ok(())
    }

    /// Stops the capture; always succeeds.
    pub fn stop_capture(&mut self) -> (res: CaptureResult<()>)
        ensures
            res is Ok,
            final(self).config() == old(self).config(),
    {
        Ok(())
    }
}

} // verus!
