//! Capture session configuration.

use vstd::prelude::*;

verus! {

/// Supported audio formats.
#[derive(Debug, Clone, Copy, PartialEq, Eq, Structural)]
pub enum AudioFormat {
    /// AAC audio format (recommended for transcription)
    Aac,
    /// MP3 audio format
    Mp3,
    /// WAV audio format
    Wav,
    /// Raw PCM data
    Raw,
}

/// Supported video formats.
#[derive(Debug, Clone, Copy, PartialEq, Eq, Structural)]
pub enum VideoFormat {
    /// MP4 container with H.264
    Mp4,
    /// WebM container
    WebM,
    /// Raw frames
    Raw,
}

/// Audio capture configuration.
#[derive(Debug, Clone)]
pub struct AudioCaptureConfig {
    /// Enable audio capture
    pub enabled: bool,
    /// Capture system audio (computer output)
    pub system_audio: bool,
    /// Capture microphone input
    pub microphone: bool,
    /// Audio sample rate (e.g., 44100, 48000)
    pub sample_rate: u32,
    /// Audio channels (1 for mono, 2 for stereo)
    pub channels: u16,
    /// Segment duration in milliseconds for real-time processing
    pub segment_duration_ms: u32,
    /// Audio device ID for microphone (None for default)
    pub microphone_device_id: Option<String>,
    /// Audio format for output
    pub format: AudioFormat,
}

/// Screen capture configuration.
#[derive(Debug, Clone, Copy)]
pub struct ScreenCaptureConfig {
    /// Enable screen capture
    pub enabled: bool,
    /// Display ID to capture (None for primary display)
    pub display_id: Option<u32>,
    /// Capture frame rate
    pub fps: u32,
    /// Capture quality (0-100)
    pub quality: u8,
    /// Include cursor in capture
    pub include_cursor: bool,
    /// Capture specific window ID (None for full screen)
    pub window_id: Option<i64>,
}

/// Output format configuration.
#[derive(Debug, Clone)]
pub struct OutputFormat {
    /// Audio output format
    pub audio: AudioFormat,
    /// Video output format (if screen capture is enabled)
    pub video: VideoFormat,
    /// Output directory for segments
    pub output_dir: Option<String>,
    /// Enable real-time streaming
    pub real_time: bool,
}

/// Main configuration for the capture session.
#[derive(Debug, Clone)]
pub struct CaptureConfig {
    /// Audio capture configuration
    pub audio: AudioCaptureConfig,
    /// Screen capture configuration
    pub screen: ScreenCaptureConfig,
    /// Output format settings
    pub output: OutputFormat,
}

impl Default for AudioCaptureConfig {
    /// Both sources on, 44.1 kHz stereo, two-second segments, AAC.
    fn default() -> (res: Self)
        ensures
            res == (AudioCaptureConfig {
                enabled: true,
                system_audio: true,
                microphone: true,
                sample_rate: 44100,
                channels: 2,
                segment_duration_ms: 2000,
                microphone_device_id: None,
                format: AudioFormat::Aac,
            }),
    {
        AudioCaptureConfig {
            enabled: true,
            system_audio: true,
            microphone: true,
            sample_rate: 44100,
            channels: 2,
            segment_duration_ms: 2000,
            microphone_device_id: None,
            format: AudioFormat::Aac,
        }
    }
}

impl Default for ScreenCaptureConfig {
    /// Screen capture off (audio only), 30 fps, quality 80, cursor shown.
    fn default() -> (res: Self)
        ensures
            res == (ScreenCaptureConfig {
                enabled: false,
                display_id: None,
                fps: 30,
                quality: 80,
                include_cursor: true,
                window_id: None,
            }),
    {
        ScreenCaptureConfig {
            enabled: false,
            display_id: None,
            fps: 30,
            quality: 80,
            include_cursor: true,
            window_id: None,
        }
    }
}

impl Default for OutputFormat {
    /// AAC audio, MP4 video, no output directory, real-time streaming on.
    fn default() -> (res: Self)
        ensures
            res == (OutputFormat {
                audio: AudioFormat::Aac,
                video: VideoFormat::Mp4,
                output_dir: None,
                real_time: true,
            }),
    {
        OutputFormat {
            audio: AudioFormat::Aac,
            video: VideoFormat::Mp4,
            output_dir: None,
            real_time: true,
        }
    }
}

impl Default for CaptureConfig {
    /// The defaults of each part.
    fn default() -> (res: Self)
        ensures
            res.audio == (AudioCaptureConfig {
                enabled: true,
                system_audio: true,
                microphone: true,
                sample_rate: 44100,
                channels: 2,
                segment_duration_ms: 2000,
                microphone_device_id: None,
                format: AudioFormat::Aac,
            }),
            res.screen == (ScreenCaptureConfig {
                enabled: false,
                display_id: None,
                fps: 30,
                quality: 80,
                include_cursor: true,
                window_id: None,
            }),
            res.output == (OutputFormat {
                audio: AudioFormat::Aac,
                video: VideoFormat::Mp4,
                output_dir: None,
                real_time: true,
            }),
    {
        CaptureConfig {
            audio: AudioCaptureConfig::default(),
            screen: ScreenCaptureConfig::default(),
            output: OutputFormat::default(),
        }
    }
}

} // verus!
