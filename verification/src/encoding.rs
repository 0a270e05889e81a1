//! Segment encoding, playlist management and delivery planning.

use vstd::prelude::*;

pub mod audio_encoder;
pub mod hls;
pub mod s3_uploader;
pub mod video_encoder;

pub use audio_encoder::{AACEncoder, EncodedAudioSegment};
pub use hls::{
    create_cap_hls_segmenter, HLSPlaylist, HLSSegment, HLSSegmenter, PlaylistType, S3ContentType,
};
pub use s3_uploader::{create_cap_s3_uploader, S3Uploader, UploadConfig};
pub use video_encoder::{EncodedVideoSegment, VideoEncoder};

verus! {

/// Audio codec options.
#[derive(Debug, Clone, Copy, PartialEq, Eq, Structural)]
pub enum AudioCodec {
    AAC,
}

/// Video codec options.
#[derive(Debug, Clone, Copy, PartialEq, Eq, Structural)]
pub enum VideoCodec {
    H264,
    H265,
}

/// Audio channel layout.
#[derive(Debug, Clone, Copy, PartialEq, Eq, Structural)]
pub enum AudioChannelLayout {
    Mono,
    Stereo,
    Surround51,
}

/// Pixel format for video.
#[derive(Debug, Clone, Copy, PartialEq, Eq, Structural)]
pub enum PixelFormat {
    YUV420P,
    RGBA,
    BGRA,
}

/// Audio encoding configuration.
#[derive(Debug, Clone, Copy, PartialEq, Eq, Structural)]
pub struct AudioEncodingConfig {
    /// Audio codec (AAC)
    pub codec: AudioCodec,
    /// Bitrate in bits per second
    pub bitrate: u32,
    /// Sample rate in Hz
    pub sample_rate: u32,
    /// Number of channels
    pub channels: u16,
    /// Channel layout
    pub channel_layout: AudioChannelLayout,
}

/// Video encoding configuration.
#[derive(Debug, Clone, Copy, PartialEq, Eq)]
pub struct VideoEncodingConfig {
    /// Video codec (H.264)
    pub codec: VideoCodec,
    /// Bitrate in bits per second
    pub bitrate: u32,
    /// Frame rate (fps) as numerator and denominator
    pub frame_rate: (u32, u32),
    /// Video resolution, width then height
    pub resolution: (u32, u32),
    /// Pixel format
    pub pixel_format: PixelFormat,
    /// Hardware acceleration
    pub hardware_acceleration: bool,
}

/// HLS configuration.
#[derive(Debug, Clone, Copy, PartialEq, Eq, Structural)]
pub struct HLSConfig {
    /// Segment duration in milliseconds
    pub segment_duration_ms: u64,
    /// Target duration for playlist, in seconds
    pub target_duration: u32,
    /// Number of segments to keep in playlist
    pub playlist_size: usize,
}

/// Encoding configuration.
#[derive(Debug, Clone)]
pub struct EncodingConfig {
    /// Audio encoding settings
    pub audio: AudioEncodingConfig,
    /// Video encoding settings
    pub video: VideoEncodingConfig,
    /// HLS segmentation settings
    pub hls: HLSConfig,
    /// Upload settings
    pub upload: Option<UploadConfig>,
}

/// Nominal length of one segment, in milliseconds.
pub const SEGMENT_DURATION_MS: u64 = 2000;

impl Default for AudioEncodingConfig {
    /// AAC at 128 kbit/s, 48 kHz stereo.
    fn default() -> (res: Self)
        ensures
            res == (AudioEncodingConfig {
                codec: AudioCodec::AAC,
                bitrate: 128000,
                sample_rate: 48000,
                channels: 2,
                channel_layout: AudioChannelLayout::Stereo,
            }),
    {
        AudioEncodingConfig {
            codec: AudioCodec::AAC,
            bitrate: 128000,
            sample_rate: 48000,
            channels: 2,
            channel_layout: AudioChannelLayout::Stereo,
        }
    }
}

impl Default for VideoEncodingConfig {
    /// H.264 at 2 Mbit/s, 30 fps, 1920x1080 planar 4:2:0, hardware
    /// acceleration on.
    fn default() -> (res: Self)
        ensures
            res == (VideoEncodingConfig {
                codec: VideoCodec::H264,
                bitrate: 2000000,
                frame_rate: (30, 1),
                resolution: (1920, 1080),
                pixel_format: PixelFormat::YUV420P,
                hardware_acceleration: true,
            }),
    {
        VideoEncodingConfig {
            codec: VideoCodec::H264,
            bitrate: 2000000,
            frame_rate: (30, 1),
            resolution: (1920, 1080),
            pixel_format: PixelFormat::YUV420P,
            hardware_acceleration: true,
        }
    }
}

impl Default for HLSConfig {
    /// Two-second segments, target duration 2, a window of 5 segments.
    fn default() -> (res: Self)
        ensures
            res == (HLSConfig { segment_duration_ms: 2000, target_duration: 2, playlist_size: 5 }),
    {
        HLSConfig { segment_duration_ms: 2000, target_duration: 2, playlist_size: 5 }
    }
}

impl Default for EncodingConfig {
    /// The defaults of each part, without upload settings.
    fn default() -> (res: Self)
        ensures
            res.audio == (AudioEncodingConfig {
                codec: AudioCodec::AAC,
                bitrate: 128000,
                sample_rate: 48000,
                channels: 2,
                channel_layout: AudioChannelLayout::Stereo,
            }),
            res.video == (VideoEncodingConfig {
                codec: VideoCodec::H264,
                bitrate: 2000000,
                frame_rate: (30, 1),
                resolution: (1920, 1080),
                pixel_format: PixelFormat::YUV420P,
                hardware_acceleration: true,
            }),
            res.hls == (HLSConfig { segment_duration_ms: 2000, target_duration: 2, playlist_size: 5 }),
            res.upload is None,
    {
        EncodingConfig {
            audio: AudioEncodingConfig::default(),
            video: VideoEncodingConfig::default(),
            hls: HLSConfig::default(),
            upload: None,
        }
    }
}

} // verus!
