//! System audio capture through ScreenCaptureKit on macOS: whether the
//! system is recent enough for it, and the running state of a capture.

use crate::error::{AudioError, CaptureError, CaptureResult};
use crate::platform::Platform;
use crate::text::{
    chars_of, field_end, field_len, parse_number, parsed_number, trim_range, trimmed, Trim,
};
use vstd::prelude::*;
use vstd::string::*;

verus! {

/// Whether the version `major.minor` is at least 12.3.
pub open spec fn is_recent_enough(major: u32, minor: u32) -> bool {
    major > 12 || (major == 12 && minor >= 3)
}

/// Whether the product version text that macOS reports says that
/// ScreenCaptureKit is there: without the white space around it, the text
/// holds at least two fields separated by dots, the first two fields are
/// numbers, and the version they write is at least 12.3.
pub open spec fn version_supports_screencapturekit(product_version: Seq<char>) -> bool {
    let text = trimmed(product_version, Trim::Space);
    let first = field_len(text, '.');
    if first < text.len() {
        let rest = text.skip(first + 1);
        let second = field_len(rest, '.');
        match (parsed_number(text.take(first)), parsed_number(rest.take(second))) {
            (Some(major), Some(minor)) => is_recent_enough(major, minor),
            _ => false,
        }
    } else {
        false
    }
}

/// Check if ScreenCaptureKit is available: only on macOS, and there only
/// where the reported product version is at least 12.3.
pub fn is_screencapturekit_available(platform: Platform, product_version: &str) -> (res: bool)
    ensures
        res == (platform is MacOS && version_supports_screencapturekit(product_version@)),
{
    match platform {
        Platform::MacOS => {},
        _ => {
            return false;
        },
    }
    let text = chars_of(product_version);
    let (from, to) = trim_range(&text, 0, text.len(), Trim::Space);
    assert(text@.subrange(0, text@.len() as int) =~= text@);
    let first_end = field_end(&text, from, to, '.');
    if first_end >= to {
        return false;
    }
    let second_end = field_end(&text, first_end + 1, to, '.');
    let ghost core = text@.subrange(from as int, to as int);
    proof {
        let first = first_end - from;
        assert(core.take(first) =~= text@.subrange(from as int, first_end as int));
        assert(core.skip(first + 1) =~= text@.subrange(first_end + 1, to as int));
        assert(core.skip(first + 1).take(second_end - first_end - 1) =~= text@.subrange(
            first_end + 1,
            second_end as int,
        ));
    }
    match (parse_number(&text, from, first_end), parse_number(&text, first_end + 1, second_end)) {
        (Some(major), Some(minor)) => major > 12 || (major == 12 && minor >= 3),
        _ => false,
    }
}

/// Get ScreenCaptureKit audio info, as sample rate and channel count: 48
/// kHz stereo on macOS, and 44.1 kHz stereo as a fallback elsewhere.
pub fn get_screencapturekit_audio_info(platform: Platform) -> (res: (u32, u16))
    ensures
        res == if platform is MacOS {
            (48000u32, 2u16)
        } else {
            (44100u32, 2u16)
        },
{
    match platform {
        Platform::MacOS => (48000, 2),
        _ => (44100, 2),
    }
}

/// How a request to start native system audio capture is answered.
#[derive(Debug, Clone, Copy, PartialEq, Eq, Structural)]
pub enum NativeAudioStart {
    /// Capture through ScreenCaptureKit is ready, with this sample rate
    /// and channel count
    ScreenCaptureKit { sample_rate: u32, channels: u16 },
    /// Capture through WASAPI loopback is started
    WasapiLoopback,
    /// Capture through a PipeWire monitor is started
    PipewireMonitor,
    /// ScreenCaptureKit is not there: the system is older than 12.3
    NotAvailable,
    /// The screen recording permission is missing
    PermissionDenied,
    /// The platform has no native system audio capture
    NotImplemented,
}

/// Answers a request to start native system audio capture: on macOS
/// through ScreenCaptureKit, which has to be there and needs the screen
/// recording permission; on Windows through WASAPI loopback; on Linux
/// through a PipeWire monitor; not at all elsewhere.
pub fn start_native_system_audio(platform: Platform, product_version: &str, has_permission: bool) -> (res:
    NativeAudioStart)
    ensures
        res == match platform {
            Platform::MacOS => if !version_supports_screencapturekit(product_version@) {
                NativeAudioStart::NotAvailable
            } else if !has_permission {
                NativeAudioStart::PermissionDenied
            } else {
                NativeAudioStart::ScreenCaptureKit { sample_rate: 48000, channels: 2 }
            },
            Platform::Windows => NativeAudioStart::WasapiLoopback,
            Platform::Linux => NativeAudioStart::PipewireMonitor,
            Platform::Unknown => NativeAudioStart::NotImplemented,
        },
{
    match platform {
        Platform::MacOS => {
            if !is_screencapturekit_available(platform, product_version) {
                NativeAudioStart::NotAvailable
            } else if !has_permission {
                NativeAudioStart::PermissionDenied
            } else {
                let (sample_rate, channels) = get_screencapturekit_audio_info(platform);
                NativeAudioStart::ScreenCaptureKit { sample_rate, channels }
            }
        },
        Platform::Windows => NativeAudioStart::WasapiLoopback,
        Platform::Linux => NativeAudioStart::PipewireMonitor,
        Platform::Unknown => NativeAudioStart::NotImplemented,
    }
}

/// ScreenCaptureKit audio capturer: the running state of a capture of
/// system audio.
#[derive(Debug, PartialEq, Eq)]
pub struct ScreenCaptureKitAudio {
    is_running: bool,
    sample_rate: u32,
    channels: u16,
    segment_duration_ms: u32,
}

impl ScreenCaptureKitAudio {
    /// Whether a capture is running.
    pub closed spec fn running(&self) -> bool {
        self.is_running
    }

    /// The settings the capturer was made with: sample rate, channel
    /// count and segment duration in milliseconds.
    pub closed spec fn settings(&self) -> (u32, u16, u32) {
        (self.sample_rate, self.channels, self.segment_duration_ms)
    }

    /// A capturer that is not running.
    pub fn new(sample_rate: u32, channels: u16, segment_duration_ms: u32) -> (res: Self)
        ensures
            !res.running(),
            res.settings() == (sample_rate, channels, segment_duration_ms),
    {
        ScreenCaptureKitAudio { is_running: false, sample_rate, channels, segment_duration_ms }
    }

    /// The sample rate of the capture.
    pub fn sample_rate(&self) -> (res: u32)
        ensures
            res == self.settings().0,
    {
        self.sample_rate
    }

    /// The channel count of the capture.
    pub fn channels(&self) -> (res: u16)
        ensures
            res == self.settings().1,
    {
        self.channels
    }

    /// The segment duration of the capture, in milliseconds.
    pub fn segment_duration_ms(&self) -> (res: u32)
        ensures
            res == self.settings().2,
    {
        self.segment_duration_ms
    }

    /// Whether a capture is running.
    pub fn is_running(&self) -> (res: bool)
        ensures
            res == self.running(),
    {
        self.is_running
    }

    /// Start system audio capture. Refused while a capture is running.
    /// Otherwise the capturer counts as running from here on, and the
    /// start fails where the screen recording permission is missing.
    pub fn start_capture(&mut self, has_permission: bool) -> (res: CaptureResult<()>)
        ensures
            final(self).settings() == old(self).settings(),
            final(self).running(),
            res is Ok <==> !old(self).running() && has_permission,
            res matches Err(e) ==> if old(self).running() {
                e matches CaptureError::Audio(AudioError::InitializationFailed(m)) && m@
                    == "ScreenCaptureKit audio capture is already running"@
            } else {
                e matches CaptureError::Audio(AudioError::PermissionDenied(m)) && m@
                    == "Screen recording permission required for system audio capture. Please enable in System Preferences > Privacy & Security > Screen Recording"@
            },
    {
        if self.is_running {
            return Err(
                CaptureError::Audio(
                    AudioError::InitializationFailed(
                        String::from_str("ScreenCaptureKit audio capture is already running"),
                    ),
                ),
            );
        }
        self.is_running = true;
        if !has_permission {
            return Err(
                CaptureError::Audio(
                    AudioError::PermissionDenied(
                        String::from_str(
                            "Screen recording permission required for system audio capture. Please enable in System Preferences > Privacy & Security > Screen Recording",
                        ),
                    ),
                ),
            );
        }
        Ok(())
    }

    /// Stop system audio capture: the capturer is not running afterwards.
    pub fn stop_capture(&mut self) -> (res: CaptureResult<()>)
        ensures
            final(self).settings() == old(self).settings(),
            !final(self).running(),
            res is Ok,
    {
        self.is_running = false;
        Ok(())
    }
}

} // verus!
