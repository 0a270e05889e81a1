//! Permission states for microphone, screen recording and system audio, as
//! they follow from the platform and from what a probe of the machine
//! found.

use crate::error::{CaptureError, CaptureResult};
use crate::platform::Platform;
use vstd::prelude::*;

verus! {

/// Individual permission state.
#[derive(Debug, Clone, Copy, PartialEq, Eq, Structural)]
pub enum PermissionState {
    /// Permission granted
    Granted,
    /// Permission denied
    Denied,
    /// Permission not yet requested
    NotRequested,
    /// Permission request in progress
    Requesting,
    /// Permission not applicable on this platform
    NotApplicable,
}

/// Permission status for different capture types.
#[derive(Debug, Clone, Copy, PartialEq, Eq, Structural)]
pub struct PermissionStatus {
    /// Microphone permission status
    pub microphone: PermissionState,
    /// Screen recording permission status
    pub screen_recording: PermissionState,
    /// System audio permission status (varies by platform)
    pub system_audio: PermissionState,
}

/// What a probe of the machine found that permissions depend on.
#[derive(Debug, Clone, Copy, PartialEq, Eq, Structural)]
pub struct PermissionProbe {
    /// The platform the library runs on
    pub platform: Platform,
    /// Whether there is a default audio input device
    pub has_default_input: bool,
    /// Whether the default input device gives its name
    pub default_input_named: bool,
    /// Whether the PipeWire command line tool could be run
    pub pipewire: bool,
    /// Whether the PulseAudio command line tool could be run
    pub pulseaudio: bool,
}

/// What a request for the microphone permission comes to.
pub open spec fn microphone_after_request(probe: PermissionProbe) -> PermissionState {
    match probe.platform {
        Platform::MacOS => if probe.has_default_input && probe.default_input_named {
            PermissionState::Granted
        } else {
            PermissionState::Denied
        },
        Platform::Windows => PermissionState::NotRequested,
        Platform::Linux => PermissionState::NotRequested,
        Platform::Unknown => PermissionState::NotApplicable,
    }
}

/// What a request for the screen recording permission comes to.
pub open spec fn screen_recording_after_request(platform: Platform) -> PermissionState {
    match platform {
        Platform::MacOS => PermissionState::NotRequested,
        Platform::Windows => PermissionState::Granted,
        Platform::Linux => PermissionState::Granted,
        Platform::Unknown => PermissionState::NotApplicable,
    }
}

/// What a request for the system audio permission comes to.
pub open spec fn system_audio_after_request(platform: Platform) -> PermissionState {
    match platform {
        Platform::MacOS => PermissionState::NotRequested,
        Platform::Windows => PermissionState::Granted,
        Platform::Linux => PermissionState::Granted,
        Platform::Unknown => PermissionState::NotApplicable,
    }
}

/// The system audio permission as it stands: denied on macOS until screen
/// recording is permitted, granted on Windows, granted on Linux where
/// PipeWire or PulseAudio is there.
pub open spec fn system_audio_state(probe: PermissionProbe) -> PermissionState {
    match probe.platform {
        Platform::MacOS => PermissionState::Denied,
        Platform::Windows => PermissionState::Granted,
        Platform::Linux => if probe.pipewire || probe.pulseaudio {
            PermissionState::Granted
        } else {
            PermissionState::Denied
        },
        Platform::Unknown => PermissionState::NotApplicable,
    }
}

/// Platform-specific microphone permission handling.
pub fn request_microphone_permission(probe: PermissionProbe) -> (res: CaptureResult<
    PermissionState,
>)
    ensures
        res == Ok::<PermissionState, CaptureError>(microphone_after_request(probe)),
{
    match probe.platform {
        Platform::MacOS => {
            if probe.has_default_input && probe.default_input_named {
                Ok(PermissionState::Granted)
            } else {
                Ok(PermissionState::Denied)
            }
        },
        Platform::Windows => Ok(PermissionState::NotRequested),
        Platform::Linux => Ok(PermissionState::NotRequested),
        Platform::Unknown => Ok(PermissionState::NotApplicable),
    }
}

/// The microphone permission as it stands: granted where there is a
/// default input device, denied otherwise.
pub fn check_microphone_permission(probe: PermissionProbe) -> (res: CaptureResult<PermissionState>)
    ensures
        res == Ok::<PermissionState, CaptureError>(
            if probe.has_default_input {
                PermissionState::Granted
            } else {
                PermissionState::Denied
            },
        ),
{
    if probe.has_default_input {
        Ok(PermissionState::Granted)
    } else {
        Ok(PermissionState::Denied)
    }
}

/// Platform-specific screen recording permission handling.
pub fn request_screen_recording_permission(platform: Platform) -> (res: CaptureResult<
    PermissionState,
>)
    ensures
        res == Ok::<PermissionState, CaptureError>(screen_recording_after_request(platform)),
{
    match platform {
        Platform::MacOS => Ok(PermissionState::NotRequested),
        Platform::Windows => Ok(PermissionState::Granted),
        Platform::Linux => Ok(PermissionState::Granted),
        Platform::Unknown => Ok(PermissionState::NotApplicable),
    }
}

/// The screen recording permission as it stands: not requested.
pub fn check_screen_recording_permission() -> (res: CaptureResult<PermissionState>)
    ensures
        res == Ok::<PermissionState, CaptureError>(PermissionState::NotRequested),
{
    Ok(PermissionState::NotRequested)
}

/// Platform-specific system audio permission handling.
pub fn request_system_audio_permission(platform: Platform) -> (res: CaptureResult<PermissionState>)
    ensures
        res == Ok::<PermissionState, CaptureError>(system_audio_after_request(platform)),
{
    match platform {
        Platform::MacOS => Ok(PermissionState::NotRequested),
        Platform::Windows => Ok(PermissionState::Granted),
        Platform::Linux => Ok(PermissionState::Granted),
        Platform::Unknown => Ok(PermissionState::NotApplicable),
    }
}

/// The system audio permission as it stands.
pub fn check_system_audio_permission(probe: PermissionProbe) -> (res: CaptureResult<
    PermissionState,
>)
    ensures
        res == Ok::<PermissionState, CaptureError>(system_audio_state(probe)),
{
    match probe.platform {
        Platform::MacOS => Ok(PermissionState::Denied),
        Platform::Windows => Ok(PermissionState::Granted),
        Platform::Linux => {
            if probe.pipewire {
                Ok(PermissionState::Granted)
            } else if probe.pulseaudio {
                Ok(PermissionState::Granted)
            } else {
                Ok(PermissionState::Denied)
            }
        },
        Platform::Unknown => Ok(PermissionState::NotApplicable),
    }
}

/// Request all necessary permissions for audio and screen capture.
pub fn request_all_permissions(probe: PermissionProbe) -> (res: CaptureResult<PermissionStatus>)
    ensures
        res == Ok::<PermissionStatus, CaptureError>(
            PermissionStatus {
                microphone: microphone_after_request(probe),
                screen_recording: screen_recording_after_request(probe.platform),
                system_audio: system_audio_after_request(probe.platform),
            },
        ),
{
    let microphone = match request_microphone_permission(probe) {
        Ok(state) => state,
        Err(e) => {
            return Err(e);
        },
    };
    let screen_recording = match request_screen_recording_permission(probe.platform) {
        Ok(state) => state,
        Err(e) => {
            return Err(e);
        },
    };
    let system_audio = match request_system_audio_permission(probe.platform) {
        Ok(state) => state,
        Err(e) => {
            return Err(e);
        },
    };
    Ok(PermissionStatus { microphone, screen_recording, system_audio })
}

/// Check current permission status without requesting.
pub fn check_permissions(probe: PermissionProbe) -> (res: CaptureResult<PermissionStatus>)
    ensures
        res == Ok::<PermissionStatus, CaptureError>(
            PermissionStatus {
                microphone: if probe.has_default_input {
                    PermissionState::Granted
                } else {
                    PermissionState::Denied
                },
                screen_recording: PermissionState::NotRequested,
                system_audio: system_audio_state(probe),
            },
        ),
{
    let microphone = match check_microphone_permission(probe) {
        Ok(state) => state,
        Err(e) => {
            return Err(e);
        },
    };
    let screen_recording = match check_screen_recording_permission() {
        Ok(state) => state,
        Err(e) => {
            return Err(e);
        },
    };
    let system_audio = match check_system_audio_permission(probe) {
        Ok(state) => state,
        Err(e) => {
            return Err(e);
        },
    };
    Ok(PermissionStatus { microphone, screen_recording, system_audio })
}

/// The guidance for enabling system audio capture on `platform`.
pub open spec fn setup_instructions(platform: Platform) -> Seq<char> {
    match platform {
        Platform::MacOS => "macOS Native System Audio (Cap's Approach):\n1. Enable Screen Recording permission in System Preferences > Security & Privacy > Privacy > Screen Recording\n2. Add your application to the list of allowed apps\n3. Restart your application after granting permission\n\n✅ No BlackHole or virtual drivers needed!\n✅ Uses ScreenCaptureKit for direct system audio capture\n✅ Available on macOS 12.3+ (Monterey and later)"@,
        Platform::Windows => "Windows Native System Audio (Cap's Approach):\n1. No setup required! WASAPI loopback is built into Windows\n2. Your application can capture system audio directly\n\n✅ No Stereo Mix configuration needed!\n✅ Uses WASAPI loopback for direct system audio capture\n✅ Available on Windows Vista and later"@,
        Platform::Linux => "Linux Native System Audio (Cap's Approach):\n1. No setup required for most distributions!\n2. Uses PipeWire or PulseAudio monitor sources\n3. If needed, check available sources: pactl list sources short\n\n✅ No manual loopback configuration needed!\n✅ Uses native monitor sources for direct system audio capture\n✅ Works with PipeWire and PulseAudio"@,
        Platform::Unknown => "Native system audio capture not supported on this platform"@,
    }
}

/// Get platform-specific guidance for enabling system audio capture.
pub fn get_system_audio_setup_instructions(platform: Platform) -> (res: &'static str)
    ensures
        res@ == setup_instructions(platform),
{
    match platform {
        Platform::MacOS => "macOS Native System Audio (Cap's Approach):\n1. Enable Screen Recording permission in System Preferences > Security & Privacy > Privacy > Screen Recording\n2. Add your application to the list of allowed apps\n3. Restart your application after granting permission\n\n✅ No BlackHole or virtual drivers needed!\n✅ Uses ScreenCaptureKit for direct system audio capture\n✅ Available on macOS 12.3+ (Monterey and later)",
        Platform::Windows => "Windows Native System Audio (Cap's Approach):\n1. No setup required! WASAPI loopback is built into Windows\n2. Your application can capture system audio directly\n\n✅ No Stereo Mix configuration needed!\n✅ Uses WASAPI loopback for direct system audio capture\n✅ Available on Windows Vista and later",
        Platform::Linux => "Linux Native System Audio (Cap's Approach):\n1. No setup required for most distributions!\n2. Uses PipeWire or PulseAudio monitor sources\n3. If needed, check available sources: pactl list sources short\n\n✅ No manual loopback configuration needed!\n✅ Uses native monitor sources for direct system audio capture\n✅ Works with PipeWire and PulseAudio",
        Platform::Unknown => "Native system audio capture not supported on this platform",
    }
}

} // verus!
