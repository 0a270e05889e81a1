//! What a platform can capture, as far as that follows from which platform
//! it is and from what a probe of its devices found.

use crate::error::CaptureResult;
use crate::screencapturekit::{is_screencapturekit_available, version_supports_screencapturekit};
use crate::text::{chars_of, field_end, field_len, same_text, trim_range, trimmed, Trim};
use vstd::prelude::*;
use vstd::string::*;

verus! {

/// Platform types.
#[derive(Debug, Clone, Copy, PartialEq, Eq, Structural)]
pub enum Platform {
    MacOS,
    Windows,
    Linux,
    Unknown,
}

/// Permission state.
#[derive(Debug, Clone, Copy, PartialEq, Eq, Structural)]
pub enum Permission {
    Granted,
    Denied,
    NotDetermined,
    NotRequired,
}

/// Permission status.
#[derive(Debug, Clone, Copy, PartialEq, Eq, Structural)]
pub struct PermissionStatus {
    /// Microphone permission
    pub microphone: Permission,
    /// Screen recording permission
    pub screen_recording: Permission,
    /// System audio permission (macOS only)
    pub system_audio: Permission,
}

/// Audio capabilities.
#[derive(Debug, Clone, PartialEq, Eq)]
pub struct AudioCapabilities {
    /// System audio capture supported
    pub system_audio: bool,
    /// Microphone capture supported
    pub microphone: bool,
    /// Available sample rates
    pub sample_rates: Vec<u32>,
    /// Supported audio formats
    pub formats: Vec<String>,
    /// Number of available input devices
    pub input_devices: usize,
    /// Number of available output devices
    pub output_devices: usize,
}

/// Screen capture capabilities.
#[derive(Debug, PartialEq, Eq)]
pub struct ScreenCapabilities {
    /// Screen capture supported
    pub supported: bool,
    /// Number of available displays
    pub display_count: usize,
    /// Window capture supported
    pub window_capture: bool,
    /// Maximum resolution supported
    pub max_resolution: Option<(u32, u32)>,
    /// Supported frame rates
    pub frame_rates: Vec<u32>,
}

/// Platform capabilities information.
#[derive(Debug, PartialEq, Eq)]
pub struct PlatformCapabilities {
    /// Operating system
    pub platform: Platform,
    /// Audio capture capabilities
    pub audio: AudioCapabilities,
    /// Screen capture capabilities
    pub screen: ScreenCapabilities,
    /// System version
    pub system_version: String,
    /// Available permissions
    pub permissions: PermissionStatus,
    /// ScreenCaptureKit availability (macOS only)
    pub screencapturekit: bool,
}

/// What a probe of the machine found: the platform, the number of audio
/// devices, and the version texts that the system reports.
#[derive(Debug, Clone, PartialEq, Eq)]
pub struct PlatformProbe {
    /// The platform the library runs on
    pub platform: Platform,
    /// Number of audio input devices found
    pub input_devices: usize,
    /// Number of audio output devices found
    pub output_devices: usize,
    /// What the system says of itself: the output of the product version
    /// command on macOS, the operating system description on Linux;
    /// nothing elsewhere or where it could not be had
    pub system_report: Option<String>,
}

impl Platform {
    /// The name of the platform.
    pub open spec fn name(self) -> Seq<char> {
        match self {
            Platform::MacOS => "macOS"@,
            Platform::Windows => "Windows"@,
            Platform::Linux => "Linux"@,
            Platform::Unknown => "Unknown"@,
        }
    }

    /// Whether this is one of the three platforms that capture is written
    /// for.
    pub open spec fn is_known(self) -> bool {
        !(self is Unknown)
    }

    /// Renders the platform's name.
    pub fn to_string(&self) -> (res: String)
        ensures
            res@ == self.name(),
    {
        match self {
            Platform::MacOS => String::from_str("macOS"),
            Platform::Windows => String::from_str("Windows"),
            Platform::Linux => String::from_str("Linux"),
            Platform::Unknown => String::from_str("Unknown"),
        }
    }
}

/// The platform that the operating system name `os` stands for.
pub open spec fn platform_of(os: Seq<char>) -> Platform {
    if os == "macos"@ {
        Platform::MacOS
    } else if os == "windows"@ {
        Platform::Windows
    } else if os == "linux"@ {
        Platform::Linux
    } else {
        Platform::Unknown
    }
}

/// Detect the platform from the name of the operating system that the
/// library was built for.
pub fn detect_platform(os: &str) -> (res: Platform)
    ensures
        res == platform_of(os@),
{
    if same_text(os, "macos") {
        Platform::MacOS
    } else if same_text(os, "windows") {
        Platform::Windows
    } else if same_text(os, "linux") {
        Platform::Linux
    } else {
        Platform::Unknown
    }
}

/// Check if system audio capture is supported.
pub fn supports_system_audio(platform: Platform) -> (res: bool)
    ensures
        res == platform.is_known(),
{
    match platform {
        Platform::MacOS => true,
        Platform::Windows => true,
        Platform::Linux => true,
        Platform::Unknown => false,
    }
}

/// Check if screen capture is supported.
pub fn supports_screen_capture(platform: Platform) -> (res: bool)
    ensures
        res == platform.is_known(),
{
    match platform {
        Platform::Unknown => false,
        _ => true,
    }
}

/// Check if window capture is supported.
pub fn supports_window_capture(platform: Platform) -> (res: bool)
    ensures
        res == platform.is_known(),
{
    supports_screen_capture(platform)
}

/// Get number of displays.
pub fn get_display_count() -> (res: usize)
    ensures
        res == 1,
{
    1
}

/// Get maximum resolution.
pub fn get_max_resolution() -> (res: Option<(u32, u32)>)
    ensures
        res == Some((3840u32, 2160u32)),
{
    Some((3840, 2160))
}

/// Check microphone permission.
pub fn check_microphone_permission() -> (res: Permission)
    ensures
        res == Permission::NotDetermined,
{
    Permission::NotDetermined
}

/// Check screen recording permission.
pub fn check_screen_recording_permission() -> (res: Permission)
    ensures
        res == Permission::NotDetermined,
{
    Permission::NotDetermined
}

/// Check system audio permission: undetermined on macOS, not required
/// elsewhere.
pub fn check_system_audio_permission(platform: Platform) -> (res: Permission)
    ensures
        res == if platform is MacOS {
            Permission::NotDetermined
        } else {
            Permission::NotRequired
        },
{
    match platform {
        Platform::MacOS => Permission::NotDetermined,
        _ => Permission::NotRequired,
    }
}

/// Get current permission status.
pub fn get_permission_status(platform: Platform) -> (res: PermissionStatus)
    ensures
        res == (PermissionStatus {
            microphone: Permission::NotDetermined,
            screen_recording: Permission::NotDetermined,
            system_audio: if platform is MacOS {
                Permission::NotDetermined
            } else {
                Permission::NotRequired
            },
        }),
{
    PermissionStatus {
        microphone: check_microphone_permission(),
        screen_recording: check_screen_recording_permission(),
        system_audio: check_system_audio_permission(platform),
    }
}

/// The texts held by a list of strings.
pub open spec fn texts(list: Seq<String>) -> Seq<Seq<char>> {
    list.map_values(|t: String| t@)
}

/// Get audio capabilities for the current platform, given the number of
/// audio devices found.
pub fn get_audio_capabilities(platform: Platform, input_devices: usize, output_devices: usize) -> (res:
    AudioCapabilities)
    ensures
        res.system_audio == platform.is_known(),
        res.microphone == (input_devices > 0),
        res.sample_rates@ == seq![44100u32, 48000u32, 96000u32],
        texts(res.formats@) == seq!["PCM"@, "AAC"@, "MP3"@],
        res.input_devices == input_devices,
        res.output_devices == output_devices,
{
    let mut sample_rates: Vec<u32> = Vec::new();
    sample_rates.push(44100);
    sample_rates.push(48000);
    sample_rates.push(96000);
    let mut formats: Vec<String> = Vec::new();
    formats.push(String::from_str("PCM"));
    formats.push(String::from_str("AAC"));
    formats.push(String::from_str("MP3"));
    assert(sample_rates@ =~= seq![44100u32, 48000u32, 96000u32]);
    assert(texts(formats@) =~= seq!["PCM"@, "AAC"@, "MP3"@]);
    AudioCapabilities {
        system_audio: supports_system_audio(platform),
        microphone: input_devices > 0,
        sample_rates,
        formats,
        input_devices,
        output_devices,
    }
}

/// Get screen capture capabilities for the current platform.
pub fn get_screen_capabilities(platform: Platform) -> (res: ScreenCapabilities)
    ensures
        res.supported == platform.is_known(),
        res.display_count == 1,
        res.window_capture == platform.is_known(),
        res.max_resolution == Some((3840u32, 2160u32)),
        res.frame_rates@ == seq![15u32, 30u32, 60u32],
{
    let mut frame_rates: Vec<u32> = Vec::new();
    frame_rates.push(15);
    frame_rates.push(30);
    frame_rates.push(60);
    assert(frame_rates@ =~= seq![15u32, 30u32, 60u32]);
    ScreenCapabilities {
        supported: supports_screen_capture(platform),
        display_count: get_display_count(),
        window_capture: supports_window_capture(platform),
        max_resolution: get_max_resolution(),
        frame_rates,
    }
}

/// Get platform capabilities from what a probe of the machine found.
pub fn get_platform_capabilities(probe: PlatformProbe) -> (res: PlatformCapabilities)
    ensures
        res.platform == probe.platform,
        res.audio.system_audio == probe.platform.is_known(),
        res.audio.microphone == (probe.input_devices > 0),
        res.audio.sample_rates@ == seq![44100u32, 48000u32, 96000u32],
        texts(res.audio.formats@) == seq!["PCM"@, "AAC"@, "MP3"@],
        res.audio.input_devices == probe.input_devices,
        res.audio.output_devices == probe.output_devices,
        res.screen.supported == probe.platform.is_known(),
        res.screen.display_count == 1,
        res.screen.window_capture == probe.platform.is_known(),
        res.screen.max_resolution == Some((3840u32, 2160u32)),
        res.screen.frame_rates@ == seq![15u32, 30u32, 60u32],
        res.system_version@ == system_version_text(probe.platform, report_text(probe.system_report)),
        res.permissions == (PermissionStatus {
            microphone: Permission::NotDetermined,
            screen_recording: Permission::NotDetermined,
            system_audio: if probe.platform is MacOS {
                Permission::NotDetermined
            } else {
                Permission::NotRequired
            },
        }),
        res.screencapturekit == (probe.platform is MacOS && version_supports_screencapturekit(
            match probe.system_report {
                Some(text) => text@,
                None => Seq::empty(),
            },
        )),
{
    let platform = probe.platform;
    let (system_version, screencapturekit) = match &probe.system_report {
        Some(report) => (
            get_system_version(platform, Some(report.as_str())),
            is_screencapturekit_available(platform, report.as_str()),
        ),
        None => {
            proof {
                reveal_strlit("");
            }
            (get_system_version(platform, None), is_screencapturekit_available(platform, ""))
        },
    };
    PlatformCapabilities {
        audio: get_audio_capabilities(platform, probe.input_devices, probe.output_devices),
        screen: get_screen_capabilities(platform),
        system_version,
        permissions: get_permission_status(platform),
        screencapturekit,
        platform,
    }
}

/// The text of an optional report.
pub open spec fn report_text(report: Option<String>) -> Option<Seq<char>> {
    match report {
        Some(text) => Some(text@),
        None => None,
    }
}

/// Request microphone permission: no platform needs an explicit request,
/// so the request is granted everywhere.
pub fn request_microphone_permission() -> (res: CaptureResult<bool>)
    ensures
        res == Ok::<bool, crate::error::CaptureError>(true),
{
    Ok(true)
}

/// Request screen recording permission: no platform needs an explicit
/// request here, so the request is granted everywhere.
pub fn request_screen_recording_permission() -> (res: CaptureResult<bool>)
    ensures
        res == Ok::<bool, crate::error::CaptureError>(true),
{
    Ok(true)
}

/// The first line of `text`: what stands in front of its first line feed,
/// without the carriage return that belongs to the line's end.
pub open spec fn first_line(text: Seq<char>) -> Seq<char> {
    let end = field_len(text, '\n');
    if 0 < end < text.len() && text[end - 1] == '\r' {
        text.take(end - 1)
    } else {
        text.take(end)
    }
}

/// Whether `text` starts with `prefix`.
pub open spec fn has_prefix(text: Seq<char>, prefix: Seq<char>) -> bool {
    prefix.len() <= text.len() && text.take(prefix.len() as int) == prefix
}

/// The value that a line of the form `NAME=value` gives to its name of
/// `name_len` characters: what stands between the first equals sign and
/// the next, without the double quotes around it.
pub open spec fn assigned_value(line: Seq<char>, name_len: int) -> Seq<char> {
    let rest = line.skip(name_len + 1);
    trimmed(rest.take(field_len(rest, '=')), Trim::Quote)
}

/// The pretty name that an operating system description states: the value
/// of the first line that starts with `PRETTY_NAME=`. `at_line_start`
/// says whether `content` starts at the start of a line.
pub open spec fn pretty_name(content: Seq<char>, at_line_start: bool) -> Option<Seq<char>>
    decreases content.len(),
{
    if content.len() == 0 {
        None
    } else if at_line_start && has_prefix(first_line(content), "PRETTY_NAME="@) {
        Some(assigned_value(first_line(content), 11))
    } else {
        pretty_name(content.drop_first(), content.first() == '\n')
    }
}

/// The system version that is reported on `platform`, given what the
/// system says of itself: on macOS the reported product version without
/// the white space around it; on Linux the pretty name of the operating
/// system description; and a fixed name where the system says nothing or
/// is not asked.
pub open spec fn system_version_text(platform: Platform, report: Option<Seq<char>>) -> Seq<char> {
    match platform {
        Platform::MacOS => match report {
            Some(text) => trimmed(text, Trim::Space),
            None => "Unknown"@,
        },
        Platform::Windows => "Windows"@,
        Platform::Linux => match report {
            Some(content) => match pretty_name(content, true) {
                Some(name) => name,
                None => "Linux"@,
            },
            None => "Linux"@,
        },
        Platform::Unknown => "Unknown"@,
    }
}

/// Whether the characters from `from` up to `to` start with `prefix`.
fn starts_with(text: &Vec<char>, from: usize, to: usize, prefix: &Vec<char>) -> (res: bool)
    requires
        from <= to <= text@.len(),
    ensures
        res == has_prefix(text@.subrange(from as int, to as int), prefix@),
{
    let ghost part = text@.subrange(from as int, to as int);
    if prefix.len() > to - from {
        return false;
    }
    let mut k: usize = 0;
    while k < prefix.len()
        invariant
            k <= prefix@.len() <= to - from,
            from <= to <= text@.len(),
            part == text@.subrange(from as int, to as int),
            forall|j: int| 0 <= j < k ==> part[j] == prefix@[j],
        decreases prefix@.len() - k,
    {
        if text[from + k] != prefix[k] {
            assert(part[k as int] == text@[from + k]);
            assert(part.take(prefix@.len() as int)[k as int] != prefix@[k as int]);
            return false;
        }
        assert(part[k as int] == text@[from + k]);
        k += 1;
    }
    assert(part.take(prefix@.len() as int) =~= prefix@);
    true
}

/// Finds the pretty name in an operating system description.
fn find_pretty_name(content: &str) -> (res: Option<String>)
    ensures
        res is Some <==> pretty_name(content@, true) is Some,
        res matches Some(name) ==> Some(name@) == pretty_name(content@, true),
{
    let text = chars_of(content);
    let prefix = chars_of("PRETTY_NAME=");
    proof {
        reveal_strlit("PRETTY_NAME=");
    }
    let len = text.len();
    let mut at_line_start = true;
    let mut i: usize = 0;
    assert(text@.skip(0) =~= text@);
    while i < len
        invariant
            i <= len,
            len == text@.len(),
            text@ == content@,
            prefix@ == "PRETTY_NAME="@,
            prefix@.len() == 12,
            pretty_name(text@, true) == pretty_name(text@.skip(i as int), at_line_start),
        decreases len - i,
    {
        let ghost rest = text@.skip(i as int);
        assert(rest =~= text@.subrange(i as int, len as int));
        if at_line_start {
            let end = field_end(&text, i, len, '\n');
            let line_to = if end < len && end > i && text[end - 1] == '\r' {
                end - 1
            } else {
                end
            };
            proof {
                if 0 < end - i < rest.len() {
                    assert(rest[end - i - 1] == text@[end - 1]);
                }
                assert(first_line(rest) =~= text@.subrange(i as int, line_to as int));
            }
            if starts_with(&text, i, line_to, &prefix) {
                let value_from = i + 12;
                let value_to = field_end(&text, value_from, line_to, '=');
                let (from, to) = trim_range(&text, value_from, value_to, Trim::Quote);
                proof {
                    let line = first_line(rest);
                    let behind = line.skip(12);
                    assert(behind =~= text@.subrange(value_from as int, line_to as int));
                    assert(behind.take(field_len(behind, '=')) =~= text@.subrange(
                        value_from as int,
                        value_to as int,
                    ));
                }
                let name = content.substring_char(from, to);
                return Some(String::from_str(name));
            }
        }
        proof {
            assert(rest.drop_first() =~= text@.skip(i + 1));
            assert(rest.first() == text@[i as int]);
        }
        at_line_start = text[i] == '\n';
        i += 1;
    }
    proof {
        assert(text@.skip(len as int).len() == 0);
    }
    None
}

/// Get system version string from what the system says of itself: the
/// output of the product version command on macOS, the operating system
/// description on Linux, nothing elsewhere or where it could not be had.
pub fn get_system_version(platform: Platform, report: Option<&str>) -> (res: String)
    ensures
        res@ == system_version_text(
            platform,
            match report {
                Some(text) => Some(text@),
                None => None,
            },
        ),
{
    match platform {
        Platform::MacOS => match report {
            Some(output) => {
                let text = chars_of(output);
                let (from, to) = trim_range(&text, 0, text.len(), Trim::Space);
                assert(text@.subrange(0, text@.len() as int) =~= text@);
                String::from_str(output.substring_char(from, to))
            },
            None => String::from_str("Unknown"),
        },
        Platform::Windows => String::from_str("Windows"),
        Platform::Linux => match report {
            Some(content) => match find_pretty_name(content) {
                Some(name) => name,
                None => String::from_str("Linux"),
            },
            None => String::from_str("Linux"),
        },
        Platform::Unknown => String::from_str("Unknown"),
    }
}

} // verus!
