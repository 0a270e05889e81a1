//! Audio capture: devices and segments as values, the buffer that cuts a
//! captured stream into segments, the choice of a system audio device by
//! its name, and the conversion of samples to bytes.
//!
//! A sample is held as the bit pattern of a 32-bit float.

use crate::config::{AudioCaptureConfig, AudioFormat};
use crate::error::{AudioError, CaptureError, CaptureResult};
use crate::platform::Platform;
use crate::text::chars_of;
use vstd::prelude::*;
use vstd::string::*;

verus! {

/// Audio device type.
#[derive(Debug, Clone, Copy, PartialEq, Eq, Structural)]
pub enum AudioDeviceType {
    Input,
    Output,
}

/// Audio source type.
#[derive(Debug, Clone, Copy, PartialEq, Eq, Structural)]
pub enum AudioSource {
    Microphone,
    SystemAudio,
    Mixed,
}

/// Audio device information.
#[derive(Debug, PartialEq, Eq)]
pub struct AudioDevice {
    /// Device ID
    pub id: String,
    /// Device name
    pub name: String,
    /// Device type (input/output)
    pub device_type: AudioDeviceType,
    /// Default device
    pub is_default: bool,
    /// Supported sample rates
    pub sample_rates: Vec<u32>,
    /// Supported channel counts
    pub channels: Vec<u16>,
}

/// Audio segment data.
#[derive(Debug, PartialEq, Eq)]
pub struct AudioSegment {
    /// Raw audio data, one bit pattern per sample
    pub data: Vec<u32>,
    /// Sample rate
    pub sample_rate: u32,
    /// Number of channels
    pub channels: u16,
    /// Timestamp in milliseconds
    pub timestamp: u64,
    /// Duration in milliseconds
    pub duration_ms: u32,
    /// Audio source type
    pub source: AudioSource,
}

/// What an [`AudioDevice`] says.
pub struct AudioDeviceView {
    pub id: Seq<char>,
    pub name: Seq<char>,
    pub device_type: AudioDeviceType,
    pub is_default: bool,
    pub sample_rates: Seq<u32>,
    pub channels: Seq<u16>,
}

impl View for AudioDevice {
    type V = AudioDeviceView;

    open spec fn view(&self) -> AudioDeviceView {
        AudioDeviceView {
            id: self.id@,
            name: self.name@,
            device_type: self.device_type,
            is_default: self.is_default,
            sample_rates: self.sample_rates@,
            channels: self.channels@,
        }
    }
}

/// The views of a list of devices.
pub open spec fn device_views(devices: Seq<AudioDevice>) -> Seq<AudioDeviceView> {
    devices.map_values(|d: AudioDevice| d@)
}

/// The text of an optional string.
pub open spec fn optional_text(value: Option<String>) -> Option<Seq<char>> {
    match value {
        Some(text) => Some(text@),
        None => None,
    }
}

/// The device that is listed for a device of the given name and type:
/// identified by its name, default where the default device has the same
/// name, with the rates 44.1 and 48 kHz and one or two channels.
pub open spec fn listed_device(
    name: Seq<char>,
    device_type: AudioDeviceType,
    default_name: Option<Seq<char>>,
) -> AudioDeviceView {
    AudioDeviceView {
        id: name,
        name,
        device_type,
        is_default: default_name == Some(name),
        sample_rates: seq![44100u32, 48000u32],
        channels: seq![1u16, 2u16],
    }
}

/// The devices that are listed for the given names: the input devices in
/// order, then the output devices in order.
pub open spec fn listed_devices(
    input_names: Seq<String>,
    default_input: Option<Seq<char>>,
    output_names: Seq<String>,
    default_output: Option<Seq<char>>,
) -> Seq<AudioDeviceView> {
    input_names.map_values(|n: String| listed_device(n@, AudioDeviceType::Input, default_input))
        + output_names.map_values(
        |n: String| listed_device(n@, AudioDeviceType::Output, default_output),
    )
}

/// Lists the devices of one type.
fn push_devices(
    devices: &mut Vec<AudioDevice>,
    names: &Vec<String>,
    device_type: AudioDeviceType,
    default_name: &Option<String>,
)
    ensures
        device_views(final(devices)@) == device_views(old(devices)@) + names@.map_values(
            |n: String| listed_device(n@, device_type, optional_text(*default_name)),
        ),
{
    let ghost wanted = names@.map_values(
        |n: String| listed_device(n@, device_type, optional_text(*default_name)),
    );
    let mut i: usize = 0;
    assert(device_views(devices@) =~= device_views(old(devices)@) + wanted.take(0));
    while i < names.len()
        invariant
            i <= names@.len(),
            wanted == names@.map_values(
                |n: String| listed_device(n@, device_type, optional_text(*default_name)),
            ),
            device_views(devices@) == device_views(old(devices)@) + wanted.take(i as int),
        decreases names@.len() - i,
    {
        let name = names[i].clone();
        let is_default = match default_name {
            Some(default) => *default == name,
            None => false,
        };
        let mut sample_rates: Vec<u32> = Vec::new();
        sample_rates.push(44100);
        sample_rates.push(48000);
        let mut channels: Vec<u16> = Vec::new();
        channels.push(1);
        channels.push(2);
        let device = AudioDevice {
            id: name.clone(),
            name,
            device_type,
            is_default,
            sample_rates,
            channels,
        };
        let ghost before = devices@;
        devices.push(device);
        i += 1;
        proof {
            assert(device.sample_rates@ =~= seq![44100u32, 48000u32]);
            assert(device.channels@ =~= seq![1u16, 2u16]);
            assert(device_views(devices@) =~= device_views(before).push(device@));
            assert(device_views(devices@) =~= device_views(old(devices)@) + wanted.take(i as int));
        }
    }
    assert(wanted.take(names@.len() as int) =~= wanted);
}

/// Get available audio devices from the names that the audio host
/// reports: the input devices, then the output devices, each marked as
/// default where it has the name of the default device of its type.
pub fn get_available_devices(
    input_names: &Vec<String>,
    default_input: &Option<String>,
    output_names: &Vec<String>,
    default_output: &Option<String>,
) -> (res: CaptureResult<Vec<AudioDevice>>)
    ensures
        res matches Ok(devices) && device_views(devices@) == listed_devices(
            input_names@,
            optional_text(*default_input),
            output_names@,
            optional_text(*default_output),
        ),
{
    let mut devices: Vec<AudioDevice> = Vec::new();
    push_devices(&mut devices, input_names, AudioDeviceType::Input, default_input);
    push_devices(&mut devices, output_names, AudioDeviceType::Output, default_output);
    assert(device_views(devices@) =~= listed_devices(
        input_names@,
        optional_text(*default_input),
        output_names@,
        optional_text(*default_output),
    ));
    Ok(devices)
}

/// Whether `pattern` occurs in `text` at position `at`.
pub open spec fn occurs_at(text: Seq<char>, pattern: Seq<char>, at: int) -> bool {
    0 <= at && at + pattern.len() <= text.len() && text.subrange(at, at + pattern.len()) == pattern
}

/// Whether `pattern` occurs somewhere in `text`.
pub open spec fn has_substring(text: Seq<char>, pattern: Seq<char>) -> bool {
    exists|at: int| occurs_at(text, pattern, at)
}

/// Whether `pattern` occurs somewhere in `text`.
pub fn contains_text(text: &Vec<char>, pattern: &Vec<char>) -> (res: bool)
    ensures
        res == has_substring(text@, pattern@),
{
    if pattern.len() > text.len() {
        assert(forall|at: int| !occurs_at(text@, pattern@, at));
        return false;
    }
    if pattern.len() == 0 {
        assert(text@.subrange(0, 0) =~= pattern@);
        assert(occurs_at(text@, pattern@, 0));
        return true;
    }
    let size = text.len();
    let last = size - pattern.len();
    let mut at: usize = 0;
    while at <= last
        invariant
            at <= last + 1,
            size == text@.len(),
            0 < pattern@.len() <= size,
            last == size - pattern@.len(),
            forall|k: int| 0 <= k < at ==> !occurs_at(text@, pattern@, k),
        decreases last + 1 - at,
    {
        let mut j: usize = 0;
        while j < pattern.len() && text[at + j] == pattern[j]
            invariant
                j <= pattern@.len(),
                at <= last,
                size == text@.len(),
                0 < pattern@.len() <= size,
                last == size - pattern@.len(),
                forall|k: int| 0 <= k < j ==> text@[at + k] == pattern@[k],
            decreases pattern@.len() - j,
        {
            j += 1;
        }
        if j == pattern.len() {
            assert(text@.subrange(at as int, at + pattern@.len()) =~= pattern@);
            assert(occurs_at(text@, pattern@, at as int));
            return true;
        }
        assert(!occurs_at(text@, pattern@, at as int)) by {
            if occurs_at(text@, pattern@, at as int) {
                assert(text@.subrange(at as int, at + pattern@.len())[j as int] == pattern@[j as int]);
            }
        }
        at += 1;
    }
    assert(forall|k: int| !occurs_at(text@, pattern@, k));
    false
}

/// The lower-case form of a text, as the standard library's
/// `str::to_lowercase` gives it.
pub uninterp spec fn lowercase_text(text: Seq<char>) -> Seq<char>;

/// The lower-case equivalent of `text`, from `str::to_lowercase` of the
/// standard library. The result is named, not described: it follows the
/// case mapping of Unicode.
#[verifier::external_body]
fn to_lowercase(text: &str) -> (res: String)
    ensures
        res@ == lowercase_text(text@),
{
    text.to_lowercase()
}

/// Whether a device whose name reads `lowered` in lower case is taken
/// for a source of system audio on `platform`: a virtual audio driver on
/// macOS, a loopback device on Windows, a monitor of an output on Linux.
pub open spec fn names_system_audio(platform: Platform, lowered: Seq<char>) -> bool {
    match platform {
        Platform::MacOS => has_substring(lowered, "blackhole"@) || has_substring(
            lowered,
            "soundflower"@,
        ) || has_substring(lowered, "virtual"@),
        Platform::Windows => has_substring(lowered, "stereo mix"@) || has_substring(
            lowered,
            "what u hear"@,
        ) || has_substring(lowered, "loopback"@) || has_substring(lowered, "wave out mix"@),
        Platform::Linux => has_substring(lowered, "monitor"@) || has_substring(lowered, "output"@)
            || has_substring(lowered, "sink"@) || has_substring(lowered, "loopback"@),
        Platform::Unknown => false,
    }
}

/// Whether `lowered` holds `keyword`.
fn holds_keyword(lowered: &Vec<char>, keyword: &str) -> (res: bool)
    ensures
        res == has_substring(lowered@, keyword@),
{
    let pattern = chars_of(keyword);
    contains_text(lowered, &pattern)
}

/// Whether a device of the given name is taken for a source of system
/// audio on `platform`, judged by the lower-case form of its name.
pub fn is_system_audio_device(platform: Platform, name: &str) -> (res: bool)
    ensures
        res == names_system_audio(platform, lowercase_text(name@)),
{
    let lowered_name = to_lowercase(name);
    let lowered = chars_of(lowered_name.as_str());
    match platform {
        Platform::MacOS => holds_keyword(&lowered, "blackhole") || holds_keyword(
            &lowered,
            "soundflower",
        ) || holds_keyword(&lowered, "virtual"),
        Platform::Windows => holds_keyword(&lowered, "stereo mix") || holds_keyword(
            &lowered,
            "what u hear",
        ) || holds_keyword(&lowered, "loopback") || holds_keyword(&lowered, "wave out mix"),
        Platform::Linux => holds_keyword(&lowered, "monitor") || holds_keyword(&lowered, "output")
            || holds_keyword(&lowered, "sink") || holds_keyword(&lowered, "loopback"),
        Platform::Unknown => false,
    }
}

/// The first of the named devices that is taken for a source of system
/// audio on `platform`, if there is one.
pub fn find_system_audio_device(platform: Platform, names: &Vec<String>) -> (res: Option<usize>)
    ensures
        res matches Some(found) ==> {
            &&& found < names@.len()
            &&& names_system_audio(platform, lowercase_text(names@[found as int]@))
            &&& forall|k: int|
                0 <= k < found ==> !names_system_audio(
                    platform,
                    lowercase_text((#[trigger] names@[k])@),
                )
        },
        res is None ==> forall|k: int|
            0 <= k < names@.len() ==> !names_system_audio(
                platform,
                lowercase_text((#[trigger] names@[k])@),
            ),
{
    let mut i: usize = 0;
    while i < names.len()
        invariant
            i <= names@.len(),
            forall|k: int|
                0 <= k < i ==> !names_system_audio(
                    platform,
                    lowercase_text((#[trigger] names@[k])@),
                ),
        decreases names@.len() - i,
    {
        if is_system_audio_device(platform, names[i].as_str()) {
            return Some(i);
        }
        i += 1;
    }
    None
}

/// The four bytes of a sample, least significant first.
pub open spec fn sample_bytes(sample: u32) -> Seq<u8> {
    seq![
        (sample % 256) as u8,
        ((sample / 256) % 256) as u8,
        ((sample / 65536) % 256) as u8,
        (sample / 16777216) as u8,
    ]
}

/// The raw form of samples: the four bytes of each sample, least
/// significant first, sample after sample.
pub open spec fn raw_bytes(samples: Seq<u32>) -> Seq<u8> {
    Seq::new(samples.len() * 4, |i: int| sample_bytes(samples[i / 4])[i % 4])
}

/// Writes samples in raw form.
pub fn encode_raw(pcm_data: &[u32]) -> (res: Vec<u8>)
    ensures
        res@ == raw_bytes(pcm_data@),
{
    let mut res: Vec<u8> = Vec::new();
    let mut i: usize = 0;
    while i < pcm_data.len()
        invariant
            i <= pcm_data@.len(),
            res@.len() == 4 * i,
            forall|k: int| 0 <= k < 4 * i ==> res@[k] == sample_bytes(pcm_data@[k / 4])[k % 4],
        decreases pcm_data@.len() - i,
    {
        let sample = pcm_data[i];
        res.push((sample % 256) as u8);
        res.push(((sample / 256) % 256) as u8);
        res.push(((sample / 65536) % 256) as u8);
        res.push((sample / 16777216) as u8);
        i += 1;
    }
    assert(res@ =~= raw_bytes(pcm_data@));
    res
}

/// The WAVE file that `hound` writes for 32-bit float samples of the
/// given bit patterns, channel count and sample rate.
pub uninterp spec fn wav_image(channels: u16, sample_rate: u32, samples: Seq<u32>) -> Seq<u8>;

/// Whether `hound` can write `count` 32-bit samples with this channel
/// count and sample rate without leaving the range of the 32-bit sizes
/// that a WAVE header holds.
pub open spec fn wav_writable(channels: u16, sample_rate: u32, count: nat) -> bool {
    &&& channels > 0
    &&& sample_rate > 0
    &&& sample_rate * 4 * channels <= u32::MAX
    &&& 4 * count + 60 <= u32::MAX
}

/// Writes a WAVE file in memory with `hound::WavWriter`: a header for
/// 32-bit IEEE float samples, then every sample through `write_sample`,
/// then `finalize`. Each sample is handed over as the 32-bit integer with
/// its bit pattern, which `hound` writes as the same four bytes as the
/// float.
///
/// As `hound`'s source shows, writing into memory fails only in
/// `finalize`, and there exactly where the number of samples is not a
/// multiple of the channel count. The file itself is named, not
/// described.
#[verifier::external_body]
fn write_wav(channels: u16, sample_rate: u32, samples: &[u32]) -> (res: Result<Vec<u8>, String>)
    requires
        wav_writable(channels, sample_rate, samples@.len()),
    ensures
        res is Ok <==> samples@.len() % (channels as nat) == 0,
        res matches Ok(bytes) ==> bytes@ == wav_image(channels, sample_rate, samples@),
{
    let spec = hound::WavSpec {
        channels,
        sample_rate,
        bits_per_sample: 32,
        sample_format: hound::SampleFormat::Float,
    };
    let mut cursor = std::io::Cursor::new(Vec::new());
    let mut writer = hound::WavWriter::new(&mut cursor, spec).map_err(|e| e.to_string())?;
    for sample in samples {
        writer.write_sample(*sample as i32).map_err(|e| e.to_string())?;
    }
    writer.finalize().map_err(|e| e.to_string())?;
    Ok(cursor.into_inner())
}

/// Whether the WAVE encoder can be asked for these samples.
fn can_write_wav(channels: u16, sample_rate: u32, count: usize) -> (res: bool)
    ensures
        res == wav_writable(channels, sample_rate, count as nat),
{
    if channels == 0 || sample_rate == 0 {
        return false;
    }
    assert(0 <= sample_rate * 4 * channels <= 0xFFFF_FFFF * 4 * 0xFFFF) by (nonlinear_arith)
        requires
            0 <= sample_rate <= 0xFFFF_FFFF,
            0 <= channels <= 0xFFFF,
    ;
    let bytes_per_second: u64 = (sample_rate as u64) * 4 * (channels as u64);
    let data: u128 = 4 * (count as u128) + 60;
    bytes_per_second <= u32::MAX as u64 && data <= u32::MAX as u128
}

/// What the conversion of samples gives where it succeeds.
pub open spec fn converted(config: AudioCaptureConfig, samples: Seq<u32>, format: AudioFormat) -> Option<
    Seq<u8>,
> {
    match format {
        AudioFormat::Raw => Some(raw_bytes(samples)),
        AudioFormat::Wav => if wav_writable(config.channels, config.sample_rate, samples.len())
            && samples.len() % (config.channels as nat) == 0 {
            Some(wav_image(config.channels, config.sample_rate, samples))
        } else {
            None
        },
        AudioFormat::Mp3 => None,
        AudioFormat::Aac => None,
    }
}

/// Audio processor: the configuration and the running state of an audio
/// capture, and the conversion of captured samples.
#[derive(Debug)]
pub struct AudioProcessor {
    config: AudioCaptureConfig,
    is_running: bool,
}

impl AudioProcessor {
    /// The configuration of the capture.
    pub closed spec fn config(&self) -> AudioCaptureConfig {
        self.config
    }

    /// Whether the capture is running.
    pub closed spec fn running(&self) -> bool {
        self.is_running
    }

    /// Create a new audio processor, not running.
    pub fn new(config: AudioCaptureConfig) -> (res: CaptureResult<Self>)
        ensures
            res matches Ok(processor) && processor.config() == config && !processor.running(),
    {
        Ok(AudioProcessor { config, is_running: false })
    }

    /// Whether the capture is running.
    pub fn is_running(&self) -> (res: bool)
        ensures
            res == self.running(),
    {
        self.is_running
    }

    /// Start audio capture: refused while the capture is running; the
    /// capture is running afterwards otherwise.
    pub fn start(&mut self) -> (res: CaptureResult<()>)
        ensures
            final(self).config() == old(self).config(),
            final(self).running(),
            res is Ok <==> !old(self).running(),
            res matches Err(e) ==> e matches CaptureError::Audio(AudioError::InitializationFailed(m))
                && m@ == "Audio processor is already running"@,
    {
        if self.is_running {
            return Err(
                CaptureError::Audio(
                    AudioError::InitializationFailed(
                        String::from_str("Audio processor is already running"),
                    ),
                ),
            );
        }
        self.is_running = true;
        Ok(())
    }

    /// Stop audio capture: the capture is not running afterwards.
    pub fn stop(&mut self) -> (res: CaptureResult<()>)
        ensures
            final(self).config() == old(self).config(),
            !final(self).running(),
            res is Ok,
    {
        self.is_running = false;
        Ok(())
    }

    /// Convert PCM audio to different formats: raw bytes, or a WAVE file
    /// with the configured channel count and sample rate. MP3 and AAC are
    /// not written here. A WAVE file is refused where its sizes would
    /// leave the range a WAVE header holds, and where the samples do not
    /// fill every channel.
    pub fn convert_to_format(&self, pcm_data: &[u32], format: AudioFormat) -> (res: CaptureResult<
        Vec<u8>,
    >)
        ensures
            res is Ok <==> converted(self.config(), pcm_data@, format) is Some,
            res matches Ok(bytes) ==> Some(bytes@) == converted(self.config(), pcm_data@, format),
            res matches Err(e) ==> e matches CaptureError::Audio(AudioError::EncodingError(m)) && (
            match format {
                AudioFormat::Mp3 => m@ == "MP3 encoding not yet implemented. Use WAV or Raw format."@,
                AudioFormat::Aac => m@ == "AAC encoding not yet implemented. Use WAV or Raw format."@,
                AudioFormat::Wav => !wav_writable(
                    self.config().channels,
                    self.config().sample_rate,
                    pcm_data@.len(),
                ) ==> m@ == "Audio does not fit a WAV file"@,
                AudioFormat::Raw => false,
            }),
    {
        match format {
            AudioFormat::Raw => Ok(encode_raw(pcm_data)),
            AudioFormat::Wav => self.encode_wav(pcm_data),
            AudioFormat::Mp3 => self.encode_mp3(pcm_data),
            AudioFormat::Aac => self.encode_aac(pcm_data),
        }
    }

    /// Encode to WAV format.
    fn encode_wav(&self, pcm_data: &[u32]) -> (res: CaptureResult<Vec<u8>>)
        ensures
            res is Ok <==> converted(self.config(), pcm_data@, AudioFormat::Wav) is Some,
            res matches Ok(bytes) ==> Some(bytes@) == converted(
                self.config(),
                pcm_data@,
                AudioFormat::Wav,
            ),
            res matches Err(e) ==> e matches CaptureError::Audio(AudioError::EncodingError(m)) && (
            !wav_writable(self.config().channels, self.config().sample_rate, pcm_data@.len())
                ==> m@ == "Audio does not fit a WAV file"@),
    {
        if !can_write_wav(self.config.channels, self.config.sample_rate, pcm_data.len()) {
            return Err(
                CaptureError::Audio(
                    AudioError::EncodingError(String::from_str("Audio does not fit a WAV file")),
                ),
            );
        }
        match write_wav(self.config.channels, self.config.sample_rate, pcm_data) {
            Ok(bytes) => Ok(bytes),
            Err(message) => Err(CaptureError::Audio(AudioError::EncodingError(message))),
        }
    }

    /// Encode to MP3 format: not implemented.
    fn encode_mp3(&self, _pcm_data: &[u32]) -> (res: CaptureResult<Vec<u8>>)
        ensures
            res matches Err(CaptureError::Audio(AudioError::EncodingError(m))) && m@
                == "MP3 encoding not yet implemented. Use WAV or Raw format."@,
    {
        Err(
            CaptureError::Audio(
                AudioError::EncodingError(
                    String::from_str("MP3 encoding not yet implemented. Use WAV or Raw format."),
                ),
            ),
        )
    }

    /// Encode to AAC format: not implemented.
    fn encode_aac(&self, _pcm_data: &[u32]) -> (res: CaptureResult<Vec<u8>>)
        ensures
            res matches Err(CaptureError::Audio(AudioError::EncodingError(m))) && m@
                == "AAC encoding not yet implemented. Use WAV or Raw format."@,
    {
        Err(
            CaptureError::Audio(
                AudioError::EncodingError(
                    String::from_str("AAC encoding not yet implemented. Use WAV or Raw format."),
                ),
            ),
        )
    }
}

/// The number of samples per channel in a segment of `duration_ms`
/// milliseconds at `sample_rate`.
pub open spec fn segment_samples(sample_rate: u32, duration_ms: u32) -> nat {
    ((sample_rate * duration_ms) / 1000) as nat
}

/// The duration of `samples` samples per channel at `sample_rate`, in
/// whole milliseconds; 0 where the rate is 0.
pub open spec fn samples_duration_ms(samples: nat, sample_rate: u32) -> nat {
    if sample_rate == 0 {
        0
    } else {
        (samples * 1000) / (sample_rate as nat)
    }
}

/// The buffer between a capture stream and its consumer: it collects what
/// the stream delivers and cuts off one segment at a time.
#[derive(Debug)]
pub struct SegmentBuffer {
    buffer: Vec<u32>,
    sample_rate: u32,
    channels: u16,
    samples_per_segment: usize,
    duration_ms: u32,
    source: AudioSource,
}

impl SegmentBuffer {
    /// The samples collected and not yet cut off.
    pub closed spec fn pending(&self) -> Seq<u32> {
        self.buffer@
    }

    /// The number of samples of all channels in one segment.
    pub closed spec fn segment_len(&self) -> nat {
        self.samples_per_segment as nat
    }

    /// Sample rate, channel count, segment duration in milliseconds and
    /// source that every segment is labelled with.
    pub closed spec fn labels(&self) -> (u32, u16, u32, AudioSource) {
        (self.sample_rate, self.channels, self.duration_ms, self.source)
    }

    /// An empty buffer for the segments of a capture with this
    /// configuration. Fails where the size of a segment leaves the range
    /// of the machine's sizes.
    pub fn new(config: &AudioCaptureConfig, source: AudioSource) -> (res: CaptureResult<Self>)
        ensures
            res is Ok <==> segment_samples(config.sample_rate, config.segment_duration_ms)
                * config.channels <= usize::MAX,
            res matches Ok(buffer) ==> {
                &&& buffer.pending() == Seq::<u32>::empty()
                &&& buffer.segment_len() == segment_samples(
                    config.sample_rate,
                    config.segment_duration_ms,
                ) * config.channels
                &&& buffer.labels() == (
                    config.sample_rate,
                    config.channels,
                    samples_duration_ms(
                        segment_samples(config.sample_rate, config.segment_duration_ms),
                        config.sample_rate,
                    ) as u32,
                    source,
                )
            },
            res matches Err(e) ==> e matches CaptureError::Config(m) && m@
                == "Segment duration is too long"@,
    {
        let ghost rate = config.sample_rate as int;
        let ghost asked = config.segment_duration_ms as int;
        assert(0 <= rate * asked <= 0xFFFF_FFFF * 0xFFFF_FFFF) by (nonlinear_arith)
            requires
                0 <= rate <= 0xFFFF_FFFF,
                0 <= asked <= 0xFFFF_FFFF,
        ;
        let product: u64 = (config.sample_rate as u64) * (config.segment_duration_ms as u64);
        let per_channel: u64 = product / 1000;
        assert(0 <= per_channel * config.channels <= 0xFFFF_FFFF_FFFF_FFFF * 0xFFFF)
            by (nonlinear_arith)
            requires
                0 <= per_channel <= 0xFFFF_FFFF_FFFF_FFFF,
                0 <= config.channels <= 0xFFFF,
        ;
        let total: u128 = (per_channel as u128) * (config.channels as u128);
        if total > usize::MAX as u128 {
            return Err(CaptureError::Config(String::from_str("Segment duration is too long")));
        }
        let duration: u64 = if config.sample_rate == 0 {
            0
        } else {
            assert(per_channel * 1000 <= product);
            (per_channel * 1000) / (config.sample_rate as u64)
        };
        proof {
            let scaled = per_channel as int * 1000;
            if rate > 0 {
                let q = scaled / rate;
                vstd::arithmetic::div_mod::lemma_fundamental_div_mod(scaled, rate);
                vstd::arithmetic::div_mod::lemma_mod_bound(scaled, rate);
                assert(rate * q <= rate * asked);
                assert(q <= asked) by (nonlinear_arith)
                    requires
                        rate * q <= rate * asked,
                        rate > 0,
                ;
            }
        }
        Ok(
            SegmentBuffer {
                buffer: Vec::new(),
                sample_rate: config.sample_rate,
                channels: config.channels,
                samples_per_segment: total as usize,
                duration_ms: duration as u32,
                source,
            },
        )
    }

    /// Takes in what the stream delivered at time `now_ms`. Where the
    /// buffer then holds at least a segment's worth of samples, exactly
    /// one segment is cut off its front and handed out, labelled with the
    /// time of delivery.
    pub fn push(&mut self, data: &[u32], now_ms: u64) -> (res: Option<AudioSegment>)
        ensures
            final(self).segment_len() == old(self).segment_len(),
            final(self).labels() == old(self).labels(),
            res is Some <==> old(self).pending().len() + data@.len() >= old(self).segment_len(),
            res is None ==> final(self).pending() == old(self).pending() + data@,
            res matches Some(segment) ==> {
                &&& segment.data@ == (old(self).pending() + data@).take(
                    old(self).segment_len() as int,
                )
                &&& final(self).pending() == (old(self).pending() + data@).skip(
                    old(self).segment_len() as int,
                )
                &&& segment.sample_rate == old(self).labels().0
                &&& segment.channels == old(self).labels().1
                &&& segment.duration_ms == old(self).labels().2
                &&& segment.source == old(self).labels().3
                &&& segment.timestamp == now_ms
            },
    {
        let mut i: usize = 0;
        while i < data.len()
            invariant
                i <= data@.len(),
                self.buffer@ == old(self).buffer@ + data@.take(i as int),
                self.sample_rate == old(self).sample_rate,
                self.channels == old(self).channels,
                self.samples_per_segment == old(self).samples_per_segment,
                self.duration_ms == old(self).duration_ms,
                self.source == old(self).source,
            decreases data@.len() - i,
        {
            self.buffer.push(data[i]);
            i += 1;
            assert(self.buffer@ =~= old(self).buffer@ + data@.take(i as int));
        }
        assert(data@.take(data@.len() as int) =~= data@);
        if self.buffer.len() < self.samples_per_segment {
            return None;
        }
        let ghost all = self.buffer@;
        let mut rest = self.buffer.split_off(self.samples_per_segment);
        std::mem::swap(&mut self.buffer, &mut rest);
        assert(rest@ =~= all.take(self.samples_per_segment as int));
        assert(self.buffer@ =~= all.skip(self.samples_per_segment as int));
        Some(
            AudioSegment {
                data: rest,
                sample_rate: self.sample_rate,
                channels: self.channels,
                timestamp: now_ms,
                duration_ms: self.duration_ms,
                source: self.source,
            },
        )
    }
}

/// The sample whose four bytes, least significant first, start at
/// position `at` of `bytes`.
pub open spec fn sample_at(bytes: Seq<u8>, at: int) -> u32 {
    (bytes[at] + 256 * bytes[at + 1] + 65536 * bytes[at + 2] + 16777216 * bytes[at + 3]) as u32
}

/// The samples that raw bytes hold: one sample for every four bytes.
pub open spec fn samples_of(bytes: Seq<u8>) -> Seq<u32> {
    Seq::new(bytes.len() / 4, |i: int| sample_at(bytes, 4 * i))
}

/// Reads samples from their raw form: little-endian 32-bit values, one
/// after the other. Fails where the bytes do not make whole samples.
pub fn pcm_bytes_to_samples(pcm_data: &[u8]) -> (res: Result<Vec<u32>, String>)
    ensures
        res is Ok <==> pcm_data@.len() % 4 == 0,
        res matches Ok(samples) ==> samples@ == samples_of(pcm_data@),
        res matches Err(m) ==> m@ == "PCM data length must be multiple of 4 bytes"@,
{
    if pcm_data.len() % 4 != 0 {
        return Err(String::from_str("PCM data length must be multiple of 4 bytes"));
    }
    let size = pcm_data.len();
    let count = size / 4;
    let mut samples: Vec<u32> = Vec::new();
    let mut i: usize = 0;
    while i < count
        invariant
            i <= count,
            size == pcm_data@.len(),
            count == pcm_data@.len() / 4,
            pcm_data@.len() % 4 == 0,
            samples@ == samples_of(pcm_data@).take(i as int),
        decreases count - i,
    {
        let at: usize = 4 * i;
        let sample: u32 = pcm_data[at] as u32 + 256 * (pcm_data[at + 1] as u32) + 65536 * (
        pcm_data[at + 2] as u32) + 16777216 * (pcm_data[at + 3] as u32);
        samples.push(sample);
        i += 1;
        assert(samples@ =~= samples_of(pcm_data@).take(i as int));
    }
    assert(samples_of(pcm_data@).take(count as int) =~= samples_of(pcm_data@));
    Ok(samples)
}

/// Raw bytes hold their samples: reading back what was written in raw
/// form gives the samples that were written.
pub proof fn law_raw_round_trip(samples: Seq<u32>)
    ensures
        raw_bytes(samples).len() == 4 * samples.len(),
        samples_of(raw_bytes(samples)) == samples,
{
    let bytes = raw_bytes(samples);
    assert forall|i: int| 0 <= i < samples.len() implies sample_at(bytes, 4 * i) == samples[i] by {
        let s = samples[i];
        assert(bytes[4 * i] == sample_bytes(s)[0]);
        assert(bytes[4 * i + 1] == sample_bytes(s)[1]);
        assert(bytes[4 * i + 2] == sample_bytes(s)[2]);
        assert(bytes[4 * i + 3] == sample_bytes(s)[3]);
    }
    assert(samples_of(bytes) =~= samples);
}

} // verus!
