//! Audio segment encoding: cutting the sample stream into segments and codec
//! frames, and packaging what the codec returns.

use crate::bytes::{copy_bytes, push_bytes};
use crate::encoding::{AudioChannelLayout, AudioCodec, AudioEncodingConfig, SEGMENT_DURATION_MS};
use crate::error::{prefixed, CaptureError, CaptureResult};
use crate::text::{decimal, push_decimal};
use vstd::arithmetic::div_mod::{
    lemma_div_is_ordered, lemma_fundamental_div_mod, lemma_fundamental_div_mod_converse,
};
use vstd::prelude::*;
use vstd::string::*;

verus! {

/// Encoded audio segment ready for upload.
#[derive(Debug, PartialEq, Eq)]
pub struct EncodedAudioSegment {
    /// Encoded AAC data
    pub data: Vec<u8>,
    /// Segment sequence number
    pub sequence: u32,
    /// Duration in milliseconds
    pub duration_ms: u64,
    /// Presentation timestamp in milliseconds
    pub timestamp: u64,
    /// Sample rate
    pub sample_rate: u32,
    /// Number of channels
    pub channels: u16,
}

impl Clone for EncodedAudioSegment {
    /// A copy with the same bytes and the same metadata.
    fn clone(&self) -> (res: Self)
        ensures
            res.data@ == self.data@,
            res.sequence == self.sequence,
            res.duration_ms == self.duration_ms,
            res.timestamp == self.timestamp,
            res.sample_rate == self.sample_rate,
            res.channels == self.channels,
    {
        EncodedAudioSegment {
            data: copy_bytes(&self.data),
            sequence: self.sequence,
            duration_ms: self.duration_ms,
            timestamp: self.timestamp,
            sample_rate: self.sample_rate,
            channels: self.channels,
        }
    }
}

/// What an [`EncodedAudioSegment`] holds, with its bytes as a sequence.
pub struct EncodedAudioSegmentView {
    pub data: Seq<u8>,
    pub sequence: u32,
    pub duration_ms: u64,
    pub timestamp: u64,
    pub sample_rate: u32,
    pub channels: u16,
}

impl View for EncodedAudioSegment {
    type V = EncodedAudioSegmentView;

    open spec fn view(&self) -> EncodedAudioSegmentView {
        EncodedAudioSegmentView {
            data: self.data@,
            sequence: self.sequence,
            duration_ms: self.duration_ms,
            timestamp: self.timestamp,
            sample_rate: self.sample_rate,
            channels: self.channels,
        }
    }
}

/// The views of a list of encoded segments.
pub open spec fn encoded_views(segments: Seq<EncodedAudioSegment>) -> Seq<EncodedAudioSegmentView> {
    segments.map_values(|s: EncodedAudioSegment| s@)
}

/// Samples per channel in one codec frame.
pub const AAC_FRAME_SIZE: usize = 1024;

/// The sample sequences held by a list of sample buffers.
pub open spec fn sample_views(buffers: Seq<Vec<u32>>) -> Seq<Seq<u32>> {
    buffers.map_values(|b: Vec<u32>| b@)
}

/// The whole chunks of `size` samples at the front of `stream`, in order.
pub open spec fn whole_chunks(stream: Seq<u32>, size: nat) -> Seq<Seq<u32>> {
    Seq::new(stream.len() / size, |i: int| stream.subrange(i * size, (i + 1) * size))
}

/// What is left of `stream` behind its whole chunks of `size` samples.
pub open spec fn chunk_rest(stream: Seq<u32>, size: nat) -> Seq<u32> {
    stream.skip(((stream.len() / size) * size) as int)
}

/// `count` samples of silence.
pub open spec fn silence(count: nat) -> Seq<u32> {
    Seq::new(count, |i: int| 0u32)
}

/// The whole chunks of a stream cover its front, and less than one chunk
/// is left behind them.
pub proof fn lemma_chunks_cover(stream: Seq<u32>, size: nat)
    requires
        size > 0,
    ensures
        (stream.len() / size) * size <= stream.len(),
        chunk_rest(stream, size).len() == stream.len() % size,
        chunk_rest(stream, size).len() < size,
        whole_chunks(stream, size).len() * size + chunk_rest(stream, size).len() == stream.len(),
        forall|i: int|
            0 <= i < whole_chunks(stream, size).len() ==> (#[trigger] whole_chunks(
                stream,
                size,
            )[i]).len() == size,
{
    let n = stream.len() as int;
    let d = size as int;
    lemma_fundamental_div_mod(n, d);
    assert(n == d * (n / d) + n % d);
    assert(d * (n / d) == (n / d) * d) by (nonlinear_arith);
    assert(0 <= n % d < d) by (nonlinear_arith)
        requires
            d > 0,
    ;
    assert forall|i: int| 0 <= i < whole_chunks(stream, size).len() implies (
    #[trigger] whole_chunks(stream, size)[i]).len() == size by {
        assert((i + 1) * d <= (n / d) * d) by (nonlinear_arith)
            requires
                i + 1 <= n / d,
                d > 0,
        ;
        assert((i + 1) * d == i * d + d) by (nonlinear_arith);
        assert(0 <= i * d) by (nonlinear_arith)
            requires
                0 <= i,
                d > 0,
        ;
    }
}

/// Cuts whole chunks of `size` samples off the stream that is `carry`
/// followed by `input`, and leaves in `carry` what is left behind them.
pub fn cut_chunks(carry: &mut Vec<u32>, input: &[u32], size: usize) -> (chunks: Vec<Vec<u32>>)
    requires
        size > 0,
        old(carry)@.len() < size,
    ensures
        sample_views(chunks@) == whole_chunks(old(carry)@ + input@, size as nat),
        final(carry)@ == chunk_rest(old(carry)@ + input@, size as nat),
{
    let ghost stream = old(carry)@ + input@;
    let ghost start = old(carry)@.len() as int;
    let mut chunks: Vec<Vec<u32>> = Vec::new();
    let mut i: usize = 0;
    let ghost mut base: int = 0;
    proof {
        let none = chunks@.len();
        assert(none * size == 0) by (nonlinear_arith)
            requires
                none == 0,
        ;
        assert(carry@ =~= stream.subrange(0, start));
    }
    while i < input.len()
        invariant
            size > 0,
            i <= input.len(),
            stream == old(carry)@ + input@,
            start == old(carry)@.len(),
            base == chunks@.len() * size,
            0 <= base <= start + i,
            carry@.len() < size,
            carry@ == stream.subrange(base, start + i),
            forall|k: int|
                0 <= k < chunks@.len() ==> (#[trigger] chunks@[k])@ == stream.subrange(
                    k * size,
                    (k + 1) * size,
                ),
        decreases input.len() - i,
    {
        carry.push(input[i]);
        i += 1;
        assert(carry@ =~= stream.subrange(base, start + i));
        if carry.len() == size {
            let mut full: Vec<u32> = Vec::new();
            std::mem::swap(carry, &mut full);
            let ghost k = chunks@.len() as int;
            assert((k + 1) * size == k * size + size) by (nonlinear_arith);
            chunks.push(full);
            proof {
                base = base + size;
                assert(carry@ =~= stream.subrange(base, start + i));
            }
        }
    }
    proof {
        let n = stream.len() as int;
        let q = chunks@.len() as int;
        assert(n == start + i);
        lemma_fundamental_div_mod_converse(n, size as int, q, carry@.len() as int);
        assert(sample_views(chunks@) =~= whole_chunks(stream, size as nat));
        assert(carry@ =~= chunk_rest(stream, size as nat));
    }
    chunks
}

/// What can go wrong while setting up or driving the audio codec.
#[derive(Debug, PartialEq, Eq)]
pub enum AudioEncodingError {
    /// The codec engine reported an error; this is its message
    FFmpeg(String),
    /// The codec could not be found or started
    TaskLaunch(String),
    /// Anything else
    Other(String),
}

impl Clone for AudioEncodingError {
    /// The same error with the same message.
    fn clone(&self) -> (res: Self)
        ensures
            res == *self,
    {
        match self {
            AudioEncodingError::FFmpeg(m) => AudioEncodingError::FFmpeg(m.clone()),
            AudioEncodingError::TaskLaunch(m) => AudioEncodingError::TaskLaunch(m.clone()),
            AudioEncodingError::Other(m) => AudioEncodingError::Other(m.clone()),
        }
    }
}

/// What the codec made of one segment of a submission.
#[derive(Debug, PartialEq, Eq)]
pub struct SegmentOutcome {
    /// The presentation time that was reached when the segment's frames
    /// had been cut
    pub end_pts: u64,
    /// What the codec returned for each frame of the segment, or the
    /// error of the frame that failed to encode
    pub encoded: Result<Vec<Vec<u8>>, AudioEncodingError>,
}

/// The error of the first segment of a submission that failed to encode.
pub open spec fn first_failure(outcomes: Seq<SegmentOutcome>) -> Option<AudioEncodingError>
    decreases outcomes.len(),
{
    if outcomes.len() == 0 {
        None
    } else {
        match first_failure(outcomes.drop_last()) {
            Some(e) => Some(e),
            None => match outcomes.last().encoded {
                Ok(_) => None,
                Err(e) => Some(e),
            },
        }
    }
}

impl AudioEncodingError {
    /// The text that the error carries into a [`CaptureError`].
    pub open spec fn capture_message(self) -> Seq<char> {
        match self {
            AudioEncodingError::FFmpeg(m) => "FFmpeg error: "@ + m@,
            AudioEncodingError::TaskLaunch(m) => "Task launch error: "@ + m@,
            AudioEncodingError::Other(m) => m@,
        }
    }

    /// The encoding error of the capture library that stands for this
    /// error.
    pub fn into_capture_error(self) -> (res: CaptureError)
        ensures
            res matches CaptureError::EncodingError(m) && m@ == self.capture_message(),
    {
        match self {
            AudioEncodingError::FFmpeg(m) => CaptureError::EncodingError(
                prefixed("FFmpeg error: ", m.as_str()),
            ),
            AudioEncodingError::TaskLaunch(m) => CaptureError::EncodingError(
                prefixed("Task launch error: ", m.as_str()),
            ),
            AudioEncodingError::Other(m) => CaptureError::EncodingError(m),
        }
    }
}

/// One codec frame's worth of interleaved samples, as it is handed to the
/// codec: each sample is the bit pattern of a 32-bit float.
#[derive(Debug, PartialEq, Eq)]
pub struct AudioFrame {
    /// Interleaved samples
    pub samples: Vec<u32>,
    /// Sample rate of the samples
    pub sample_rate: u32,
    /// Number of interleaved channels
    pub channels: u16,
    /// Presentation time: samples per channel that precede this frame
    pub pts: u64,
}

/// The sample-rate index that the frame header states for `sample_rate`;
/// rates outside the table are stated as 44.1 kHz.
pub open spec fn sample_rate_index(sample_rate: u32) -> nat {
    if sample_rate == 96000 {
        0
    } else if sample_rate == 88200 {
        1
    } else if sample_rate == 64000 {
        2
    } else if sample_rate == 48000 {
        3
    } else if sample_rate == 44100 {
        4
    } else if sample_rate == 32000 {
        5
    } else if sample_rate == 24000 {
        6
    } else if sample_rate == 22050 {
        7
    } else if sample_rate == 16000 {
        8
    } else if sample_rate == 12000 {
        9
    } else if sample_rate == 11025 {
        10
    } else if sample_rate == 8000 {
        11
    } else {
        4
    }
}

/// The 7-byte header of a frame of `frame_length` bytes (header included):
/// sync word `0xFFF`, MPEG-4, no CRC; profile AAC-LC (bits 7-6 of byte 2),
/// sample-rate index (bits 5-2), channel configuration (bit 0 of byte 2 and
/// bits 7-6 of byte 3, the low 3 bits of the low byte of `channels`), the
/// low 13 bits of the frame length (bits 1-0 of byte 3, byte 4, bits 7-5 of
/// byte 5), and buffer fullness all ones.
pub open spec fn adts_header(frame_length: nat, sample_rate: u32, channels: u16) -> Seq<u8> {
    let ch = (channels as nat) % 256;
    seq![
        0xFFu8,
        0xF1u8,
        (64 + sample_rate_index(sample_rate) * 4 + (ch / 4) % 2) as u8,
        ((ch % 4) * 64 + (frame_length / 2048) % 4) as u8,
        ((frame_length / 8) % 256) as u8,
        ((frame_length % 8) * 32 + 31) as u8,
        0xFCu8,
    ]
}

/// An elementary-stream frame behind its header.
pub open spec fn adts_frame(payload: Seq<u8>, sample_rate: u32, channels: u16) -> Seq<u8> {
    adts_header(payload.len() + 7, sample_rate, channels) + payload
}

/// The segment buffer built from what the codec returned for each frame of
/// a segment: every payload that is not empty behind its own header, in
/// order.
pub open spec fn framed_payloads(payloads: Seq<Seq<u8>>, sample_rate: u32, channels: u16) -> Seq<
    u8,
>
    decreases payloads.len(),
{
    if payloads.len() == 0 {
        Seq::empty()
    } else {
        framed_payloads(payloads.drop_last(), sample_rate, channels) + if payloads.last().len()
            > 0 {
            adts_frame(payloads.last(), sample_rate, channels)
        } else {
            Seq::empty()
        }
    }
}

/// The byte sequences held by a list of byte buffers.
pub open spec fn byte_views(buffers: Seq<Vec<u8>>) -> Seq<Seq<u8>> {
    buffers.map_values(|b: Vec<u8>| b@)
}

/// The presentation time of `pts` samples per channel at `sample_rate`, in
/// whole milliseconds, held at the largest value where it would not fit.
pub open spec fn timestamp_ms(pts: u64, sample_rate: u32) -> u64 {
    let exact = (pts as int * 1000) / (sample_rate as int);
    if exact > u64::MAX {
        u64::MAX
    } else {
        exact as u64
    }
}

/// Computes [`sample_rate_index`].
fn rate_index(sample_rate: u32) -> (res: u8)
    ensures
        res as nat == sample_rate_index(sample_rate),
        res <= 11,
{
    match sample_rate {
        96000 => 0u8,
        88200 => 1u8,
        64000 => 2u8,
        48000 => 3u8,
        44100 => 4u8,
        32000 => 5u8,
        24000 => 6u8,
        22050 => 7u8,
        16000 => 8u8,
        12000 => 9u8,
        11025 => 10u8,
        8000 => 11u8,
        _ => 4u8,
    }
}

/// Puts the 7-byte self-describing header in front of an encoded frame.
pub fn adts_wrap(aac_data: &[u8], sample_rate: u32, channels: u16) -> (res: Vec<u8>)
    ensures
        res@ == adts_frame(aac_data@, sample_rate, channels),
{
    let frame_length: u128 = aac_data.len() as u128 + 7;
    let ch: u128 = (channels % 256) as u128;
    let index: u128 = rate_index(sample_rate) as u128;
    let mut res: Vec<u8> = Vec::new();
    res.push(0xFFu8);
    res.push(0xF1u8);
    res.push((64 + index * 4 + (ch / 4) % 2) as u8);
    res.push(((ch % 4) * 64 + (frame_length / 2048) % 4) as u8);
    res.push(((frame_length / 8) % 256) as u8);
    res.push(((frame_length % 8) * 32 + 31) as u8);
    res.push(0xFCu8);
    assert(res@ =~= adts_header(frame_length as nat, sample_rate, channels));
    push_bytes(&mut res, aac_data);
    res
}

/// The header is self-describing: the sync word is in place and, for
/// frames of fewer than 8192 bytes, the length field reads back as the
/// frame length, the rate field as the sample-rate index and, for up to 7
/// channels, the channel field as the channel count.
pub proof fn law_adts_header_reads_back(frame_length: nat, sample_rate: u32, channels: u16)
    ensures
        ({
            let h = adts_header(frame_length, sample_rate, channels);
            &&& h.len() == 7
            &&& h[0] == 0xFF
            &&& h[1] == 0xF1
            &&& h[2] as nat / 64 == 1
            &&& (h[2] as nat / 4) % 16 == sample_rate_index(sample_rate)
            &&& frame_length < 8192 ==> (h[3] as nat % 4) * 2048 + (h[4] as nat) * 8 + (h[5] as nat)
                / 32 == frame_length
            &&& channels < 8 ==> (h[2] as nat % 2) * 4 + (h[3] as nat) / 64 == channels
        }),
{
}

/// Whether `chosen` is the rate to encode at, given the rates the codec
/// supports: the smallest supported rate that is at least the requested
/// rate, or, where no supported rate is that large, the smallest supported
/// rate.
pub open spec fn is_selected_rate(rates: Seq<i32>, requested: u32, chosen: i32) -> bool {
    &&& rates.contains(chosen)
    &&& if exists|i: int| 0 <= i < rates.len() && #[trigger] rates[i] >= requested {
        &&& chosen >= requested
        &&& forall|i: int| 0 <= i < rates.len() && #[trigger] rates[i] >= requested ==> chosen <= rates[i]
    } else {
        forall|i: int| 0 <= i < rates.len() ==> chosen <= #[trigger] rates[i]
    }
}

/// Picks the rate to encode at from the rates the codec supports; there is
/// none to pick only where the codec supports no rate at all.
pub fn select_sample_rate(rates: &Vec<i32>, requested: u32) -> (res: Option<i32>)
    ensures
        res is Some <==> rates@.len() > 0,
        res matches Some(chosen) ==> is_selected_rate(rates@, requested, chosen),
{
    if rates.len() == 0 {
        return None;
    }
    let mut lowest: i32 = rates[0];
    let mut fitting: Option<i32> = None;
    let mut i: usize = 0;
    while i < rates.len()
        invariant
            0 < rates@.len(),
            i <= rates@.len(),
            rates@.contains(lowest),
            forall|k: int| 0 <= k < i ==> lowest <= #[trigger] rates@[k],
            fitting is None ==> forall|k: int| 0 <= k < i ==> !(#[trigger] rates@[k] >= requested),
            fitting matches Some(f) ==> {
                &&& rates@.contains(f)
                &&& f >= requested
                &&& forall|k: int| 0 <= k < i && #[trigger] rates@[k] >= requested ==> f <= rates@[k]
            },
        decreases rates@.len() - i,
    {
        let rate = rates[i];
        if rate < lowest {
            lowest = rate;
        }
        if rate as i64 >= requested as i64 {
            match fitting {
                Some(f) => {
                    if rate < f {
                        fitting = Some(rate);
                    }
                },
                None => {
                    fitting = Some(rate);
                },
            }
        }
        i += 1;
    }
    match fitting {
        Some(f) => Some(f),
        None => Some(lowest),
    }
}

/// Whether audio of this configuration can be cut into segments here: the
/// sample rate and the channel count are positive and a segment's sample
/// count fits the machine's sizes.
pub open spec fn is_encodable(config: AudioEncodingConfig) -> bool {
    &&& config.sample_rate > 0
    &&& config.channels > 0
    &&& 2 * config.sample_rate * config.channels <= usize::MAX
}

/// The sample count of one segment: two seconds of every channel.
pub open spec fn segment_size(config: AudioEncodingConfig) -> nat {
    (2 * config.sample_rate * config.channels) as nat
}

/// The sample count of one codec frame over all channels.
pub open spec fn frame_size(config: AudioEncodingConfig) -> nat {
    (AAC_FRAME_SIZE * config.channels) as nat
}

/// What an audio encoder holds between calls.
pub struct AACEncoderState {
    /// The configuration it was made with
    pub config: AudioEncodingConfig,
    /// The rate the codec encodes at
    pub output_rate: i32,
    /// The sequence number of the next segment
    pub next_sequence: u32,
    /// Samples per channel handed to the codec so far
    pub pts: u64,
    /// Samples submitted and not yet cut into a segment
    pub backlog: Seq<u32>,
    /// Samples of past segments that did not fill a codec frame yet
    pub carry: Seq<u32>,
}

impl AACEncoderState {
    /// The backlog is short of a segment and the carry is short of a frame.
    pub open spec fn wf(self) -> bool {
        &&& is_encodable(self.config)
        &&& self.backlog.len() < segment_size(self.config)
        &&& self.carry.len() < frame_size(self.config)
    }

    /// The segments that a submission of `samples` completes, oldest
    /// first.
    pub open spec fn submitted_segments(self, samples: Seq<u32>) -> Seq<Seq<u32>> {
        whole_chunks(self.backlog + samples, segment_size(self.config))
    }

    /// The state after a submission of `samples`.
    pub open spec fn submit(self, samples: Seq<u32>) -> AACEncoderState {
        AACEncoderState {
            backlog: chunk_rest(self.backlog + samples, segment_size(self.config)),
            ..self
        }
    }

    /// The segment that a flush hands out: the backlog padded with silence
    /// to a full segment, where the backlog is not empty.
    pub open spec fn flushed_segment(self) -> Option<Seq<u32>> {
        if self.backlog.len() > 0 {
            Some(
                self.backlog + silence((segment_size(self.config) - self.backlog.len()) as nat),
            )
        } else {
            None
        }
    }

    /// The state after a flush.
    pub open spec fn flush(self) -> AACEncoderState {
        AACEncoderState { backlog: Seq::empty(), ..self }
    }

    /// The state after one segment has been packaged.
    pub open spec fn packaged(self) -> AACEncoderState {
        AACEncoderState { next_sequence: (self.next_sequence + 1) as u32, ..self }
    }

    /// The state after `count` segments have been packaged.
    pub open spec fn packaged_times(self, count: nat) -> AACEncoderState {
        AACEncoderState { next_sequence: (self.next_sequence + count) as u32, ..self }
    }

    /// The segment that is packaged from what the codec returned for each
    /// frame of a segment whose frames ended at presentation time
    /// `end_pts`: every payload that is not empty behind its own header,
    /// the next sequence number, the nominal duration, and the
    /// presentation time in milliseconds.
    pub open spec fn segment_of(self, payloads: Seq<Seq<u8>>, end_pts: u64) -> EncodedAudioSegmentView {
        EncodedAudioSegmentView {
            data: framed_payloads(payloads, self.config.sample_rate, self.config.channels),
            sequence: self.next_sequence,
            duration_ms: SEGMENT_DURATION_MS,
            timestamp: timestamp_ms(end_pts, self.config.sample_rate),
            sample_rate: self.config.sample_rate,
            channels: self.config.channels,
        }
    }

    /// The segments of one submission that are handed on, given what the
    /// codec made of each segment of the submission in order: the
    /// segments that encoded, in order, numbered one after the other. A
    /// segment that failed to encode is left out and uses up no number.
    pub open spec fn packaged_segments(self, outcomes: Seq<SegmentOutcome>) -> Seq<
        EncodedAudioSegmentView,
    >
        decreases outcomes.len(),
    {
        if outcomes.len() == 0 {
            Seq::empty()
        } else {
            let before = self.packaged_segments(outcomes.drop_last());
            match outcomes.last().encoded {
                Ok(payloads) => before.push(
                    self.packaged_times(before.len()).segment_of(
                        byte_views(payloads@),
                        outcomes.last().end_pts,
                    ),
                ),
                Err(_) => before,
            }
        }
    }

    /// The segments that are handed on over a run of submissions, in the
    /// order in which they are handed on: each submission goes on where
    /// the one before it left the sequence counter.
    pub open spec fn packaged_over(self, submissions: Seq<Seq<SegmentOutcome>>) -> Seq<
        EncodedAudioSegmentView,
    >
        decreases submissions.len(),
    {
        if submissions.len() == 0 {
            Seq::empty()
        } else {
            let before = self.packaged_over(submissions.drop_last());
            before + self.packaged_times(before.len()).packaged_segments(submissions.last())
        }
    }

    /// The state after the submissions `chunks`, made one after the other.
    pub open spec fn submit_all(self, chunks: Seq<Seq<u32>>) -> AACEncoderState
        decreases chunks.len(),
    {
        if chunks.len() == 0 {
            self
        } else {
            self.submit_all(chunks.drop_last()).submit(chunks.last())
        }
    }

    /// All segments that the submissions `chunks` complete, oldest first.
    pub open spec fn segments_of_all(self, chunks: Seq<Seq<u32>>) -> Seq<Seq<u32>>
        decreases chunks.len(),
    {
        if chunks.len() == 0 {
            Seq::empty()
        } else {
            self.segments_of_all(chunks.drop_last()) + self.submit_all(
                chunks.drop_last(),
            ).submitted_segments(chunks.last())
        }
    }
}

/// The samples of `chunks` as one stream.
pub open spec fn joined(chunks: Seq<Seq<u32>>) -> Seq<u32>
    decreases chunks.len(),
{
    if chunks.len() == 0 {
        Seq::empty()
    } else {
        joined(chunks.drop_last()) + chunks.last()
    }
}

/// The segments cut by submissions, followed by the segment that the final
/// flush hands out, if it hands one out.
pub open spec fn with_flushed(segments: Seq<Seq<u32>>, flushed: Option<Seq<u32>>) -> Seq<
    Seq<u32>,
> {
    match flushed {
        Some(padded) => segments.push(padded),
        None => segments,
    }
}

/// `count` rounded up to the next multiple of `size`.
pub open spec fn round_up(count: nat, size: nat) -> nat {
    (((count + size - 1) / (size as int)) * size) as nat
}

/// AAC segment encoder: cuts the submitted sample stream into segments of
/// two seconds and each segment into codec frames, and packages what the
/// codec returns for them. The codec itself is driven by the caller.
pub struct AACEncoder {
    config: AudioEncodingConfig,
    output_rate: i32,
    sequence_counter: u32,
    pts: u64,
    samples_per_segment: usize,
    current_segment_samples: Vec<u32>,
    frame_carry: Vec<u32>,
}

impl View for AACEncoder {
    type V = AACEncoderState;

    closed spec fn view(&self) -> AACEncoderState {
        AACEncoderState {
            config: self.config,
            output_rate: self.output_rate,
            next_sequence: self.sequence_counter,
            pts: self.pts,
            backlog: self.current_segment_samples@,
            carry: self.frame_carry@,
        }
    }
}

/// Appends silence to `samples` until it holds `size` samples.
pub fn pad_with_silence(samples: &mut Vec<u32>, size: usize)
    requires
        old(samples)@.len() <= size,
    ensures
        final(samples)@ == old(samples)@ + silence((size - old(samples)@.len()) as nat),
{
    while samples.len() < size
        invariant
            old(samples)@.len() <= samples@.len() <= size,
            samples@ == old(samples)@ + silence((samples@.len() - old(samples)@.len()) as nat),
        decreases size - samples@.len(),
    {
        samples.push(0u32);
        assert(samples@ =~= old(samples)@ + silence((samples@.len() - old(samples)@.len()) as nat));
    }
}

/// What an [`AudioFrame`] holds, with its samples as a sequence.
pub struct AudioFrameView {
    pub samples: Seq<u32>,
    pub sample_rate: u32,
    pub channels: u16,
    pub pts: u64,
}

impl View for AudioFrame {
    type V = AudioFrameView;

    open spec fn view(&self) -> AudioFrameView {
        AudioFrameView {
            samples: self.samples@,
            sample_rate: self.sample_rate,
            channels: self.channels,
            pts: self.pts,
        }
    }
}

/// The views of a list of frames.
pub open spec fn frame_views(frames: Seq<AudioFrame>) -> Seq<AudioFrameView> {
    frames.map_values(|f: AudioFrame| f@)
}

/// Samples per channel that a frame made of `len` interleaved samples
/// carries: all of them, up to one codec frame.
pub open spec fn frame_samples_per_channel(len: nat, channels: u16) -> nat {
    if len / (channels as nat) < AAC_FRAME_SIZE {
        len / (channels as nat)
    } else {
        AAC_FRAME_SIZE as nat
    }
}

/// The codec frames cut from `stream` for an encoder of configuration
/// `config` whose presentation time stands at `pts`: whole frames, in
/// order, each one codec frame later than the one before.
pub open spec fn planned_frames(stream: Seq<u32>, config: AudioEncodingConfig, pts: u64) -> Seq<
    AudioFrameView,
> {
    Seq::new(
        stream.len() / frame_size(config),
        |i: int|
            AudioFrameView {
                samples: stream.subrange(i * frame_size(config), (i + 1) * frame_size(config)),
                sample_rate: config.sample_rate,
                channels: config.channels,
                pts: (pts + i * AAC_FRAME_SIZE) as u64,
            },
    )
}

impl AACEncoder {
    /// The encoder is consistent: its state is well formed and it knows its
    /// segment size.
    pub closed spec fn wf(&self) -> bool {
        &&& self@.wf()
        &&& self.samples_per_segment == segment_size(self.config)
    }

    /// A consistent encoder holds a well-formed state, so that what is
    /// proved of well-formed states holds of it.
    pub proof fn lemma_wf_state(&self)
        requires
            self.wf(),
        ensures
            self@.wf(),
    {
    }

    /// Create new AAC encoder for a codec that supports `supported_rates`.
    ///
    /// Fails where the codec supports no rate at all, and where the
    /// configuration cannot be cut into segments.
    pub fn new(config: AudioEncodingConfig, supported_rates: &Vec<i32>) -> (res: Result<
        Self,
        AudioEncodingError,
    >)
        ensures
            res is Ok <==> supported_rates@.len() > 0 && is_encodable(config),
            res matches Ok(encoder) ==> {
                &&& encoder.wf()
            &&& encoder@.wf()
                &&& encoder@.config == config
                &&& is_selected_rate(supported_rates@, config.sample_rate, encoder@.output_rate)
                &&& encoder@.next_sequence == 0
                &&& encoder@.pts == 0
                &&& encoder@.backlog == Seq::<u32>::empty()
                &&& encoder@.carry == Seq::<u32>::empty()
            },
            res matches Err(e) ==> if supported_rates@.len() == 0 {
                e matches AudioEncodingError::TaskLaunch(m) && m@
                    == "AAC Codec does not support sample rate "@ + decimal(
                    config.sample_rate as nat,
                )
            } else {
                e matches AudioEncodingError::Other(m) && m@
                    == "Audio configuration cannot be segmented"@
            },
    {
        let output_rate = match select_sample_rate(supported_rates, config.sample_rate) {
            Some(rate) => rate,
            None => {
                let mut message = String::from_str("AAC Codec does not support sample rate ");
                push_decimal(&mut message, config.sample_rate as u64);
                return Err(AudioEncodingError::TaskLaunch(message));
            },
        };
        let rate = config.sample_rate as u64;
        let channels = config.channels as u64;
        assert(0 <= 2 * rate * channels <= 2 * 0xFFFF_FFFF * 0xFFFF) by (nonlinear_arith)
            requires
                0 <= rate <= 0xFFFF_FFFF,
                0 <= channels <= 0xFFFF,
        ;
        let samples: u64 = 2 * rate * channels;
        assert(rate > 0 && channels > 0 ==> 2 * rate * channels > 0) by (nonlinear_arith);
        if config.sample_rate == 0 || config.channels == 0 || samples > usize::MAX as u64 {
            return Err(
                AudioEncodingError::Other(
                    String::from_str("Audio configuration cannot be segmented"),
                ),
            );
        }
        Ok(
            AACEncoder {
                config,
                output_rate,
                sequence_counter: 0,
                pts: 0,
                samples_per_segment: samples as usize,
                current_segment_samples: Vec::new(),
                frame_carry: Vec::new(),
            },
        )
    }

    /// Process audio samples: adds them to the backlog and cuts off every
    /// complete segment, oldest first. What is short of a segment stays in
    /// the backlog.
    pub fn process_audio(&mut self, pcm_data: &[u32]) -> (segments: Vec<Vec<u32>>)
        requires
            old(self).wf(),
        ensures
            final(self).wf(),
            final(self)@.wf(),
            segments@.len() == old(self)@.submitted_segments(pcm_data@).len(),
            sample_views(segments@) == old(self)@.submitted_segments(pcm_data@),
            final(self)@ == old(self)@.submit(pcm_data@),
    {
        proof {
            lemma_chunks_cover(
                old(self)@.backlog + pcm_data@,
                segment_size(old(self)@.config),
            );
        }
        let segments = cut_chunks(
            &mut self.current_segment_samples,
            pcm_data,
            self.samples_per_segment,
        );
        assert(sample_views(segments@).len() == segments@.len());
        segments
    }

    /// Flush remaining audio data: where the backlog is not empty, it is
    /// padded with silence to a full segment and handed out, and the
    /// backlog is empty afterwards.
    pub fn flush(&mut self) -> (segment: Option<Vec<u32>>)
        requires
            old(self).wf(),
        ensures
            final(self).wf(),
            final(self)@.wf(),
            segment is Some <==> old(self)@.flushed_segment() is Some,
            segment matches Some(samples) ==> Some(samples@) == old(self)@.flushed_segment(),
            final(self)@ == old(self)@.flush(),
    {
        if self.current_segment_samples.len() == 0 {
            assert(self.current_segment_samples@ =~= Seq::<u32>::empty());
            return None;
        }
        let mut samples: Vec<u32> = Vec::new();
        std::mem::swap(&mut self.current_segment_samples, &mut samples);
        pad_with_silence(&mut samples, self.samples_per_segment);
        Some(samples)
    }

    /// The configuration the encoder was made with.
    pub fn config(&self) -> (res: AudioEncodingConfig)
        ensures
            res == self@.config,
    {
        self.config
    }

    /// The rate the codec is to encode at.
    pub fn output_rate(&self) -> (res: i32)
        ensures
            res == self@.output_rate,
    {
        self.output_rate
    }

    /// The sequence number that the next segment will get.
    pub fn next_sequence(&self) -> (res: u32)
        ensures
            res == self@.next_sequence,
    {
        self.sequence_counter
    }

    /// Samples per channel handed to the codec so far.
    pub fn pts(&self) -> (res: u64)
        ensures
            res == self@.pts,
    {
        self.pts
    }

    /// Number of samples waiting in the backlog.
    pub fn backlog_len(&self) -> (res: usize)
        ensures
            res == self@.backlog.len(),
    {
        self.current_segment_samples.len()
    }

    /// Number of samples waiting for the rest of their codec frame.
    pub fn carry_len(&self) -> (res: usize)
        ensures
            res == self@.carry.len(),
    {
        self.frame_carry.len()
    }

    /// The sample count of one segment.
    pub fn samples_per_segment(&self) -> (res: usize)
        requires
            self.wf(),
        ensures
            res == segment_size(self@.config),
    {
        self.samples_per_segment
    }

    /// Create audio frame from PCM data: the frame takes up to one codec
    /// frame of every channel from the front of `pcm_data` and is stamped
    /// with the current presentation time, which then advances by the
    /// samples per channel taken.
    pub fn create_audio_frame(&mut self, pcm_data: &[u32]) -> (frame: AudioFrame)
        requires
            old(self).wf(),
            old(self)@.pts + AAC_FRAME_SIZE <= u64::MAX,
        ensures
            final(self).wf(),
            final(self)@.wf(),
            frame@ == (AudioFrameView {
                samples: pcm_data@.take(
                    frame_samples_per_channel(pcm_data@.len(), old(self)@.config.channels)
                        * old(self)@.config.channels,
                ),
                sample_rate: old(self)@.config.sample_rate,
                channels: old(self)@.config.channels,
                pts: old(self)@.pts,
            }),
            final(self)@ == (AACEncoderState {
                pts: (old(self)@.pts + frame_samples_per_channel(
                    pcm_data@.len(),
                    old(self)@.config.channels,
                )) as u64,
                ..old(self)@
            }),
    {
        let channels = self.config.channels as usize;
        let samples_per_channel = pcm_data.len() / channels;
        let actual_samples = if samples_per_channel < AAC_FRAME_SIZE {
            samples_per_channel
        } else {
            AAC_FRAME_SIZE
        };
        assert(actual_samples * channels <= pcm_data@.len()) by (nonlinear_arith)
            requires
                actual_samples <= pcm_data@.len() / (channels as nat),
                channels > 0,
        ;
        let samples_to_copy = actual_samples * channels;
        let mut samples: Vec<u32> = Vec::new();
        let mut i: usize = 0;
        while i < samples_to_copy
            invariant
                i <= samples_to_copy <= pcm_data@.len(),
                samples@ == pcm_data@.take(i as int),
            decreases samples_to_copy - i,
        {
            samples.push(pcm_data[i]);
            i += 1;
            assert(samples@ =~= pcm_data@.take(i as int));
        }
        let frame = AudioFrame {
            samples,
            sample_rate: self.config.sample_rate,
            channels: self.config.channels,
            pts: self.pts,
        };
        self.pts = self.pts + actual_samples as u64;
        frame
    }

    /// Cuts the samples of one segment into codec frames. Samples left
    /// over from earlier segments come first; what does not fill a frame is
    /// kept for the next segment, not dropped. Each frame advances the
    /// presentation time by one codec frame.
    pub fn segment_frames(&mut self, pcm_segment: &[u32]) -> (frames: Vec<AudioFrame>)
        requires
            old(self).wf(),
            old(self)@.pts + old(self)@.carry.len() + pcm_segment@.len() <= u64::MAX,
        ensures
            final(self).wf(),
            final(self)@.wf(),
            frame_views(frames@) == planned_frames(
                old(self)@.carry + pcm_segment@,
                old(self)@.config,
                old(self)@.pts,
            ),
            final(self)@ == (AACEncoderState {
                carry: chunk_rest(old(self)@.carry + pcm_segment@, frame_size(old(self)@.config)),
                pts: (old(self)@.pts + frames@.len() * AAC_FRAME_SIZE) as u64,
                ..old(self)@
            }),
    {
        let ghost stream = old(self)@.carry + pcm_segment@;
        let ghost size = frame_size(old(self)@.config);
        let ghost pts0 = old(self)@.pts;
        let frame_len = AAC_FRAME_SIZE * (self.config.channels as usize);
        let chunks = cut_chunks(&mut self.frame_carry, pcm_segment, frame_len);
        proof {
            lemma_chunks_cover(stream, size);
        }
        let mut frames: Vec<AudioFrame> = Vec::new();
        let mut i: usize = 0;
        while i < chunks.len()
            invariant
                i <= chunks@.len(),
                self.wf(),
                size == frame_size(self@.config),
                size == frame_len,
                size >= AAC_FRAME_SIZE,
                stream.len() <= old(self)@.carry.len() + pcm_segment@.len(),
                pts0 + stream.len() <= u64::MAX,
                chunks@.len() * size <= stream.len(),
                sample_views(chunks@) == whole_chunks(stream, size),
                forall|k: int|
                    0 <= k < chunks@.len() ==> (#[trigger] whole_chunks(stream, size)[k]).len()
                        == size,
                self@ == (AACEncoderState {
                    carry: chunk_rest(stream, size),
                    pts: (pts0 + i * AAC_FRAME_SIZE) as u64,
                    ..old(self)@
                }),
                i * AAC_FRAME_SIZE <= i * size,
                frames@.len() == i,
                forall|k: int|
                    0 <= k < i ==> (#[trigger] frames@[k])@ == (AudioFrameView {
                        samples: whole_chunks(stream, size)[k],
                        sample_rate: self@.config.sample_rate,
                        channels: self@.config.channels,
                        pts: (pts0 + k * AAC_FRAME_SIZE) as u64,
                    }),
            decreases chunks@.len() - i,
        {
            let ghost before = *self;
            proof {
                assert(sample_views(chunks@)[i as int] == chunks@[i as int]@);
                assert(whole_chunks(stream, size)[i as int].len() == size);
                assert((i + 1) * size <= chunks@.len() * size) by (nonlinear_arith)
                    requires
                        i + 1 <= chunks@.len(),
                        size >= 0,
                ;
                assert((i + 1) * size == i * size + size) by (nonlinear_arith);
                assert((i + 1) * AAC_FRAME_SIZE == i * AAC_FRAME_SIZE + AAC_FRAME_SIZE)
                    by (nonlinear_arith);
            }
            let frame = self.create_audio_frame(chunks[i].as_slice());
            proof {
                let channels = before@.config.channels as nat;
                let len = chunks@[i as int]@.len();
                assert(len == AAC_FRAME_SIZE * channels);
                assert(len / channels == AAC_FRAME_SIZE) by (nonlinear_arith)
                    requires
                        len == AAC_FRAME_SIZE * channels,
                        channels > 0,
                ;
                assert(chunks@[i as int]@.take(len as int) =~= chunks@[i as int]@);
            }
            frames.push(frame);
            i += 1;
        }
        proof {
            assert(frame_views(frames@) =~= planned_frames(stream, old(self)@.config, pts0));
        }
        frames
    }

    /// Hands out what is left of the last frame at the end of the stream:
    /// where samples wait for the rest of their codec frame, they are
    /// padded with silence to a whole frame, stamped and handed out, and
    /// the presentation time advances by one codec frame.
    pub fn flush_frame(&mut self) -> (frame: Option<AudioFrame>)
        requires
            old(self).wf(),
            old(self)@.pts + AAC_FRAME_SIZE <= u64::MAX,
        ensures
            final(self).wf(),
            final(self)@.wf(),
            frame is Some <==> old(self)@.carry.len() > 0,
            frame matches Some(f) ==> f@ == (AudioFrameView {
                samples: old(self)@.carry + silence(
                    (frame_size(old(self)@.config) - old(self)@.carry.len()) as nat,
                ),
                sample_rate: old(self)@.config.sample_rate,
                channels: old(self)@.config.channels,
                pts: old(self)@.pts,
            }),
            final(self)@ == (AACEncoderState {
                carry: Seq::empty(),
                pts: if old(self)@.carry.len() > 0 {
                    (old(self)@.pts + AAC_FRAME_SIZE) as u64
                } else {
                    old(self)@.pts
                },
                ..old(self)@
            }),
    {
        if self.frame_carry.len() == 0 {
            assert(self.frame_carry@ =~= Seq::<u32>::empty());
            return None;
        }
        let mut samples: Vec<u32> = Vec::new();
        std::mem::swap(&mut self.frame_carry, &mut samples);
        pad_with_silence(&mut samples, AAC_FRAME_SIZE * (self.config.channels as usize));
        let frame = AudioFrame {
            samples,
            sample_rate: self.config.sample_rate,
            channels: self.config.channels,
            pts: self.pts,
        };
        self.pts = self.pts + AAC_FRAME_SIZE as u64;
        Some(frame)
    }

    /// Add ADTS headers to AAC data: the frame behind its 7-byte header,
    /// which states the configured sample rate and channel count.
    pub fn add_adts_header(&self, aac_data: &[u8]) -> (res: Vec<u8>)
        ensures
            res@ == adts_frame(aac_data@, self@.config.sample_rate, self@.config.channels),
    {
        adts_wrap(aac_data, self.config.sample_rate, self.config.channels)
    }

    /// Packages a segment from what the codec returned for each of its
    /// frames: every payload that is not empty goes behind its own header,
    /// in order. The segment gets the next sequence number, the nominal
    /// duration and the presentation time reached so far.
    pub fn encode_audio_segment(&mut self, encoded_frames: &Vec<Vec<u8>>) -> (segment:
        EncodedAudioSegment)
        requires
            old(self).wf(),
            old(self)@.next_sequence < u32::MAX,
        ensures
            final(self).wf(),
            final(self)@.wf(),
            segment@ == old(self)@.segment_of(byte_views(encoded_frames@), old(self)@.pts),
            final(self)@ == old(self)@.packaged(),
    {
        let end_pts = self.pts;
        self.encode_audio_segment_at(encoded_frames, end_pts)
    }

    /// Packages a segment whose frames ended at presentation time
    /// `end_pts` from what the codec returned for each of its frames.
    pub fn encode_audio_segment_at(
        &mut self,
        encoded_frames: &Vec<Vec<u8>>,
        end_pts: u64,
    ) -> (segment: EncodedAudioSegment)
        requires
            old(self).wf(),
            old(self)@.next_sequence < u32::MAX,
        ensures
            final(self).wf(),
            final(self)@.wf(),
            segment@ == old(self)@.segment_of(byte_views(encoded_frames@), end_pts),
            final(self)@ == old(self)@.packaged(),
    {
        let mut data: Vec<u8> = Vec::new();
        let mut i: usize = 0;
        while i < encoded_frames.len()
            invariant
                i <= encoded_frames@.len(),
                data@ == framed_payloads(
                    byte_views(encoded_frames@).take(i as int),
                    self@.config.sample_rate,
                    self@.config.channels,
                ),
            decreases encoded_frames@.len() - i,
        {
            let ghost so_far = data@;
            if encoded_frames[i].len() > 0 {
                let framed = self.add_adts_header(encoded_frames[i].as_slice());
                push_bytes(&mut data, framed.as_slice());
            }
            proof {
                let next = byte_views(encoded_frames@).take(i as int + 1);
                assert(next.drop_last() =~= byte_views(encoded_frames@).take(i as int));
                assert(next.last() == encoded_frames@[i as int]@);
                if encoded_frames@[i as int]@.len() == 0 {
                    assert(data@ =~= so_far + Seq::<u8>::empty());
                }
            }
            i += 1;
        }
        assert(byte_views(encoded_frames@).take(encoded_frames@.len() as int) =~= byte_views(
            encoded_frames@,
        ));
        let segment = EncodedAudioSegment {
            data,
            sequence: self.sequence_counter,
            duration_ms: SEGMENT_DURATION_MS,
            timestamp: presentation_ms(end_pts, self.config.sample_rate),
            sample_rate: self.config.sample_rate,
            channels: self.config.channels,
        };
        self.sequence_counter = self.sequence_counter + 1;
        segment
    }

    /// Notes what the codec made of the segment whose frames were cut
    /// last: the payloads of its frames, or the error of the frame that
    /// failed, together with the presentation time that the cut reached.
    pub fn segment_outcome(&self, encoded: Result<Vec<Vec<u8>>, AudioEncodingError>) -> (res:
        SegmentOutcome)
        ensures
            res.end_pts == self@.pts,
            res.encoded == encoded,
    {
        SegmentOutcome { end_pts: self.pts, encoded }
    }

    /// Packages the segments of one submission, given what the codec made
    /// of each of them in order. Every segment that encoded is handed on,
    /// numbered one after the other without a gap; a segment that failed
    /// to encode is dropped and uses up no sequence number, and the
    /// segments behind it are packaged all the same. The error of the
    /// first segment that failed is handed on beside the segments. The
    /// backlog is not touched.
    pub fn package_submission(&mut self, outcomes: &Vec<SegmentOutcome>) -> (res: (
        Vec<EncodedAudioSegment>,
        Option<AudioEncodingError>,
    ))
        requires
            old(self).wf(),
            old(self)@.next_sequence + outcomes@.len() <= u32::MAX,
        ensures
            final(self).wf(),
            final(self)@.wf(),
            encoded_views(res.0@) == old(self)@.packaged_segments(outcomes@),
            res.1 == first_failure(outcomes@),
            final(self)@ == old(self)@.packaged_times(res.0@.len()),
    {
        let mut segments: Vec<EncodedAudioSegment> = Vec::new();
        let mut error: Option<AudioEncodingError> = None;
        let mut i: usize = 0;
        proof {
            assert(outcomes@.take(0).len() == 0);
            assert(encoded_views(segments@) =~= old(self)@.packaged_segments(outcomes@.take(0)));
            assert(self@ == old(self)@.packaged_times(0));
        }
        while i < outcomes.len()
            invariant
                i <= outcomes@.len(),
                self.wf(),
                old(self)@.next_sequence + outcomes@.len() <= u32::MAX,
                segments@.len() <= i,
                encoded_views(segments@) == old(self)@.packaged_segments(outcomes@.take(i as int)),
                error == first_failure(outcomes@.take(i as int)),
                self@ == old(self)@.packaged_times(segments@.len()),
            decreases outcomes@.len() - i,
        {
            let ghost packaged = segments@;
            proof {
                let next = outcomes@.take(i as int + 1);
                assert(next.drop_last() =~= outcomes@.take(i as int));
                assert(next.last() == outcomes@[i as int]);
            }
            match &outcomes[i].encoded {
                Ok(payloads) => {
                    let segment = self.encode_audio_segment_at(payloads, outcomes[i].end_pts);
                    segments.push(segment);
                    proof {
                        assert(encoded_views(segments@) =~= encoded_views(packaged).push(segment@));
                    }
                },
                Err(e) => {
                    if error.is_none() {
                        error = Some(e.clone());
                    }
                },
            }
            i += 1;
        }
        proof {
            assert(outcomes@.take(outcomes@.len() as int) =~= outcomes@);
        }
        (segments, error)
    }

    /// Packages a frame that the codec released while draining at the end
    /// of the stream: a payload that is not empty goes behind its header
    /// and becomes a segment of duration 0 with the next sequence number;
    /// an empty payload becomes nothing and uses up no sequence number.
    pub fn trailing_segment(&mut self, payload: &[u8]) -> (segment: Option<EncodedAudioSegment>)
        requires
            old(self).wf(),
            old(self)@.next_sequence < u32::MAX,
        ensures
            final(self).wf(),
            final(self)@.wf(),
            segment is Some <==> payload@.len() > 0,
            segment matches Some(s) ==> {
                &&& s.data@ == adts_frame(
                    payload@,
                    old(self)@.config.sample_rate,
                    old(self)@.config.channels,
                )
                &&& s.sequence == old(self)@.next_sequence
                &&& s.duration_ms == 0
                &&& s.timestamp == timestamp_ms(old(self)@.pts, old(self)@.config.sample_rate)
                &&& s.sample_rate == old(self)@.config.sample_rate
                &&& s.channels == old(self)@.config.channels
            },
            final(self)@ == if payload@.len() > 0 {
                old(self)@.packaged()
            } else {
                old(self)@
            },
    {
        if payload.len() == 0 {
            return None;
        }
        let segment = EncodedAudioSegment {
            data: self.add_adts_header(payload),
            sequence: self.sequence_counter,
            duration_ms: 0,
            timestamp: presentation_ms(self.pts, self.config.sample_rate),
            sample_rate: self.config.sample_rate,
            channels: self.config.channels,
        };
        self.sequence_counter = self.sequence_counter + 1;
        Some(segment)
    }
}

/// Computes [`timestamp_ms`].
pub fn presentation_ms(pts: u64, sample_rate: u32) -> (res: u64)
    requires
        sample_rate > 0,
    ensures
        res == timestamp_ms(pts, sample_rate),
{
    let exact: u128 = (pts as u128 * 1000) / (sample_rate as u128);
    if exact > u64::MAX as u128 {
        u64::MAX
    } else {
        exact as u64
    }
}

/// Factory function: a segment encoder for `config`, with failures
/// reported as errors of the capture library.
pub fn create_aac_encoder(config: AudioEncodingConfig, supported_rates: &Vec<i32>) -> (res:
    CaptureResult<AACEncoder>)
    ensures
        res is Ok <==> supported_rates@.len() > 0 && is_encodable(config),
        res matches Ok(encoder) ==> {
            &&& encoder.wf()
            &&& encoder@.wf()
            &&& encoder@ == (AACEncoderState {
                config,
                output_rate: encoder@.output_rate,
                next_sequence: 0,
                pts: 0,
                backlog: Seq::empty(),
                carry: Seq::empty(),
            })
            &&& is_selected_rate(supported_rates@, config.sample_rate, encoder@.output_rate)
        },
        res matches Err(e) ==> e matches CaptureError::EncodingError(m) && m@ == if supported_rates@.len()
            == 0 {
            "Task launch error: AAC Codec does not support sample rate "@ + decimal(
                config.sample_rate as nat,
            )
        } else {
            "Audio configuration cannot be segmented"@
        },
{
    match AACEncoder::new(config, supported_rates) {
        Ok(encoder) => Ok(encoder),
        Err(e) => {
            let converted = e.into_capture_error();
            proof {
                if supported_rates@.len() == 0 {
                    assert(e.capture_message() =~= "Task launch error: AAC Codec does not support sample rate "@
                        + decimal(config.sample_rate as nat)) by {
                        reveal_strlit("Task launch error: AAC Codec does not support sample rate ");
                        reveal_strlit("Task launch error: ");
                        reveal_strlit("AAC Codec does not support sample rate ");
                    }
                }
            }
            Err(converted)
        },
    }
}

/// The configuration of the transcription encoder: AAC at 128 kbit/s,
/// 48 kHz stereo.
pub open spec fn transcription_config() -> AudioEncodingConfig {
    AudioEncodingConfig {
        codec: AudioCodec::AAC,
        bitrate: 128000,
        sample_rate: 48000,
        channels: 2,
        channel_layout: AudioChannelLayout::Stereo,
    }
}

/// Create transcription-optimized encoder: AAC at 128 kbit/s, 48 kHz
/// stereo. Fails only where the codec supports no rate at all.
pub fn create_transcription_encoder(supported_rates: &Vec<i32>) -> (res: CaptureResult<AACEncoder>)
    ensures
        res is Ok <==> supported_rates@.len() > 0,
        res matches Ok(encoder) ==> {
            &&& encoder.wf()
            &&& encoder@.wf()
            &&& encoder@ == (AACEncoderState {
                config: transcription_config(),
                output_rate: encoder@.output_rate,
                next_sequence: 0,
                pts: 0,
                backlog: Seq::empty(),
                carry: Seq::empty(),
            })
            &&& is_selected_rate(supported_rates@, 48000, encoder@.output_rate)
        },
        res matches Err(e) ==> e matches CaptureError::EncodingError(m) && m@
            == "Task launch error: AAC Codec does not support sample rate "@ + decimal(48000),
{
    let config = AudioEncodingConfig {
        codec: AudioCodec::AAC,
        bitrate: 128000,
        sample_rate: 48000,
        channels: 2,
        channel_layout: AudioChannelLayout::Stereo,
    };
    create_aac_encoder(config, supported_rates)
}

/// Submitting in two parts is submitting at once: the same segments come
/// out, with the same boundaries, and the same backlog is left.
pub proof fn law_submit_in_parts(state: AACEncoderState, first: Seq<u32>, second: Seq<u32>)
    requires
        state.wf(),
    ensures
        state.submit(first).wf(),
        state.submit(first).submit(second) == state.submit(first + second),
        state.submitted_segments(first) + state.submit(first).submitted_segments(second)
            == state.submitted_segments(first + second),
{
    let size = segment_size(state.config);
    let d = size as int;
    let head = state.backlog + first;
    let whole = state.backlog + (first + second);
    let k1 = (head.len() / size) as int;
    let rest = chunk_rest(head, size);
    let tail = rest + second;
    let k2 = (tail.len() / size) as int;
    lemma_chunks_cover(head, size);
    lemma_chunks_cover(tail, size);
    lemma_chunks_cover(whole, size);
    assert(whole =~= head + second);
    assert(whole.len() == k1 * d + tail.len());
    lemma_fundamental_div_mod(tail.len() as int, d);
    assert(d * k2 == k2 * d) by (nonlinear_arith);
    assert((k1 + k2) * d == k1 * d + k2 * d) by (nonlinear_arith);
    lemma_fundamental_div_mod_converse(whole.len() as int, d, k1 + k2, (tail.len() % size) as int);
    assert(whole.len() / size == k1 + k2);
    assert(whole =~= head.take(k1 * d) + tail);
    assert(chunk_rest(whole, size) =~= chunk_rest(tail, size));
    let joint = state.submitted_segments(first) + state.submit(first).submitted_segments(second);
    let direct = state.submitted_segments(first + second);
    assert(joint.len() == direct.len());
    assert forall|i: int| 0 <= i < direct.len() implies joint[i] == direct[i] by {
        assert((i + 1) * d == i * d + d) by (nonlinear_arith);
        assert(0 <= i * d) by (nonlinear_arith)
            requires
                0 <= i,
                d > 0,
        ;
        if i < k1 {
            assert((i + 1) * d <= k1 * d) by (nonlinear_arith)
                requires
                    i + 1 <= k1,
                    d > 0,
            ;
            assert(whole.subrange(i * d, (i + 1) * d) =~= head.subrange(i * d, (i + 1) * d));
        } else {
            let j = i - k1;
            assert((j + 1) * d == j * d + d) by (nonlinear_arith);
            assert(i * d == k1 * d + j * d) by (nonlinear_arith)
                requires
                    i == k1 + j,
            ;
            assert((j + 1) * d <= k2 * d) by (nonlinear_arith)
                requires
                    j + 1 <= k2,
                    d > 0,
            ;
            assert(0 <= j * d) by (nonlinear_arith)
                requires
                    0 <= j,
                    d > 0,
            ;
            assert(whole.subrange(i * d, (i + 1) * d) =~= tail.subrange(j * d, (j + 1) * d));
        }
    }
    assert(joint =~= direct);
}

/// Chunking invariance: however the input is split into submissions, the
/// segments that come out and the backlog that is left are those of one
/// submission of the whole input.
pub proof fn law_chunking_invariance(state: AACEncoderState, chunks: Seq<Seq<u32>>)
    requires
        state.wf(),
    ensures
        state.submit_all(chunks).wf(),
        state.submit_all(chunks) == state.submit(joined(chunks)),
        state.segments_of_all(chunks) == state.submitted_segments(joined(chunks)),
    decreases chunks.len(),
{
    let size = segment_size(state.config);
    if chunks.len() == 0 {
        assert(state.backlog + joined(chunks) =~= state.backlog);
        lemma_chunks_cover(state.backlog, size);
        assert(state.backlog.len() / size == 0) by (nonlinear_arith)
            requires
                0 <= state.backlog.len() < size,
        ;
        assert(0 * size == 0) by (nonlinear_arith);
        assert(chunk_rest(state.backlog, size) =~= state.backlog);
        assert(state.submitted_segments(joined(chunks)) =~= Seq::<Seq<u32>>::empty());
    } else {
        law_chunking_invariance(state, chunks.drop_last());
        law_submit_in_parts(state, joined(chunks.drop_last()), chunks.last());
        lemma_chunks_cover(state.backlog + joined(chunks), size);
    }
}

/// Sample accounting: over any split of the input into submissions,
/// followed by a flush, every segment handed out holds exactly one
/// segment's worth of samples, and together they hold the number of
/// submitted samples rounded up to the next multiple of the segment size.
/// Their content is the input followed by the silence that pads it.
pub proof fn law_sample_accounting(state: AACEncoderState, chunks: Seq<Seq<u32>>)
    requires
        state.wf(),
        state.backlog.len() == 0,
    ensures
        ({
            let size = segment_size(state.config);
            let all = with_flushed(
                state.segments_of_all(chunks),
                state.submit_all(chunks).flushed_segment(),
            );
            let count = joined(chunks).len();
            &&& forall|i: int| 0 <= i < all.len() ==> (#[trigger] all[i]).len() == size
            &&& all.len() * size == round_up(count, size)
            &&& joined(all) == joined(chunks) + silence((round_up(count, size) - count) as nat)
            &&& state.submit_all(chunks).flush().backlog.len() == 0
        }),
{
    let size = segment_size(state.config);
    let d = size as int;
    let input = joined(chunks);
    let n = input.len() as int;
    law_chunking_invariance(state, chunks);
    assert(state.backlog + input =~= input);
    lemma_chunks_cover(input, size);
    let segments = whole_chunks(input, size);
    let rest = chunk_rest(input, size);
    let k = segments.len() as int;
    lemma_joined_chunks(input, size);
    assert((k + 1) * d == k * d + d) by (nonlinear_arith);
    if rest.len() > 0 {
        lemma_fundamental_div_mod_converse(n + d - 1, d, k + 1, rest.len() - 1);
        let padded = rest + silence((size - rest.len()) as nat);
        let all = segments.push(padded);
        assert(all.drop_last() =~= segments);
        assert((k + 1) * d == k * d + d) by (nonlinear_arith);
        assert(joined(all) =~= input + silence((round_up(n as nat, size) - n) as nat));
    } else {
        lemma_fundamental_div_mod_converse(n + d - 1, d, k, d - 1);
        assert(joined(segments) =~= input + silence(0));
    }
}

/// The whole chunks of a stream, joined, are the front of the stream that
/// they cover.
pub proof fn lemma_joined_chunks(stream: Seq<u32>, size: nat)
    requires
        size > 0,
    ensures
        joined(whole_chunks(stream, size)) + chunk_rest(stream, size) == stream,
    decreases stream.len(),
{
    let d = size as int;
    let n = stream.len() as int;
    let chunks = whole_chunks(stream, size);
    let k = chunks.len() as int;
    lemma_chunks_cover(stream, size);
    if k == 0 {
        assert(0 * d == 0) by (nonlinear_arith);
        assert(joined(chunks) + chunk_rest(stream, size) =~= stream);
    } else {
        let front = stream.take((k - 1) * d + stream.len() % size);
        assert((k - 1) * d == k * d - d) by (nonlinear_arith);
        assert(0 <= (k - 1) * d) by (nonlinear_arith)
            requires
                k >= 1,
                d > 0,
        ;
        lemma_fundamental_div_mod_converse(front.len() as int, d, k - 1, (stream.len() % size) as int);
        lemma_chunks_cover(front, size);
        lemma_joined_chunks(front, size);
        assert forall|i: int| 0 <= i < k - 1 implies whole_chunks(front, size)[i] == chunks[i] by {
            assert((i + 1) * d == i * d + d) by (nonlinear_arith);
            assert(0 <= i * d) by (nonlinear_arith)
                requires
                    0 <= i,
                    d > 0,
            ;
            assert((i + 1) * d <= (k - 1) * d) by (nonlinear_arith)
                requires
                    i + 1 <= k - 1,
                    d > 0,
            ;
            assert(front.subrange(i * d, (i + 1) * d) =~= stream.subrange(i * d, (i + 1) * d));
        }
        assert(chunks.drop_last() =~= whole_chunks(front, size));
        assert(joined(chunks) == joined(whole_chunks(front, size)) + chunks.last());
        assert(chunks.last() == stream.subrange((k - 1) * d, k * d));
        assert(joined(whole_chunks(front, size)) =~= stream.take((k - 1) * d)) by {
            assert(chunk_rest(front, size) =~= front.skip((k - 1) * d));
            assert(joined(whole_chunks(front, size)).len() == (k - 1) * d);
            assert(joined(whole_chunks(front, size)) =~= (joined(whole_chunks(front, size))
                + chunk_rest(front, size)).take((k - 1) * d));
            assert(front.take((k - 1) * d) =~= stream.take((k - 1) * d));
        }
        assert(joined(chunks) + chunk_rest(stream, size) =~= stream);
    }
}

/// The segments of a submission are numbered without gap and without
/// repeat: the segments that are handed on carry the numbers from the
/// encoder's counter on, one after the other, whatever failed to encode in
/// between; and the counter then stands behind the last of them, where the
/// next submission goes on. No more segments are handed on than the
/// submission held, and all of them where nothing failed.
pub proof fn law_submission_is_numbered_without_gap(
    state: AACEncoderState,
    outcomes: Seq<SegmentOutcome>,
)
    requires
        state.next_sequence + state.packaged_segments(outcomes).len() <= u32::MAX,
    ensures
        state.packaged_segments(outcomes).len() <= outcomes.len(),
        first_failure(outcomes) is None ==> state.packaged_segments(outcomes).len()
            == outcomes.len(),
        forall|i: int|
            0 <= i < state.packaged_segments(outcomes).len() ==> (#[trigger] state.packaged_segments(
                outcomes,
            )[i]).sequence == state.next_sequence + i,
        state.packaged_times(state.packaged_segments(outcomes).len()).next_sequence
            == state.next_sequence + state.packaged_segments(outcomes).len(),
    decreases outcomes.len(),
{
    if outcomes.len() > 0 {
        law_submission_is_numbered_without_gap(state, outcomes.drop_last());
    }
}

/// Over the life of an encoder the segments that it hands on are numbered
/// without gap and without repeat, however the input was split into
/// submissions and whatever failed to encode in between: the segment at
/// place `i` of all that was handed on carries the number at which the
/// encoder started plus `i`, which for a new encoder is `i` itself.
pub proof fn law_segments_are_numbered_over_submissions(
    state: AACEncoderState,
    submissions: Seq<Seq<SegmentOutcome>>,
)
    requires
        state.next_sequence + state.packaged_over(submissions).len() <= u32::MAX,
    ensures
        forall|i: int|
            0 <= i < state.packaged_over(submissions).len() ==> (#[trigger] state.packaged_over(
                submissions,
            )[i]).sequence == state.next_sequence + i,
    decreases submissions.len(),
{
    if submissions.len() > 0 {
        let before = state.packaged_over(submissions.drop_last());
        law_segments_are_numbered_over_submissions(state, submissions.drop_last());
        law_submission_is_numbered_without_gap(
            state.packaged_times(before.len()),
            submissions.last(),
        );
    }
}

/// Sequence numbers have no gaps: packaging a segment is the only step
/// that moves the sequence counter, and it moves it by one, so the
/// segments of one encoder are numbered by the order in which they are
/// packaged, whatever was submitted or flushed in between.
pub proof fn law_sequence_numbers(state: AACEncoderState, samples: Seq<u32>)
    requires
        state.next_sequence < u32::MAX,
    ensures
        state.packaged().next_sequence == state.next_sequence + 1,
        state.submit(samples).next_sequence == state.next_sequence,
        state.flush().next_sequence == state.next_sequence,
        state.packaged().backlog == state.backlog,
        state.packaged().carry == state.carry,
        state.packaged().pts == state.pts,
{
}

/// Timestamps are monotonic: they are a function of the running sample
/// count alone, and a later count never gives an earlier timestamp.
pub proof fn law_timestamps_are_monotonic(earlier: u64, later: u64, sample_rate: u32)
    requires
        earlier <= later,
        sample_rate > 0,
    ensures
        timestamp_ms(earlier, sample_rate) <= timestamp_ms(later, sample_rate),
{
    lemma_div_is_ordered(earlier as int * 1000, later as int * 1000, sample_rate as int);
}

} // verus!
