//! The recording pipeline of one session: its state machine, its stream
//! URLs and statistics, and what to do for every segment that an encoder
//! completes and for every tick of the playlist refresh.

use crate::clock::unix_millis;
use crate::config::{AudioCaptureConfig, ScreenCaptureConfig};
use crate::encoding::audio_encoder::{
    create_transcription_encoder, is_selected_rate, transcription_config, AACEncoder,
    AACEncoderState, EncodedAudioSegment,
};
use crate::encoding::hls::{
    create_cap_hls_segmenter, entry_for, make_storage_key, master_playlist_text, playlist_text,
    storage_key, window_after_push, HLSSegmentView, HLSSegmenter, PlaylistType, S3ContentType,
};
use crate::encoding::s3_uploader::{
    create_cap_s3_uploader, failure_message, request_views, timeout_message, upload_result,
    S3Uploader, S3UploaderView, TransferOutcome, UploadConfigView, UploadRequest,
    UploadRequestView,
};
use crate::encoding::video_encoder::{
    create_screen_recording_encoder, EncodedVideoSegment, VideoEncoder, VideoEncoderState,
};
use crate::encoding::{EncodingConfig, HLSConfig, PixelFormat, VideoCodec, VideoEncodingConfig};
use crate::error::{CaptureError, CaptureResult};
use vstd::prelude::*;
use vstd::string::*;
use vstd::utf8::encode_utf8;

verus! {

/// Complete recording configuration.
#[derive(Debug, Clone)]
pub struct RecordingConfig {
    /// Audio capture settings
    pub audio: AudioCaptureConfig,
    /// Screen capture settings
    pub screen: ScreenCaptureConfig,
    /// Encoding settings
    pub encoding: EncodingConfig,
    /// User ID for S3 organization
    pub user_id: String,
    /// S3 bucket for uploads
    pub s3_bucket: Option<String>,
    /// Enable real-time transcription
    pub enable_transcription: bool,
    /// Enable real-time streaming
    pub enable_streaming: bool,
}

/// Recording status.
#[derive(Debug, PartialEq, Eq)]
pub enum RecordingStatus {
    Initializing,
    Recording,
    Paused,
    Stopping,
    Stopped,
    Error(String),
}

impl Clone for RecordingStatus {
    /// The same status, with the same reason where it is an error.
    fn clone(&self) -> (res: Self)
        ensures
            res == *self,
    {
        match self {
            RecordingStatus::Initializing => RecordingStatus::Initializing,
            RecordingStatus::Recording => RecordingStatus::Recording,
            RecordingStatus::Paused => RecordingStatus::Paused,
            RecordingStatus::Stopping => RecordingStatus::Stopping,
            RecordingStatus::Stopped => RecordingStatus::Stopped,
            RecordingStatus::Error(reason) => RecordingStatus::Error(reason.clone()),
        }
    }
}

/// Stream URLs for different content types.
#[derive(Debug, Clone, PartialEq, Eq)]
pub struct StreamUrls {
    /// Master playlist URL
    pub master: Option<String>,
    /// Video stream URL
    pub video: Option<String>,
    /// Audio stream URL
    pub audio: Option<String>,
    /// Combined stream URL
    pub combined: Option<String>,
}

/// What a [`StreamUrls`] says, with its texts as character sequences.
pub struct StreamUrlsView {
    pub master: Option<Seq<char>>,
    pub video: Option<Seq<char>>,
    pub audio: Option<Seq<char>>,
    pub combined: Option<Seq<char>>,
}

/// The text of an optional string.
pub open spec fn text_of(value: Option<String>) -> Option<Seq<char>> {
    match value {
        Some(text) => Some(text@),
        None => None,
    }
}

impl View for StreamUrls {
    type V = StreamUrlsView;

    open spec fn view(&self) -> StreamUrlsView {
        StreamUrlsView {
            master: text_of(self.master),
            video: text_of(self.video),
            audio: text_of(self.audio),
            combined: text_of(self.combined),
        }
    }
}

/// Recording statistics.
#[derive(Debug, Clone, Copy, PartialEq, Eq, Structural)]
pub struct RecordingStats {
    /// Duration in milliseconds
    pub duration_ms: u64,
    /// Number of video frames captured
    pub video_frames: u32,
    /// Number of audio segments processed
    pub audio_segments: u32,
    /// Total bytes uploaded
    pub bytes_uploaded: u64,
    /// Average encoding rate in thousandths of a frame per second
    pub avg_fps_milli: u32,
}

/// Recording session information.
#[derive(Debug, PartialEq, Eq)]
pub struct RecordingSession {
    /// Session ID
    pub id: String,
    /// User ID
    pub user_id: String,
    /// Start timestamp
    pub start_time: u64,
    /// Current status
    pub status: RecordingStatus,
    /// Stream URLs (if streaming enabled)
    pub stream_urls: StreamUrls,
    /// Recording statistics
    pub stats: RecordingStats,
}

impl Default for RecordingStats {
    /// All counts at zero.
    fn default() -> (res: Self)
        ensures
            res == no_stats(),
    {
        RecordingStats {
            duration_ms: 0,
            video_frames: 0,
            audio_segments: 0,
            bytes_uploaded: 0,
            avg_fps_milli: 0,
        }
    }
}

impl Default for StreamUrls {
    /// No URL at all.
    fn default() -> (res: Self)
        ensures
            res.master is None,
            res.video is None,
            res.audio is None,
            res.combined is None,
    {
        StreamUrls { master: None, video: None, audio: None, combined: None }
    }
}

/// The statistics of a session in which nothing has happened yet.
pub open spec fn no_stats() -> RecordingStats {
    RecordingStats {
        duration_ms: 0,
        video_frames: 0,
        audio_segments: 0,
        bytes_uploaded: 0,
        avg_fps_milli: 0,
    }
}

/// The URL of the playlist of kind `kind` of a session stored in `bucket`.
pub open spec fn stream_url(
    bucket: Seq<char>,
    user_id: Seq<char>,
    session_id: Seq<char>,
    kind: S3ContentType,
) -> Seq<char> {
    "https://"@ + bucket + ".s3.amazonaws.com/"@ + storage_key(user_id, session_id, kind, 0)
}

/// Whether the status admits the transition a call asks for.
impl RecordingStatus {
    /// `pause` is accepted while recording.
    pub open spec fn can_pause(self) -> bool {
        self is Recording
    }

    /// `resume` is accepted while paused.
    pub open spec fn can_resume(self) -> bool {
        self is Paused
    }

    /// `stop` is accepted while recording or paused.
    pub open spec fn can_stop(self) -> bool {
        self is Recording || self is Paused
    }

    /// Segments are accepted from the start of the recording until its
    /// trailing segments have been routed.
    pub open spec fn takes_segments(self) -> bool {
        self is Recording || self is Paused || self is Stopping
    }
}

/// `count + more`, held at the largest value where it would not fit.
pub open spec fn counted(count: u32, more: u32) -> u32 {
    if count + more > u32::MAX {
        u32::MAX
    } else {
        (count + more) as u32
    }
}

/// `total + more`, held at the largest value where it would not fit.
pub open spec fn summed(total: u64, more: nat) -> u64 {
    if total + more > u64::MAX {
        u64::MAX
    } else {
        (total + more) as u64
    }
}

/// The time from `start` to `now`, and no time where `now` is earlier.
pub open spec fn elapsed_ms(start: u64, now: u64) -> u64 {
    if now >= start {
        (now - start) as u64
    } else {
        0
    }
}

/// Frames per second in thousandths, for `frames` frames in `duration_ms`
/// milliseconds: 0 where no time has passed, and held at the largest
/// value where it would not fit.
pub open spec fn average_fps_milli(frames: u32, duration_ms: u64) -> u32 {
    if duration_ms == 0 {
        0
    } else if (frames as int * 1_000_000) / (duration_ms as int) > u32::MAX {
        u32::MAX
    } else {
        ((frames as int * 1_000_000) / (duration_ms as int)) as u32
    }
}

/// The statistics as they stand at time `now` for a session that started
/// at `start`.
pub open spec fn stats_at(stats: RecordingStats, start: u64, now: u64) -> RecordingStats {
    RecordingStats {
        duration_ms: elapsed_ms(start, now),
        avg_fps_milli: average_fps_milli(stats.video_frames, elapsed_ms(start, now)),
        ..stats
    }
}

/// A fresh random session identifier from `uuid::Uuid::new_v4`, written in
/// the hyphenated form that `Uuid`'s `Display` gives. Of the text only its
/// length of 36 characters is claimed; which identifier comes is left to
/// chance.
#[verifier::external_body]
fn fresh_session_id() -> (id: String)
    ensures
        id@.len() == 36,
{
    uuid::Uuid::new_v4().to_string()
}

/// Computes [`counted`].
fn add_count(count: u32, more: u32) -> (res: u32)
    ensures
        res == counted(count, more),
{
    if count > u32::MAX - more {
        u32::MAX
    } else {
        count + more
    }
}

/// Computes [`summed`].
fn add_bytes(total: u64, more: usize) -> (res: u64)
    ensures
        res == summed(total, more as nat),
{
    let sum: u128 = total as u128 + more as u128;
    if sum > u64::MAX as u128 {
        u64::MAX
    } else {
        sum as u64
    }
}

/// Computes [`stats_at`].
pub fn stats_as_of(stats: RecordingStats, start: u64, now: u64) -> (res: RecordingStats)
    ensures
        res == stats_at(stats, start, now),
{
    let duration_ms = if now >= start {
        now - start
    } else {
        0
    };
    let avg_fps_milli = if duration_ms == 0 {
        0u32
    } else {
        let rate: u128 = (stats.video_frames as u128 * 1_000_000) / (duration_ms as u128);
        if rate > u32::MAX as u128 {
            u32::MAX
        } else {
            rate as u32
        }
    };
    RecordingStats {
        duration_ms,
        video_frames: stats.video_frames,
        audio_segments: stats.audio_segments,
        bytes_uploaded: stats.bytes_uploaded,
        avg_fps_milli,
    }
}

/// Derives the URL of the playlist of kind `kind`.
pub fn make_stream_url(bucket: &str, user_id: &str, session_id: &str, kind: S3ContentType) -> (res:
    String)
    ensures
        res@ == stream_url(bucket@, user_id@, session_id@, kind),
{
    let mut res = String::from_str("https://");
    res.append(bucket);
    res.append(".s3.amazonaws.com/");
    let key = make_storage_key(user_id, session_id, kind, 0);
    res.append(key.as_str());
    assert(res@ =~= stream_url(bucket@, user_id@, session_id@, kind));
    res
}

/// What the playlist manager of a session holds.
pub struct PlaylistState {
    /// The retained entries, oldest first
    pub window: Seq<HLSSegmentView>,
    /// The sequence number of the next entry
    pub next_sequence: u32,
    /// Target duration and window size
    pub config: HLSConfig,
}

/// What is kept of a video segment that waits to be paired.
pub struct WaitingVideo {
    /// The position of the segment in the video stream
    pub sequence: u32,
    /// Its duration in milliseconds
    pub duration_ms: u64,
    /// Its encoded bytes
    pub data: Seq<u8>,
}

/// What is kept of a video segment while it waits.
pub open spec fn waiting(segment: EncodedVideoSegment) -> WaitingVideo {
    WaitingVideo {
        sequence: segment.sequence,
        duration_ms: segment.duration_ms,
        data: segment.data@,
    }
}

/// What a playlist entry takes from the video segment it is paired with:
/// its duration and its size.
pub open spec fn paired_part(video: Option<WaitingVideo>) -> Option<(u64, usize)> {
    match video {
        Some(v) => Some((v.duration_ms, v.data.len() as usize)),
        None => None,
    }
}

/// What a recording pipeline holds.
pub struct PipelineView {
    /// The configuration of the session
    pub config: RecordingConfig,
    /// Where the session stands in its life
    pub status: RecordingStatus,
    /// The session identifier
    pub session_id: Seq<char>,
    /// When the recording started, milliseconds since the epoch
    pub start_time: u64,
    /// The running statistics
    pub stats: RecordingStats,
    /// The video segment that waits for the audio segment of its position
    pub pending_video: Option<WaitingVideo>,
    /// The playlist manager, once constructed
    pub playlist: Option<PlaylistState>,
    /// The uploader, where the session streams
    pub uploader: Option<S3UploaderView>,
    /// The audio encoder, while the pipeline holds it
    pub audio_encoder: Option<AACEncoderState>,
    /// The video encoder, while the pipeline holds it
    pub video_encoder: Option<VideoEncoderState>,
}

/// The message with which a session fails where the codec supports no
/// sample rate.
pub open spec fn no_codec_message() -> Seq<char> {
    "Task launch error: AAC Codec does not support sample rate "@ + crate::text::decimal(48000)
}

/// The upload settings of a session that streams into `bucket`.
pub open spec fn session_upload_config(bucket: Seq<char>) -> UploadConfigView {
    UploadConfigView {
        bucket,
        region: "us-east-1"@,
        timeout_seconds: 10,
        accelerated_transfer: true,
        endpoint: None,
    }
}

impl PipelineView {
    /// The uploader that the session's configuration calls for: one that
    /// stores under the session's user and identifier in the configured
    /// bucket, where streaming is enabled and a bucket is configured.
    pub open spec fn wanted_uploader(self) -> Option<S3UploaderView> {
        match self.config.s3_bucket {
            Some(bucket) => if self.config.enable_streaming {
                Some(
                    S3UploaderView {
                        config: session_upload_config(bucket@),
                        user_id: self.config.user_id@,
                        video_id: self.session_id,
                    },
                )
            } else {
                None
            },
            None => None,
        }
    }

    /// The parts are constructed: the playlist manager, which is there
    /// only once the encoders could be made, and, where the session
    /// streams, the uploader.
    pub open spec fn ready(self) -> bool {
        &&& self.playlist is Some
        &&& self.uploader == self.wanted_uploader()
    }

    /// What holds of every pipeline: a recording that has started has its
    /// playlist manager; an uploader, if there is one, is the one the
    /// configuration calls for; and the playlist window is bounded and
    /// numbered without gaps.
    pub open spec fn wf(self) -> bool {
        &&& (self.status.takes_segments() || self.status is Stopped) ==> self.playlist is Some
        &&& self.uploader is Some ==> self.uploader == self.wanted_uploader()
        &&& self.playlist matches Some(p) ==> {
            &&& p.window.len() <= p.config.playlist_size
            &&& crate::encoding::hls::consecutive_up_to(p.window, p.next_sequence)
        }
        &&& self.audio_encoder matches Some(e) ==> e.wf()
        &&& self.video_encoder matches Some(e) ==> e.wf()
    }

    /// The stream URLs of the session: one for the master playlist and one
    /// for each media playlist where a bucket is configured, none
    /// otherwise.
    pub open spec fn stream_urls(self) -> StreamUrlsView {
        match self.config.s3_bucket {
            Some(bucket) => StreamUrlsView {
                master: Some(
                    stream_url(
                        bucket@,
                        self.config.user_id@,
                        self.session_id,
                        S3ContentType::MasterPlaylist,
                    ),
                ),
                video: Some(
                    stream_url(
                        bucket@,
                        self.config.user_id@,
                        self.session_id,
                        S3ContentType::VideoPlaylist,
                    ),
                ),
                audio: Some(
                    stream_url(
                        bucket@,
                        self.config.user_id@,
                        self.session_id,
                        S3ContentType::AudioPlaylist,
                    ),
                ),
                combined: Some(
                    stream_url(
                        bucket@,
                        self.config.user_id@,
                        self.session_id,
                        S3ContentType::CombinedPlaylist,
                    ),
                ),
            },
            None => StreamUrlsView { master: None, video: None, audio: None, combined: None },
        }
    }

    /// The session as it is reported at time `now` with status `status`.
    pub open spec fn reports(self, session: RecordingSession, status: RecordingStatus) -> bool {
        &&& session.id@ == self.session_id
        &&& session.user_id@ == self.config.user_id@
        &&& session.start_time == self.start_time
        &&& session.status == status
        &&& session.stream_urls@ == self.stream_urls()
        &&& session.stats == self.stats
    }

    /// The video segment that is paired with the audio segment at
    /// position `audio_sequence` of the audio stream: the one that waits,
    /// if it stands at the same position of the video stream.
    pub open spec fn paired_video(self, audio_sequence: u32) -> Option<WaitingVideo> {
        match self.pending_video {
            Some(v) => if v.sequence == audio_sequence {
                Some(v)
            } else {
                None
            },
            None => None,
        }
    }

    /// The video segment that still waits once the audio segment at
    /// position `audio_sequence` has been recorded: one of a later
    /// position. One of an earlier position has missed its entry and is
    /// dropped.
    pub open spec fn still_waiting(self, audio_sequence: u32) -> Option<WaitingVideo> {
        match self.pending_video {
            Some(v) => if v.sequence > audio_sequence {
                Some(v)
            } else {
                None
            },
            None => None,
        }
    }

    /// The playlist entry that is recorded at time `now` for the audio
    /// segment at position `audio_sequence` of the audio stream, of
    /// `audio_ms` milliseconds and `audio_size` bytes. Its number is the
    /// playlist manager's own.
    pub open spec fn recorded_entry(
        self,
        audio_sequence: u32,
        audio_ms: u64,
        audio_size: usize,
        now: u64,
    ) -> HLSSegmentView {
        entry_for(
            self.playlist->0.next_sequence,
            audio_ms,
            audio_size,
            paired_part(self.paired_video(audio_sequence)),
            now,
        )
    }

    /// The state after the audio segment at position `audio_sequence` of
    /// the audio stream, of `audio_ms` milliseconds and `audio_size`
    /// bytes, has been recorded at time `now`: the playlist has its entry,
    /// paired with the video segment of the same position if that one was
    /// waiting, and the segment is counted.
    pub open spec fn with_audio_segment(
        self,
        audio_sequence: u32,
        audio_ms: u64,
        audio_size: usize,
        now: u64,
    ) -> PipelineView {
        let p = self.playlist->0;
        PipelineView {
            playlist: Some(
                PlaylistState {
                    window: window_after_push(
                        p.window,
                        self.recorded_entry(audio_sequence, audio_ms, audio_size, now),
                        p.config.playlist_size,
                    ),
                    next_sequence: (p.next_sequence + 1) as u32,
                    config: p.config,
                },
            ),
            pending_video: self.still_waiting(audio_sequence),
            stats: RecordingStats {
                audio_segments: counted(self.stats.audio_segments, 1),
                ..self.stats
            },
            ..self
        }
    }

    /// The puts that are handed out for the audio segment at position
    /// `audio_sequence` of the audio stream with bytes `audio_data`, where
    /// the session streams: the audio bytes and, where a video segment is
    /// paired with it, the video bytes and the two together, video first.
    /// Each goes under the key that the number of the recorded entry
    /// gives.
    pub open spec fn segment_puts(self, audio_sequence: u32, audio_data: Seq<u8>) -> Seq<
        UploadRequestView,
    > {
        match self.uploader {
            Some(uploader) => {
                let entry = self.playlist->0.next_sequence;
                match self.paired_video(audio_sequence) {
                    Some(v) => seq![
                        uploader.put(S3ContentType::AudioSegment, entry, audio_data),
                        uploader.put(S3ContentType::VideoSegment, entry, v.data),
                        uploader.put(S3ContentType::CombinedSegment, entry, v.data + audio_data),
                    ],
                    None => seq![uploader.put(S3ContentType::AudioSegment, entry, audio_data)],
                }
            },
            None => Seq::empty(),
        }
    }

    /// The state after a video segment has arrived: it waits for the
    /// audio segment of its position, in the place of one that was still
    /// waiting, and its frames are counted.
    pub open spec fn with_video_segment(self, segment: WaitingVideo, frames: u32) -> PipelineView {
        PipelineView {
            pending_video: Some(segment),
            stats: RecordingStats {
                video_frames: counted(self.stats.video_frames, frames),
                ..self.stats
            },
            ..self
        }
    }

    /// The puts that refresh the playlists of a session that streams: the
    /// video, audio and combined playlists and the master playlist.
    pub open spec fn playlist_puts(self) -> Seq<UploadRequestView> {
        match (self.uploader, self.playlist) {
            (Some(uploader), Some(p)) => seq![
                uploader.put(
                    S3ContentType::VideoPlaylist,
                    0,
                    encode_utf8(
                        playlist_text(p.config.target_duration, p.window, PlaylistType::Video),
                    ),
                ),
                uploader.put(
                    S3ContentType::AudioPlaylist,
                    0,
                    encode_utf8(
                        playlist_text(p.config.target_duration, p.window, PlaylistType::Audio),
                    ),
                ),
                uploader.put(
                    S3ContentType::CombinedPlaylist,
                    0,
                    encode_utf8(
                        playlist_text(p.config.target_duration, p.window, PlaylistType::Combined),
                    ),
                ),
                uploader.put(S3ContentType::MasterPlaylist, 0, encode_utf8(master_playlist_text())),
            ],
            _ => Seq::empty(),
        }
    }
}

/// The complete real-time recording pipeline of one session.
///
/// The pipeline decides; its caller does the outside work. The caller
/// drives the codecs with the encoders that the pipeline constructs,
/// hands every completed segment to the pipeline, makes the transfers
/// that the pipeline asks for, and calls for a playlist refresh on every
/// tick of its timer.
pub struct CapRecordingPipeline {
    video_encoder: Option<VideoEncoder>,
    audio_encoder: Option<AACEncoder>,
    hls_segmenter: Option<HLSSegmenter>,
    s3_uploader: Option<S3Uploader>,
    config: RecordingConfig,
    status: RecordingStatus,
    session_id: String,
    start_time: u64,
    stats: RecordingStats,
    pending_video: Option<EncodedVideoSegment>,
}

impl View for CapRecordingPipeline {
    type V = PipelineView;

    closed spec fn view(&self) -> PipelineView {
        PipelineView {
            config: self.config,
            status: self.status,
            session_id: self.session_id@,
            start_time: self.start_time,
            stats: self.stats,
            pending_video: match self.pending_video {
                Some(v) => Some(waiting(v)),
                None => None,
            },
            playlist: match self.hls_segmenter {
                Some(h) => Some(
                    PlaylistState {
                        window: h.window(),
                        next_sequence: h.next_sequence(),
                        config: h.config(),
                    },
                ),
                None => None,
            },
            uploader: match self.s3_uploader {
                Some(u) => Some(u@),
                None => None,
            },
            audio_encoder: match self.audio_encoder {
                Some(e) => Some(e@),
                None => None,
            },
            video_encoder: match self.video_encoder {
                Some(e) => Some(e@),
                None => None,
            },
        }
    }
}

impl CapRecordingPipeline {
    /// The pipeline is consistent: its view is well formed, its parts are
    /// well formed, and the playlist manager stores under the session's
    /// user and identifier.
    pub closed spec fn wf(&self) -> bool {
        &&& self@.wf()
        &&& self.hls_segmenter matches Some(h) ==> {
            &&& h.wf()
            &&& h.user_id() == self.config.user_id@
            &&& h.video_id() == self.session_id@
        }
        &&& self.audio_encoder matches Some(e) ==> e.wf()
        &&& self.video_encoder matches Some(e) ==> e.wf()
    }

    /// A consistent pipeline holds a well-formed state, so that what is
    /// proved of well-formed states holds of it.
    pub proof fn lemma_wf_state(&self)
        requires
            self.wf(),
        ensures
            self@.wf(),
    {
    }

    /// Create new recording pipeline with a fresh session identifier. The
    /// pipeline starts out initializing, with none of its parts
    /// constructed.
    pub fn new(config: RecordingConfig) -> (res: CaptureResult<Self>)
        ensures
            res matches Ok(pipeline) && pipeline.wf() && pipeline@ == (PipelineView {
                config,
                status: RecordingStatus::Initializing,
                session_id: pipeline@.session_id,
                start_time: 0,
                stats: no_stats(),
                pending_video: None,
                playlist: None,
                uploader: None,
                audio_encoder: None,
                video_encoder: None,
            }) && pipeline@.session_id.len() == 36,
    {
        let session_id = fresh_session_id();
        Ok(
            CapRecordingPipeline {
                video_encoder: None,
                audio_encoder: None,
                hls_segmenter: None,
                s3_uploader: None,
                config,
                status: RecordingStatus::Initializing,
                session_id,
                start_time: 0,
                stats: RecordingStats::default(),
                pending_video: None,
            },
        )
    }

    /// Initialize all components: the transcription audio encoder for a
    /// codec that supports `supported_rates`, a video encoder for the
    /// primary display's resolution where there is a display, the
    /// playlist manager and, where the session streams into a bucket, the
    /// uploader.
    ///
    /// Accepted once, while initializing. Where the audio encoder cannot
    /// be made, the session goes to the error state with the encoder's
    /// message.
    pub fn initialize(&mut self, supported_rates: &Vec<i32>, primary_display: Option<(u32, u32)>) -> (res:
        CaptureResult<()>)
        requires
            old(self).wf(),
        ensures
            final(self).wf(),
            final(self)@.config == old(self)@.config,
            final(self)@.session_id == old(self)@.session_id,
            final(self)@.start_time == old(self)@.start_time,
            final(self)@.stats == old(self)@.stats,
            final(self)@.pending_video == old(self)@.pending_video,
            res is Ok <==> old(self)@.status is Initializing && old(self)@.playlist is None
                && supported_rates@.len() > 0,
            res is Ok ==> {
                &&& final(self)@.status is Initializing
                &&& final(self)@.ready()
                &&& final(self)@.playlist == Some(
                    PlaylistState {
                        window: Seq::empty(),
                        next_sequence: 0,
                        config: HLSConfig {
                            segment_duration_ms: 2000,
                            target_duration: 2,
                            playlist_size: 5,
                        },
                    },
                )
                &&& final(self)@.audio_encoder matches Some(e) && e == (AACEncoderState {
                    config: transcription_config(),
                    output_rate: e.output_rate,
                    next_sequence: 0,
                    pts: 0,
                    backlog: Seq::empty(),
                    carry: Seq::empty(),
                }) && is_selected_rate(supported_rates@, 48000, e.output_rate)
                &&& final(self)@.video_encoder == match primary_display {
                    Some(resolution) => Some(
                        VideoEncoderState {
                            config: VideoEncodingConfig {
                                codec: VideoCodec::H264,
                                bitrate: 2000000,
                                frame_rate: (30, 1),
                                resolution,
                                pixel_format: PixelFormat::YUV420P,
                                hardware_acceleration: true,
                            },
                            next_sequence: 0,
                            backlog: Seq::empty(),
                            frame_counter: 0,
                            batch_frames: 0,
                        },
                    ),
                    None => None,
                }
            },
            res matches Err(e) ==> {
                &&& final(self)@.playlist == old(self)@.playlist
                &&& final(self)@.uploader == old(self)@.uploader
                &&& final(self)@.audio_encoder == old(self)@.audio_encoder
                &&& final(self)@.video_encoder == old(self)@.video_encoder
                &&& if old(self)@.status is Initializing && old(self)@.playlist is None {
                    &&& e matches CaptureError::EncodingError(m) && m@ == no_codec_message()
                    &&& final(self)@.status matches RecordingStatus::Error(reason) && reason@
                        == no_codec_message()
                } else {
                    &&& e matches CaptureError::InvalidState(m) && m@
                        == "Pipeline is already initialized"@
                    &&& final(self)@.status == old(self)@.status
                }
            },
    {
        let initializing = match &self.status {
            RecordingStatus::Initializing => true,
            _ => false,
        };
        if !initializing || self.hls_segmenter.is_some() {
            return Err(
                CaptureError::InvalidState(String::from_str("Pipeline is already initialized")),
            );
        }
        let audio_encoder = match create_transcription_encoder(supported_rates) {
            Ok(encoder) => encoder,
            Err(e) => {
                let reason = match &e {
                    CaptureError::EncodingError(m) => m.clone(),
                    _ => String::new(),
                };
                self.status = RecordingStatus::Error(reason);
                return Err(e);
            },
        };
        let video_encoder = match primary_display {
            Some(resolution) => Some(create_screen_recording_encoder(resolution)),
            None => None,
        };
        let segmenter = create_cap_hls_segmenter(self.config.user_id.clone(), self.session_id.clone());
        let uploader = if self.config.enable_streaming {
            match &self.config.s3_bucket {
                Some(bucket) => {
                    let upload_config = create_cap_s3_uploader(
                        bucket.clone(),
                        self.config.user_id.clone(),
                        self.session_id.clone(),
                    );
                    Some(
                        S3Uploader::new(
                            upload_config,
                            self.config.user_id.clone(),
                            self.session_id.clone(),
                        ),
                    )
                },
                None => None,
            }
        } else {
            None
        };
        self.audio_encoder = Some(audio_encoder);
        self.video_encoder = video_encoder;
        self.hls_segmenter = Some(segmenter);
        self.s3_uploader = uploader;
        Ok(())
    }

    /// Start recording, with the current wall-clock time as start time.
    ///
    /// What happens is what [`CapRecordingPipeline::start_recording_at`]
    /// does for the start time that the pipeline holds afterwards.
    pub fn start_recording(&mut self) -> (res: CaptureResult<RecordingSession>)
        requires
            old(self).wf(),
        ensures
            final(self).wf(),
            res is Ok <==> old(self)@.status is Initializing && old(self)@.ready(),
            res matches Ok(session) ==> {
                &&& final(self)@ == (PipelineView {
                    status: RecordingStatus::Recording,
                    start_time: final(self)@.start_time,
                    ..old(self)@
                })
                &&& final(self)@.reports(session, RecordingStatus::Recording)
            },
            res matches Err(e) ==> {
                &&& final(self)@ == old(self)@
                &&& e matches CaptureError::InvalidState(m) && m@ == if old(self)@.status
                    is Recording {
                    "Recording already in progress"@
                } else {
                    "Pipeline is not ready to record"@
                }
            },
    {
        let now = unix_millis();
        self.start_recording_at(now)
    }

    /// Start recording at time `now_ms`. Accepted while initializing, once
    /// encoder, playlist manager and, where the session streams, uploader
    /// are constructed; the session is recording afterwards. Rejected
    /// without any change in every other state, with its own message
    /// where the session is already recording.
    pub fn start_recording_at(&mut self, now_ms: u64) -> (res: CaptureResult<RecordingSession>)
        requires
            old(self).wf(),
        ensures
            final(self).wf(),
            res is Ok <==> old(self)@.status is Initializing && old(self)@.ready(),
            res matches Ok(session) ==> {
                &&& final(self)@ == (PipelineView {
                    status: RecordingStatus::Recording,
                    start_time: now_ms,
                    ..old(self)@
                })
                &&& final(self)@.reports(session, RecordingStatus::Recording)
            },
            res matches Err(e) ==> {
                &&& final(self)@ == old(self)@
                &&& e matches CaptureError::InvalidState(m) && m@ == if old(self)@.status
                    is Recording {
                    "Recording already in progress"@
                } else {
                    "Pipeline is not ready to record"@
                }
            },
    {
        match &self.status {
            RecordingStatus::Recording => {
                return Err(
                    CaptureError::InvalidState(String::from_str("Recording already in progress")),
                );
            },
            RecordingStatus::Initializing => {},
            _ => {
                return Err(
                    CaptureError::InvalidState(String::from_str("Pipeline is not ready to record")),
                );
            },
        }
        let uploader_ready = self.uploader_is_as_wanted();
        if self.hls_segmenter.is_none() || !uploader_ready {
            return Err(
                CaptureError::InvalidState(String::from_str("Pipeline is not ready to record")),
            );
        }
        self.status = RecordingStatus::Recording;
        self.start_time = now_ms;
        Ok(self.session(RecordingStatus::Recording))
    }

    /// Whether the uploader is there exactly where the configuration
    /// calls for one.
    fn uploader_is_as_wanted(&self) -> (res: bool)
        requires
            self.wf(),
        ensures
            res == (self@.uploader == self@.wanted_uploader()),
    {
        let wanted = self.config.enable_streaming && self.config.s3_bucket.is_some();
        wanted == self.s3_uploader.is_some()
    }

    /// The session as it is reported with status `status`.
    fn session(&self, status: RecordingStatus) -> (res: RecordingSession)
        ensures
            self@.reports(res, status),
    {
        RecordingSession {
            id: self.session_id.clone(),
            user_id: self.config.user_id.clone(),
            start_time: self.start_time,
            status,
            stream_urls: self.generate_stream_urls(),
            stats: self.stats,
        }
    }

    /// Pause the recording. Accepted while recording; rejected without
    /// any change in every other state.
    pub fn pause(&mut self) -> (res: CaptureResult<()>)
        requires
            old(self).wf(),
        ensures
            final(self).wf(),
            res is Ok <==> old(self)@.status.can_pause(),
            res is Ok ==> final(self)@ == (PipelineView {
                status: RecordingStatus::Paused,
                ..old(self)@
            }),
            res matches Err(e) ==> {
                &&& final(self)@ == old(self)@
                &&& e matches CaptureError::InvalidState(m) && m@ == "No recording in progress"@
            },
    {
        match &self.status {
            RecordingStatus::Recording => {},
            _ => {
                return Err(
                    CaptureError::InvalidState(String::from_str("No recording in progress")),
                );
            },
        }
        self.status = RecordingStatus::Paused;
        Ok(())
    }

    /// Resume a paused recording. Accepted while paused; rejected without
    /// any change in every other state.
    pub fn resume(&mut self) -> (res: CaptureResult<()>)
        requires
            old(self).wf(),
        ensures
            final(self).wf(),
            res is Ok <==> old(self)@.status.can_resume(),
            res is Ok ==> final(self)@ == (PipelineView {
                status: RecordingStatus::Recording,
                ..old(self)@
            }),
            res matches Err(e) ==> {
                &&& final(self)@ == old(self)@
                &&& e matches CaptureError::InvalidState(m) && m@ == "Recording is not paused"@
            },
    {
        match &self.status {
            RecordingStatus::Paused => {},
            _ => {
                return Err(CaptureError::InvalidState(String::from_str("Recording is not paused")));
            },
        }
        self.status = RecordingStatus::Recording;
        Ok(())
    }

    /// Stop recording: the session is stopping afterwards, so that the
    /// flows end, the encoders are flushed and their trailing segments
    /// are routed like any other. Accepted while recording or paused;
    /// rejected without any change in every other state.
    pub fn stop_recording(&mut self) -> (res: CaptureResult<()>)
        requires
            old(self).wf(),
        ensures
            final(self).wf(),
            res is Ok <==> old(self)@.status.can_stop(),
            res is Ok ==> final(self)@ == (PipelineView {
                status: RecordingStatus::Stopping,
                ..old(self)@
            }),
            res matches Err(e) ==> {
                &&& final(self)@ == old(self)@
                &&& e matches CaptureError::InvalidState(m) && m@ == "No recording in progress"@
            },
    {
        match &self.status {
            RecordingStatus::Recording | RecordingStatus::Paused => {},
            _ => {
                return Err(
                    CaptureError::InvalidState(String::from_str("No recording in progress")),
                );
            },
        }
        self.status = RecordingStatus::Stopping;
        Ok(())
    }

    /// Finish a stopping session at time `now_ms`: the session is stopped
    /// afterwards, its statistics are final, and it is reported with
    /// them. Accepted while stopping; rejected without any change in
    /// every other state.
    pub fn finish_recording(&mut self, now_ms: u64) -> (res: CaptureResult<RecordingSession>)
        requires
            old(self).wf(),
        ensures
            final(self).wf(),
            res is Ok <==> old(self)@.status is Stopping,
            res matches Ok(session) ==> {
                &&& final(self)@ == (PipelineView {
                    status: RecordingStatus::Stopped,
                    stats: stats_at(old(self)@.stats, old(self)@.start_time, now_ms),
                    ..old(self)@
                })
                &&& final(self)@.reports(session, RecordingStatus::Stopped)
            },
            res matches Err(e) ==> {
                &&& final(self)@ == old(self)@
                &&& e matches CaptureError::InvalidState(m) && m@ == "Recording is not stopping"@
            },
    {
        match &self.status {
            RecordingStatus::Stopping => {},
            _ => {
                return Err(
                    CaptureError::InvalidState(String::from_str("Recording is not stopping")),
                );
            },
        }
        self.stats = stats_as_of(self.stats, self.start_time, now_ms);
        self.status = RecordingStatus::Stopped;
        Ok(self.session(RecordingStatus::Stopped))
    }

    /// Record an unrecoverable failure: from any state the session goes
    /// to the error state, with `reason`.
    pub fn fail(&mut self, reason: String)
        requires
            old(self).wf(),
        ensures
            final(self).wf(),
            final(self)@ == (PipelineView {
                status: RecordingStatus::Error(reason),
                ..old(self)@
            }),
    {
        self.status = RecordingStatus::Error(reason);
    }

    /// Hands the audio encoder to the flow that drives it.
    pub fn take_audio_encoder(&mut self) -> (res: Option<AACEncoder>)
        requires
            old(self).wf(),
        ensures
            final(self).wf(),
            final(self)@ == (PipelineView { audio_encoder: None, ..old(self)@ }),
            res is Some <==> old(self)@.audio_encoder is Some,
            res matches Some(encoder) ==> encoder.wf() && Some(encoder@) == old(self)@.audio_encoder,
    {
        self.audio_encoder.take()
    }

    /// Hands the video encoder to the flow that drives it.
    pub fn take_video_encoder(&mut self) -> (res: Option<VideoEncoder>)
        requires
            old(self).wf(),
        ensures
            final(self).wf(),
            final(self)@ == (PipelineView { video_encoder: None, ..old(self)@ }),
            res is Some <==> old(self)@.video_encoder is Some,
            res matches Some(encoder) ==> encoder.wf() && Some(encoder@) == old(self)@.video_encoder,
    {
        self.video_encoder.take()
    }

    /// Generate stream URLs for the current session.
    pub fn generate_stream_urls(&self) -> (res: StreamUrls)
        ensures
            res@ == self@.stream_urls(),
    {
        match &self.config.s3_bucket {
            Some(bucket) => StreamUrls {
                master: Some(
                    make_stream_url(
                        bucket.as_str(),
                        self.config.user_id.as_str(),
                        self.session_id.as_str(),
                        S3ContentType::MasterPlaylist,
                    ),
                ),
                video: Some(
                    make_stream_url(
                        bucket.as_str(),
                        self.config.user_id.as_str(),
                        self.session_id.as_str(),
                        S3ContentType::VideoPlaylist,
                    ),
                ),
                audio: Some(
                    make_stream_url(
                        bucket.as_str(),
                        self.config.user_id.as_str(),
                        self.session_id.as_str(),
                        S3ContentType::AudioPlaylist,
                    ),
                ),
                combined: Some(
                    make_stream_url(
                        bucket.as_str(),
                        self.config.user_id.as_str(),
                        self.session_id.as_str(),
                        S3ContentType::CombinedPlaylist,
                    ),
                ),
            },
            None => StreamUrls { master: None, video: None, audio: None, combined: None },
        }
    }

    /// Get current recording status.
    pub fn get_status(&self) -> (res: RecordingStatus)
        ensures
            res == self@.status,
    {
        self.status.clone()
    }

    /// Whether captured input is to be encoded: only while recording, not
    /// while paused and not once the session is stopping.
    pub fn takes_input(&self) -> (res: bool)
        ensures
            res == (self@.status is Recording),
    {
        match &self.status {
            RecordingStatus::Recording => true,
            _ => false,
        }
    }

    /// Get session ID.
    pub fn get_session_id(&self) -> (res: &str)
        ensures
            res@ == self@.session_id,
    {
        self.session_id.as_str()
    }

    /// Get recording configuration.
    pub fn get_config(&self) -> (res: &RecordingConfig)
        ensures
            *res == self@.config,
    {
        &self.config
    }

    /// The statistics as they stand at time `now_ms`: the final ones once
    /// the session is stopped, else the running counts with the time
    /// since the start while the recording runs.
    pub fn get_stats(&self, now_ms: u64) -> (res: RecordingStats)
        ensures
            res == if self@.status.takes_segments() {
                stats_at(self@.stats, self@.start_time, now_ms)
            } else {
                self@.stats
            },
    {
        match &self.status {
            RecordingStatus::Recording | RecordingStatus::Paused | RecordingStatus::Stopping => {
                stats_as_of(self.stats, self.start_time, now_ms)
            },
            _ => self.stats,
        }
    }

    /// Routes an audio segment that the encoder completed at time
    /// `now_ms`. The playlist manager records its entry under its own
    /// next number, paired with the video segment that waits if that one
    /// stands at the same position of its stream; the segment is counted;
    /// and, where the session streams, the puts are handed out that store
    /// the audio bytes and, where a video segment is paired, the video
    /// bytes and the two together, each under the key that the entry's
    /// number gives: what the playlist lists is where the bytes go. A
    /// video segment of an earlier position that still waited is dropped;
    /// one of a later position goes on waiting. A failed upload loses the
    /// segment; nothing holds the playlist entry back for it.
    ///
    /// Accepted from the start of the recording until the session is
    /// stopped. Rejected without any change in every other state, and
    /// once the playlist's sequence numbers are used up.
    pub fn on_audio_segment(&mut self, segment: EncodedAudioSegment, now_ms: u64) -> (res:
        CaptureResult<Vec<UploadRequest>>)
        requires
            old(self).wf(),
        ensures
            final(self).wf(),
            res is Ok <==> old(self)@.status.takes_segments() && old(self)@.playlist->0.next_sequence
                < u32::MAX,
            res matches Ok(requests) ==> {
                &&& final(self)@ == old(self)@.with_audio_segment(
                    segment.sequence,
                    segment.duration_ms,
                    segment.data@.len() as usize,
                    now_ms,
                )
                &&& request_views(requests@) == old(self)@.segment_puts(
                    segment.sequence,
                    segment.data@,
                )
            },
            res matches Err(e) ==> {
                &&& final(self)@ == old(self)@
                &&& e matches CaptureError::InvalidState(m) && m@ == if old(
                    self,
                )@.status.takes_segments() {
                    "Segment sequence numbers exhausted"@
                } else {
                    "No recording in progress"@
                }
            },
    {
        match &self.status {
            RecordingStatus::Recording | RecordingStatus::Paused | RecordingStatus::Stopping => {},
            _ => {
                return Err(
                    CaptureError::InvalidState(String::from_str("No recording in progress")),
                );
            },
        }
        let mut segmenter = match self.hls_segmenter.take() {
            Some(segmenter) => segmenter,
            None => {
                return Err(
                    CaptureError::InvalidState(String::from_str("No recording in progress")),
                );
            },
        };
        let video_part: Option<(u64, usize)> = match &self.pending_video {
            Some(v) => if v.sequence == segment.sequence {
                Some((v.duration_ms, v.data.len()))
            } else {
                None
            },
            None => None,
        };
        let recorded = segmenter.record_entry(
            segment.duration_ms,
            segment.data.len(),
            video_part,
            now_ms,
        );
        self.hls_segmenter = Some(segmenter);
        let entry = match recorded {
            Ok(entry) => entry,
            Err(e) => {
                return Err(e);
            },
        };
        let mut paired: Option<EncodedVideoSegment> = None;
        match self.pending_video.take() {
            Some(v) => {
                if v.sequence == segment.sequence {
                    paired = Some(v);
                } else if v.sequence > segment.sequence {
                    self.pending_video = Some(v);
                }
            },
            None => {},
        }
        self.stats.audio_segments = add_count(self.stats.audio_segments, 1);
        let mut requests: Vec<UploadRequest> = Vec::new();
        if self.config.enable_streaming {
            match &self.s3_uploader {
                Some(uploader) => {
                    match paired {
                        Some(video) => {
                            let video_put = uploader.upload_video_segment_realtime(
                                video.clone(),
                                &entry,
                            );
                            let combined_put = uploader.upload_combined_segment(
                                segment.clone(),
                                video,
                                &entry,
                            );
                            let audio_put = uploader.upload_audio_segment_realtime(
                                segment,
                                &entry,
                            );
                            requests.push(audio_put);
                            requests.push(video_put);
                            requests.push(combined_put);
                            assert(request_views(requests@) =~= seq![
                                audio_put@,
                                video_put@,
                                combined_put@,
                            ]);
                        },
                        None => {
                            let audio_put = uploader.upload_audio_segment_realtime(
                                segment,
                                &entry,
                            );
                            requests.push(audio_put);
                            assert(request_views(requests@) =~= seq![audio_put@]);
                        },
                    }
                },
                None => {},
            }
        }
        assert(self@.uploader is None ==> request_views(requests@) =~= Seq::<
            UploadRequestView,
        >::empty());
        Ok(requests)
    }

    /// Routes a video segment that the encoder completed: it waits for
    /// the audio segment of its position, taking the place of a video
    /// segment that was still waiting, and its frames are counted. Its
    /// bytes are handed out for upload together with that audio segment,
    /// under the number of the playlist entry that lists them.
    ///
    /// Accepted from the start of the recording until the session is
    /// stopped; rejected without any change in every other state.
    pub fn on_video_segment(&mut self, segment: EncodedVideoSegment) -> (res: CaptureResult<()>)
        requires
            old(self).wf(),
        ensures
            final(self).wf(),
            res is Ok <==> old(self)@.status.takes_segments(),
            res is Ok ==> final(self)@ == old(self)@.with_video_segment(
                waiting(segment),
                segment.frame_count,
            ),
            res matches Err(e) ==> {
                &&& final(self)@ == old(self)@
                &&& e matches CaptureError::InvalidState(m) && m@ == "No recording in progress"@
            },
    {
        match &self.status {
            RecordingStatus::Recording | RecordingStatus::Paused | RecordingStatus::Stopping => {},
            _ => {
                return Err(
                    CaptureError::InvalidState(String::from_str("No recording in progress")),
                );
            },
        }
        self.stats.video_frames = add_count(self.stats.video_frames, segment.frame_count);
        self.pending_video = Some(segment);
        Ok(())
    }

    /// The work of one tick of the playlist refresh: where the session
    /// streams, the puts of the freshly rendered video, audio and combined
    /// playlists and of the master playlist, in that order; nothing
    /// otherwise.
    pub fn refresh_playlists(&self) -> (res: Vec<UploadRequest>)
        requires
            self.wf(),
        ensures
            request_views(res@) == self@.playlist_puts(),
    {
        let mut requests: Vec<UploadRequest> = Vec::new();
        match (&self.s3_uploader, &self.hls_segmenter) {
            (Some(uploader), Some(segmenter)) => {
                let video = segmenter.generate_m3u8_playlist(PlaylistType::Video);
                let audio = segmenter.generate_m3u8_playlist(PlaylistType::Audio);
                let combined = segmenter.generate_m3u8_playlist(PlaylistType::Combined);
                let master = segmenter.generate_master_playlist();
                let ghost puts = self@.playlist_puts();
                match uploader.update_playlist(video, S3ContentType::VideoPlaylist) {
                    Ok(request) => {
                        requests.push(request);
                    },
                    Err(_) => {},
                }
                match uploader.update_playlist(audio, S3ContentType::AudioPlaylist) {
                    Ok(request) => {
                        requests.push(request);
                    },
                    Err(_) => {},
                }
                match uploader.update_playlist(combined, S3ContentType::CombinedPlaylist) {
                    Ok(request) => {
                        requests.push(request);
                    },
                    Err(_) => {},
                }
                match uploader.update_playlist(master, S3ContentType::MasterPlaylist) {
                    Ok(request) => {
                        requests.push(request);
                    },
                    Err(_) => {},
                }
                assert(request_views(requests@) =~= puts);
            },
            _ => {
                assert(request_views(requests@) =~= self@.playlist_puts());
            },
        }
        requests
    }

    /// Takes note of how the transfer of `bytes` bytes to `key` ended and
    /// says what the upload returns: the bytes of a completed transfer
    /// are counted as uploaded; a transfer that timed out or failed
    /// counts nothing and is reported with its own error, after which the
    /// stream goes on without a retry.
    pub fn record_upload(&mut self, key: &str, bytes: usize, outcome: TransferOutcome) -> (res:
        CaptureResult<String>)
        requires
            old(self).wf(),
        ensures
            final(self).wf(),
            final(self)@ == (PipelineView {
                stats: RecordingStats {
                    bytes_uploaded: if outcome is Completed {
                        summed(old(self)@.stats.bytes_uploaded, bytes as nat)
                    } else {
                        old(self)@.stats.bytes_uploaded
                    },
                    ..old(self)@.stats
                },
                ..old(self)@
            }),
            res is Ok <==> outcome is Completed,
            res matches Ok(stored) ==> stored@ == key@,
            res matches Err(e) ==> e matches CaptureError::Upload(m) && m@ == match outcome {
                TransferOutcome::Failed(cause) => failure_message(key@, cause@),
                _ => timeout_message(key@),
            },
    {
        match &outcome {
            TransferOutcome::Completed => {
                self.stats.bytes_uploaded = add_bytes(self.stats.bytes_uploaded, bytes);
            },
            _ => {},
        }
        upload_result(key, outcome)
    }
}

/// What a playlist lists is where the bytes are stored. For every audio
/// segment that a streaming session records, each URL that the recorded
/// entry lists, behind the session's `{user}/{session}/`, is the key of a
/// put that is handed out with it, and that put carries the bytes of that
/// kind: the audio bytes under the audio URL and, where a video segment is
/// paired, the video bytes under the video URL and the two together under
/// the combined URL. No put is handed out for a URL that the entry does
/// not list. This holds whatever number the encoder gave the segment.
pub proof fn law_listed_urls_are_stored(
    state: PipelineView,
    audio_sequence: u32,
    audio_ms: u64,
    audio_data: Seq<u8>,
    now: u64,
)
    requires
        state.playlist is Some,
        state.uploader is Some,
    ensures
        ({
            let entry = state.recorded_entry(
                audio_sequence,
                audio_ms,
                audio_data.len() as usize,
                now,
            );
            let puts = state.segment_puts(audio_sequence, audio_data);
            let uploader = state.uploader->0;
            let home = uploader.user_id + "/"@ + uploader.video_id + "/"@;
            &&& entry.sequence_number == state.playlist->0.next_sequence
            &&& puts.len() >= 1
            &&& puts[0].key == home + entry.audio_url
            &&& puts[0].body == audio_data
            &&& match state.paired_video(audio_sequence) {
                Some(video) => {
                    &&& puts.len() == 3
                    &&& puts[1].key == home + entry.video_url
                    &&& puts[1].body == video.data
                    &&& entry.combined_url is Some
                    &&& puts[2].key == home + entry.combined_url->0
                    &&& puts[2].body == video.data + audio_data
                },
                None => {
                    &&& puts.len() == 1
                    &&& entry.video_url.len() == 0
                    &&& entry.combined_url is None
                },
            }
        }),
{
}

/// The session's life follows its state machine: a session that is
/// initializing can only start; recording and paused alternate by pause
/// and resume; stop is accepted exactly while recording or paused; and
/// segments are accepted from the start until the session is stopped.
pub proof fn law_session_state_machine(status: RecordingStatus)
    ensures
        status.can_pause() ==> status.can_stop() && status.takes_segments() && !status.can_resume(),
        status.can_resume() ==> status.can_stop() && status.takes_segments() && !status.can_pause(),
        status.can_stop() <==> status.can_pause() || status.can_resume(),
        status is Initializing || status is Stopped || status is Error ==> !status.can_stop()
            && !status.takes_segments(),
        status is Stopping ==> status.takes_segments() && !status.can_stop(),
{
}

} // verus!
