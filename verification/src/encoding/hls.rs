//! HLS segmentation and playlist generation: a bounded window of the most
//! recent segments, rendered on demand as playlist text.

use crate::clock::unix_millis;
use crate::encoding::audio_encoder::EncodedAudioSegment;
use crate::encoding::video_encoder::EncodedVideoSegment;
use crate::encoding::HLSConfig;
use crate::error::{CaptureError, CaptureResult};
use crate::text::{decimal, law_decimal_is_injective, push_decimal, push_seconds, seconds_text};
use std::collections::VecDeque;
use vstd::prelude::*;
use vstd::string::*;

verus! {

/// Type of HLS playlist to generate.
#[derive(Debug, Clone, Copy, PartialEq, Eq, Structural)]
pub enum PlaylistType {
    Video,
    Audio,
    Combined,
}

/// S3 content type for different segment types.
#[derive(Debug, Clone, Copy, PartialEq, Eq, Structural)]
pub enum S3ContentType {
    VideoSegment,
    AudioSegment,
    CombinedSegment,
    VideoPlaylist,
    AudioPlaylist,
    CombinedPlaylist,
    MasterPlaylist,
}

/// HLS segment information.
#[derive(Debug, PartialEq, Eq)]
pub struct HLSSegment {
    /// Segment sequence number
    pub sequence_number: u32,
    /// Segment duration in milliseconds
    pub duration_ms: u64,
    /// Video segment URL/path, empty where the entry has no video
    pub video_url: String,
    /// Audio segment URL/path
    pub audio_url: String,
    /// Combined segment URL/path (optional)
    pub combined_url: Option<String>,
    /// Timestamp when segment was created
    pub timestamp: u64,
    /// Byte size of video data
    pub video_size: usize,
    /// Byte size of audio data
    pub audio_size: usize,
}

/// What an [`HLSSegment`] says, with its texts as character sequences.
pub struct HLSSegmentView {
    pub sequence_number: u32,
    pub duration_ms: u64,
    pub video_url: Seq<char>,
    pub audio_url: Seq<char>,
    pub combined_url: Option<Seq<char>>,
    pub timestamp: u64,
    pub video_size: usize,
    pub audio_size: usize,
}

impl View for HLSSegment {
    type V = HLSSegmentView;

    open spec fn view(&self) -> HLSSegmentView {
        HLSSegmentView {
            sequence_number: self.sequence_number,
            duration_ms: self.duration_ms,
            video_url: self.video_url@,
            audio_url: self.audio_url@,
            combined_url: match self.combined_url {
                Some(url) => Some(url@),
                None => None,
            },
            timestamp: self.timestamp,
            video_size: self.video_size,
            audio_size: self.audio_size,
        }
    }
}

impl Clone for HLSSegment {
    /// A copy that says the same as the segment it is made from.
    fn clone(&self) -> (res: Self)
        ensures
            res@ == self@,
    {
        let combined_url = match &self.combined_url {
            Some(url) => Some(url.clone()),
            None => None,
        };
        HLSSegment {
            sequence_number: self.sequence_number,
            duration_ms: self.duration_ms,
            video_url: self.video_url.clone(),
            audio_url: self.audio_url.clone(),
            combined_url,
            timestamp: self.timestamp,
            video_size: self.video_size,
            audio_size: self.audio_size,
        }
    }
}

/// HLS playlist as a value: what a rendering of the window states.
#[derive(Debug, Clone, PartialEq, Eq)]
pub struct HLSPlaylist {
    /// Playlist version
    pub version: u32,
    /// Target duration in seconds
    pub target_duration: u32,
    /// Media sequence number
    pub media_sequence: u32,
    /// List of segments
    pub segments: Vec<HLSSegment>,
    /// Whether the playlist is complete
    pub end_list: bool,
}

/// The views of a sequence of segments.
pub open spec fn segment_views(segments: Seq<HLSSegment>) -> Seq<HLSSegmentView> {
    segments.map_values(|s: HLSSegment| s@)
}

/// Relative URL of the video part of entry `seq`.
pub open spec fn video_url_text(seq: u32) -> Seq<char> {
    "video/video_recording_"@ + decimal(seq as nat) + ".ts"@
}

/// Relative URL of the audio part of entry `seq`.
pub open spec fn audio_url_text(seq: u32) -> Seq<char> {
    "audio/audio_recording_"@ + decimal(seq as nat) + ".aac"@
}

/// Relative URL of the combined stream of entry `seq`.
pub open spec fn combined_url_text(seq: u32) -> Seq<char> {
    "combined-source/segment_"@ + decimal(seq as nat) + ".ts"@
}

/// The larger of two durations.
pub open spec fn longer(a: u64, b: u64) -> u64 {
    if a >= b {
        a
    } else {
        b
    }
}

/// The entry recorded at sequence position `seq` for an audio segment of
/// `audio_ms` milliseconds and `audio_size` bytes, with the duration and
/// size of the video segment that shares the position, if one has arrived.
pub open spec fn entry_for(
    seq: u32,
    audio_ms: u64,
    audio_size: usize,
    video: Option<(u64, usize)>,
    timestamp: u64,
) -> HLSSegmentView {
    HLSSegmentView {
        sequence_number: seq,
        duration_ms: match video {
            Some(v) => longer(audio_ms, v.0),
            None => audio_ms,
        },
        video_url: match video {
            Some(_) => video_url_text(seq),
            None => Seq::empty(),
        },
        audio_url: audio_url_text(seq),
        combined_url: match video {
            Some(_) => Some(combined_url_text(seq)),
            None => None,
        },
        timestamp,
        video_size: match video {
            Some(v) => v.1,
            None => 0,
        },
        audio_size,
    }
}

/// The window after `entry` is appended to `window` and the oldest entries
/// are evicted until at most `capacity` remain.
pub open spec fn window_after_push(
    window: Seq<HLSSegmentView>,
    entry: HLSSegmentView,
    capacity: usize,
) -> Seq<HLSSegmentView> {
    let pushed = window.push(entry);
    if pushed.len() > capacity {
        pushed.skip(pushed.len() - capacity)
    } else {
        pushed
    }
}

/// The URL under which playlist kind `kind` lists `entry`, if it lists it.
pub open spec fn entry_url(entry: HLSSegmentView, kind: PlaylistType) -> Option<Seq<char>> {
    match kind {
        PlaylistType::Video => if entry.video_url.len() > 0 {
            Some(entry.video_url)
        } else {
            None
        },
        PlaylistType::Audio => if entry.audio_url.len() > 0 {
            Some(entry.audio_url)
        } else {
            None
        },
        PlaylistType::Combined => entry.combined_url,
    }
}

/// The duration line and URL line of `entry` in a playlist of kind `kind`;
/// nothing where the entry lacks that kind's URL.
pub open spec fn entry_lines(entry: HLSSegmentView, kind: PlaylistType) -> Seq<char> {
    match entry_url(entry, kind) {
        Some(url) => "#EXTINF:"@ + seconds_text(entry.duration_ms as nat) + ",\n"@ + url + "\n"@,
        None => Seq::empty(),
    }
}

/// The lines of all `entries`, oldest first.
pub open spec fn entries_text(entries: Seq<HLSSegmentView>, kind: PlaylistType) -> Seq<char>
    decreases entries.len(),
{
    if entries.len() == 0 {
        Seq::empty()
    } else {
        entries_text(entries.drop_last(), kind) + entry_lines(entries.last(), kind)
    }
}

/// The sequence number of the oldest retained entry.
pub open spec fn media_sequence(entries: Seq<HLSSegmentView>) -> Option<u32> {
    if entries.len() > 0 {
        Some(entries[0].sequence_number)
    } else {
        None
    }
}

/// The header of a media playlist: format tag, version, target duration and,
/// where the window is not empty, the media-sequence tag.
pub open spec fn playlist_header(target_duration: u32, entries: Seq<HLSSegmentView>) -> Seq<char> {
    "#EXTM3U\n"@ + "#EXT-X-VERSION:3\n"@ + "#EXT-X-TARGETDURATION:"@ + decimal(
        target_duration as nat,
    ) + "\n"@ + match media_sequence(entries) {
        Some(seq) => "#EXT-X-MEDIA-SEQUENCE:"@ + decimal(seq as nat) + "\n"@,
        None => Seq::empty(),
    }
}

/// The whole text of a media playlist of kind `kind` over `entries`.
pub open spec fn playlist_text(
    target_duration: u32,
    entries: Seq<HLSSegmentView>,
    kind: PlaylistType,
) -> Seq<char> {
    playlist_header(target_duration, entries) + entries_text(entries, kind)
}

/// The text of the master playlist: one variant for video, one for audio.
pub open spec fn master_playlist_text() -> Seq<char> {
    "#EXTM3U\n"@ + "#EXT-X-VERSION:3\n"@
        + "#EXT-X-STREAM-INF:BANDWIDTH=2000000,RESOLUTION=1920x1080\n"@ + "video/stream.m3u8\n"@
        + "#EXT-X-STREAM-INF:BANDWIDTH=128000\n"@ + "audio/stream.m3u8\n"@
}

/// The part of a storage key that follows `{user}/{session}/` for content
/// `kind` at sequence position `seq`.
pub open spec fn key_tail(kind: S3ContentType, seq: u32) -> Seq<char> {
    match kind {
        S3ContentType::VideoSegment => video_url_text(seq),
        S3ContentType::AudioSegment => audio_url_text(seq),
        S3ContentType::CombinedSegment => combined_url_text(seq),
        S3ContentType::VideoPlaylist => "video/stream.m3u8"@,
        S3ContentType::AudioPlaylist => "audio/stream.m3u8"@,
        S3ContentType::CombinedPlaylist => "combined/stream.m3u8"@,
        S3ContentType::MasterPlaylist => "stream.m3u8"@,
    }
}

/// The storage key of content `kind` at sequence position `seq` in the
/// session `video_id` of user `user_id`.
pub open spec fn storage_key(
    user_id: Seq<char>,
    video_id: Seq<char>,
    kind: S3ContentType,
    seq: u32,
) -> Seq<char> {
    user_id + "/"@ + video_id + "/"@ + key_tail(kind, seq)
}

impl S3ContentType {
    /// The MIME type that content of this kind is stored with.
    pub open spec fn mime(self) -> Seq<char> {
        match self {
            S3ContentType::VideoSegment | S3ContentType::CombinedSegment => "video/mp2t"@,
            S3ContentType::AudioSegment => "audio/aac"@,
            S3ContentType::VideoPlaylist
            | S3ContentType::AudioPlaylist
            | S3ContentType::CombinedPlaylist
            | S3ContentType::MasterPlaylist => "application/vnd.apple.mpegurl"@,
        }
    }

    /// Whether content of this kind is a playlist rather than a segment.
    pub open spec fn is_playlist(self) -> bool {
        self is VideoPlaylist || self is AudioPlaylist || self is CombinedPlaylist
            || self is MasterPlaylist
    }

    /// Get MIME type for S3 upload.
    pub fn mime_type(&self) -> (res: &'static str)
        ensures
            res@ == self.mime(),
    {
        match self {
            S3ContentType::VideoSegment | S3ContentType::CombinedSegment => "video/mp2t",
            S3ContentType::AudioSegment => "audio/aac",
            S3ContentType::VideoPlaylist
            | S3ContentType::AudioPlaylist
            | S3ContentType::CombinedPlaylist
            | S3ContentType::MasterPlaylist => "application/vnd.apple.mpegurl",
        }
    }
}

/// Appends the part of a storage key that follows `{user}/{session}/`.
pub fn push_key_tail(out: &mut String, kind: S3ContentType, seq: u32)
    ensures
        final(out)@ == old(out)@ + key_tail(kind, seq),
{
    match kind {
        S3ContentType::VideoSegment => {
            out.append("video/video_recording_");
            push_decimal(out, seq as u64);
            out.append(".ts");
            assert(final(out)@ =~= old(out)@ + key_tail(kind, seq));
        },
        S3ContentType::AudioSegment => {
            out.append("audio/audio_recording_");
            push_decimal(out, seq as u64);
            out.append(".aac");
            assert(final(out)@ =~= old(out)@ + key_tail(kind, seq));
        },
        S3ContentType::CombinedSegment => {
            out.append("combined-source/segment_");
            push_decimal(out, seq as u64);
            out.append(".ts");
            assert(final(out)@ =~= old(out)@ + key_tail(kind, seq));
        },
        S3ContentType::VideoPlaylist => {
            out.append("video/stream.m3u8");
        },
        S3ContentType::AudioPlaylist => {
            out.append("audio/stream.m3u8");
        },
        S3ContentType::CombinedPlaylist => {
            out.append("combined/stream.m3u8");
        },
        S3ContentType::MasterPlaylist => {
            out.append("stream.m3u8");
        },
    }
}

/// Derives the storage key of content `kind` at sequence position `seq`.
pub fn make_storage_key(user_id: &str, video_id: &str, kind: S3ContentType, seq: u32) -> (res:
    String)
    ensures
        res@ == storage_key(user_id@, video_id@, kind, seq),
{
    let mut res = String::from_str(user_id);
    res.append("/");
    res.append(video_id);
    res.append("/");
    push_key_tail(&mut res, kind, seq);
    assert(res@ =~= storage_key(user_id@, video_id@, kind, seq));
    res
}

/// Duration and byte size of the video segment that shares an entry's
/// position, if there is one.
pub open spec fn video_part(video: Option<EncodedVideoSegment>) -> Option<(u64, usize)> {
    match video {
        Some(v) => Some((v.duration_ms, v.data@.len() as usize)),
        None => None,
    }
}

/// The entries carry consecutive sequence numbers, the last of them one
/// below `next`.
pub open spec fn consecutive_up_to(entries: Seq<HLSSegmentView>, next: u32) -> bool {
    forall|i: int|
        0 <= i < entries.len() ==> #[trigger] entries[i].sequence_number + (entries.len() - i)
            == next
}

/// HLS segmenter: the playlist manager of one session.
///
/// Entries are evicted oldest first as soon as the window holds more than
/// the configured number, whether or not their upload has completed.
pub struct HLSSegmenter {
    config: HLSConfig,
    segments: VecDeque<HLSSegment>,
    sequence_counter: u32,
    user_id: String,
    video_id: String,
}

impl HLSSegmenter {
    /// The retained entries, oldest first.
    pub closed spec fn window(&self) -> Seq<HLSSegmentView> {
        segment_views(self.segments@)
    }

    /// The sequence number that the next entry will get.
    pub closed spec fn next_sequence(&self) -> u32 {
        self.sequence_counter
    }

    /// The configuration the segmenter was made with.
    pub closed spec fn config(&self) -> HLSConfig {
        self.config
    }

    /// The user that owns the session.
    pub closed spec fn user_id(&self) -> Seq<char> {
        self.user_id@
    }

    /// The session (video) identifier.
    pub closed spec fn video_id(&self) -> Seq<char> {
        self.video_id@
    }

    /// The window holds at most the configured number of entries, and the
    /// retained entries carry consecutive sequence numbers that end just
    /// below the counter.
    pub open spec fn wf(&self) -> bool {
        &&& self.window().len() <= self.config().playlist_size
        &&& consecutive_up_to(self.window(), self.next_sequence())
    }

    /// Create new HLS segmenter.
    pub fn new(config: HLSConfig, user_id: String, video_id: String) -> (res: Self)
        ensures
            res.wf(),
            res.window() == Seq::<HLSSegmentView>::empty(),
            res.next_sequence() == 0,
            res.config() == config,
            res.user_id() == user_id@,
            res.video_id() == video_id@,
    {
        let res = HLSSegmenter {
            config,
            segments: VecDeque::new(),
            sequence_counter: 0,
            user_id,
            video_id,
        };
        assert(res.window() =~= Seq::<HLSSegmentView>::empty());
        res
    }

    /// Create HLS segment from encoded audio and video data, stamped with
    /// the current wall-clock time.
    ///
    /// What is recorded is what [`HLSSegmenter::create_hls_segment_at`]
    /// records for the timestamp that the returned entry carries.
    pub fn create_hls_segment(
        &mut self,
        audio_segment: EncodedAudioSegment,
        video_segment: Option<EncodedVideoSegment>,
    ) -> (res: CaptureResult<HLSSegment>)
        requires
            old(self).wf(),
        ensures
            final(self).wf(),
            final(self).config() == old(self).config(),
            final(self).user_id() == old(self).user_id(),
            final(self).video_id() == old(self).video_id(),
            res is Ok <==> old(self).next_sequence() < u32::MAX,
            res matches Ok(entry) ==> {
                &&& entry@ == entry_for(
                    old(self).next_sequence(),
                    audio_segment.duration_ms,
                    audio_segment.data@.len() as usize,
                    video_part(video_segment),
                    entry.timestamp,
                )
                &&& final(self).window() == window_after_push(
                    old(self).window(),
                    entry@,
                    old(self).config().playlist_size,
                )
                &&& final(self).next_sequence() == old(self).next_sequence() + 1
            },
            res matches Err(e) ==> {
                &&& e matches CaptureError::InvalidState(m) && m@ == "Segment sequence numbers exhausted"@
                &&& final(self).window() == old(self).window()
                &&& final(self).next_sequence() == old(self).next_sequence()
            },
    {
        let timestamp = unix_millis();
        self.create_hls_segment_at(audio_segment, video_segment, timestamp)
    }

    /// Records the entry for the next sequence position with the given
    /// creation time: appends it to the window, evicts from the front while
    /// the window holds more than the configured number of entries, and
    /// advances the sequence counter. Fails, changing nothing, once the
    /// sequence numbers are used up.
    pub fn create_hls_segment_at(
        &mut self,
        audio_segment: EncodedAudioSegment,
        video_segment: Option<EncodedVideoSegment>,
        timestamp: u64,
    ) -> (res: CaptureResult<HLSSegment>)
        requires
            old(self).wf(),
        ensures
            final(self).wf(),
            final(self).config() == old(self).config(),
            final(self).user_id() == old(self).user_id(),
            final(self).video_id() == old(self).video_id(),
            res is Ok <==> old(self).next_sequence() < u32::MAX,
            res matches Ok(entry) ==> {
                &&& entry@ == entry_for(
                    old(self).next_sequence(),
                    audio_segment.duration_ms,
                    audio_segment.data@.len() as usize,
                    video_part(video_segment),
                    timestamp,
                )
                &&& final(self).window() == window_after_push(
                    old(self).window(),
                    entry@,
                    old(self).config().playlist_size,
                )
                &&& final(self).next_sequence() == old(self).next_sequence() + 1
            },
            res matches Err(e) ==> {
                &&& e matches CaptureError::InvalidState(m) && m@ == "Segment sequence numbers exhausted"@
                &&& final(self).window() == old(self).window()
                &&& final(self).next_sequence() == old(self).next_sequence()
            },
    {
        let video = match &video_segment {
            Some(v) => Some((v.duration_ms, v.data.len())),
            None => None,
        };
        self.record_entry(audio_segment.duration_ms, audio_segment.data.len(), video, timestamp)
    }

    /// Records the entry for the next sequence position from the duration
    /// and size of its audio segment, the duration and size of the video
    /// segment that shares the position, if one has arrived, and the
    /// creation time: appends it to the window, evicts from the front
    /// while the window holds more than the configured number of entries,
    /// and advances the sequence counter. Fails, changing nothing, once
    /// the sequence numbers are used up.
    pub fn record_entry(
        &mut self,
        audio_ms: u64,
        audio_size: usize,
        video: Option<(u64, usize)>,
        timestamp: u64,
    ) -> (res: CaptureResult<HLSSegment>)
        requires
            old(self).wf(),
        ensures
            final(self).wf(),
            final(self).config() == old(self).config(),
            final(self).user_id() == old(self).user_id(),
            final(self).video_id() == old(self).video_id(),
            res is Ok <==> old(self).next_sequence() < u32::MAX,
            res matches Ok(entry) ==> {
                &&& entry@ == entry_for(
                    old(self).next_sequence(),
                    audio_ms,
                    audio_size,
                    video,
                    timestamp,
                )
                &&& final(self).window() == window_after_push(
                    old(self).window(),
                    entry@,
                    old(self).config().playlist_size,
                )
                &&& final(self).next_sequence() == old(self).next_sequence() + 1
            },
            res matches Err(e) ==> {
                &&& e matches CaptureError::InvalidState(m) && m@ == "Segment sequence numbers exhausted"@
                &&& final(self).window() == old(self).window()
                &&& final(self).next_sequence() == old(self).next_sequence()
            },
    {
        if self.sequence_counter == u32::MAX {
            return Err(
                CaptureError::InvalidState(String::from_str("Segment sequence numbers exhausted")),
            );
        }
        let seq = self.sequence_counter;
        let mut duration_ms = audio_ms;
        let mut video_url = String::new();
        let mut combined_url: Option<String> = None;
        let mut video_size: usize = 0;
        match video {
            Some((video_ms, size)) => {
                if video_ms > duration_ms {
                    duration_ms = video_ms;
                }
                push_key_tail(&mut video_url, S3ContentType::VideoSegment, seq);
                let mut combined = String::new();
                push_key_tail(&mut combined, S3ContentType::CombinedSegment, seq);
                combined_url = Some(combined);
                video_size = size;
            },
            None => {},
        }
        let mut audio_url = String::new();
        push_key_tail(&mut audio_url, S3ContentType::AudioSegment, seq);
        let segment = HLSSegment {
            sequence_number: seq,
            duration_ms,
            video_url,
            audio_url,
            combined_url,
            timestamp,
            video_size,
            audio_size,
        };
        proof {
            assert(segment@.video_url =~= entry_for(
                seq,
                audio_ms,
                audio_size,
                video,
                timestamp,
            ).video_url);
            assert(segment@.audio_url =~= audio_url_text(seq));
            if video is Some {
                assert(segment@.combined_url->0 =~= combined_url_text(seq));
            }
        }
        let ghost before = self.segments@;
        self.segments.push_back(segment.clone());
        let ghost pushed = self.segments@;
        proof {
            assert(segment_views(pushed) =~= segment_views(before).push(segment@));
        }
        let capacity = self.config.playlist_size;
        while self.segments.len() > capacity
            invariant
                self.segments@.len() <= pushed.len(),
                self.segments@.len() == pushed.len() || self.segments@.len() >= capacity,
                self.segments@ == pushed.skip(pushed.len() - self.segments@.len()),
                self.config == old(self).config,
                self.user_id == old(self).user_id,
                self.video_id == old(self).video_id,
                self.sequence_counter == old(self).sequence_counter,
                capacity == self.config.playlist_size,
            decreases self.segments@.len(),
        {
            let ghost current = self.segments@;
            self.segments.pop_front();
            assert(self.segments@ =~= pushed.skip(pushed.len() - self.segments@.len()));
        }
        self.sequence_counter = seq + 1;
        proof {
            let views = segment_views(pushed);
            let kept = self.segments@;
            let drop = pushed.len() - kept.len();
            assert(segment_views(kept) =~= views.skip(drop));
            if pushed.len() > capacity {
                assert(kept.len() == capacity);
            } else {
                assert(pushed.skip(0) =~= pushed);
                assert(kept.len() == pushed.len());
            }
            assert(self.window() =~= window_after_push(old(self).window(), segment@, capacity));
            assert forall|i: int| 0 <= i < self.window().len() implies #[trigger] self.window()[i].sequence_number
                + (self.window().len() - i) == self.next_sequence() by {
                if i + drop < before.len() {
                    assert(old(self).window()[i + drop] == views[i + drop]);
                }
            }
        }
        Ok(segment)
    }

    /// Generate HLS playlist in M3U8 format: the header, then for each
    /// retained entry that has the requested kind's URL its duration line
    /// and its URL line.
    pub fn generate_m3u8_playlist(&self, playlist_type: PlaylistType) -> (res: String)
        ensures
            res@ == playlist_text(self.config().target_duration, self.window(), playlist_type),
    {
        let mut playlist = String::new();
        playlist.append("#EXTM3U\n");
        playlist.append("#EXT-X-VERSION:3\n");
        playlist.append("#EXT-X-TARGETDURATION:");
        push_decimal(&mut playlist, self.config.target_duration as u64);
        playlist.append("\n");
        if self.segments.len() > 0 {
            playlist.append("#EXT-X-MEDIA-SEQUENCE:");
            push_decimal(&mut playlist, self.segments[0].sequence_number as u64);
            playlist.append("\n");
        }
        assert(playlist@ =~= playlist_header(self.config().target_duration, self.window()));
        let ghost header = playlist@;
        let mut i: usize = 0;
        while i < self.segments.len()
            invariant
                i <= self.segments@.len(),
                playlist@ == header + entries_text(self.window().take(i as int), playlist_type),
            decreases self.segments@.len() - i,
        {
            let segment = &self.segments[i];
            let ghost so_far = playlist@;
            let listed = match playlist_type {
                PlaylistType::Video => !segment.video_url.as_str().is_empty(),
                PlaylistType::Audio => !segment.audio_url.as_str().is_empty(),
                PlaylistType::Combined => segment.combined_url.is_some(),
            };
            assert(listed == entry_url(segment@, playlist_type).is_some());
            if listed {
                playlist.append("#EXTINF:");
                push_seconds(&mut playlist, segment.duration_ms);
                playlist.append(",\n");
                match playlist_type {
                    PlaylistType::Video => {
                        playlist.append(segment.video_url.as_str());
                    },
                    PlaylistType::Audio => {
                        playlist.append(segment.audio_url.as_str());
                    },
                    PlaylistType::Combined => {
                        match &segment.combined_url {
                            Some(url) => {
                                playlist.append(url.as_str());
                            },
                            None => {},
                        }
                    },
                }
                playlist.append("\n");
            }
            proof {
                let next = self.window().take(i as int + 1);
                assert(next.drop_last() =~= self.window().take(i as int));
                assert(next.last() == segment@);
                assert(playlist@ =~= so_far + entry_lines(segment@, playlist_type));
                assert(playlist@ =~= header + entries_text(next, playlist_type));
            }
            i += 1;
        }
        assert(self.window().take(self.segments@.len() as int) =~= self.window());
        playlist
    }

    /// Generate master playlist for multi-stream playback.
    pub fn generate_master_playlist(&self) -> (res: String)
        ensures
            res@ == master_playlist_text(),
    {
        let mut playlist = String::new();
        playlist.append("#EXTM3U\n");
        playlist.append("#EXT-X-VERSION:3\n");
        playlist.append("#EXT-X-STREAM-INF:BANDWIDTH=2000000,RESOLUTION=1920x1080\n");
        playlist.append("video/stream.m3u8\n");
        playlist.append("#EXT-X-STREAM-INF:BANDWIDTH=128000\n");
        playlist.append("audio/stream.m3u8\n");
        assert(playlist@ =~= master_playlist_text());
        playlist
    }

    /// Get current segments, oldest first.
    pub fn get_segments(&self) -> (res: Vec<HLSSegment>)
        ensures
            segment_views(res@) == self.window(),
    {
        let mut res: Vec<HLSSegment> = Vec::new();
        let mut i: usize = 0;
        while i < self.segments.len()
            invariant
                i <= self.segments@.len(),
                segment_views(res@) == self.window().take(i as int),
            decreases self.segments@.len() - i,
        {
            let ghost copied = res@;
            let entry = self.segments[i].clone();
            res.push(entry);
            i += 1;
            proof {
                assert(segment_views(res@) =~= segment_views(copied).push(entry@));
                assert(self.window().take(i as int) =~= self.window().take(i as int - 1).push(
                    self.window()[i as int - 1],
                ));
            }
        }
        assert(self.window().take(self.segments@.len() as int) =~= self.window());
        res
    }

    /// Get the latest segment.
    pub fn get_latest_segment(&self) -> (res: Option<&HLSSegment>)
        ensures
            res is Some <==> self.window().len() > 0,
            res matches Some(entry) ==> entry@ == self.window().last(),
    {
        let n = self.segments.len();
        if n == 0 {
            None
        } else {
            Some(&self.segments[n - 1])
        }
    }

    /// Generate S3 key for segment. The key depends on the session, the
    /// content kind and the entry's sequence number only.
    pub fn generate_s3_key(&self, segment: &HLSSegment, content_type: S3ContentType) -> (res:
        String)
        ensures
            res@ == storage_key(
                self.user_id(),
                self.video_id(),
                content_type,
                segment.sequence_number,
            ),
    {
        make_storage_key(
            self.user_id.as_str(),
            self.video_id.as_str(),
            content_type,
            segment.sequence_number,
        )
    }

    /// Clear all segments and restart the sequence numbers at zero.
    pub fn clear_segments(&mut self)
        ensures
            final(self).wf(),
            final(self).window() == Seq::<HLSSegmentView>::empty(),
            final(self).next_sequence() == 0,
            final(self).config() == old(self).config(),
            final(self).user_id() == old(self).user_id(),
            final(self).video_id() == old(self).video_id(),
    {
        self.segments.clear();
        self.sequence_counter = 0;
        assert(self.window() =~= Seq::<HLSSegmentView>::empty());
    }
}

/// Create HLS segmenter with the default settings: two-second segments and
/// a window of the last 5 entries.
pub fn create_cap_hls_segmenter(user_id: String, video_id: String) -> (res: HLSSegmenter)
    ensures
        res.wf(),
        res.window() == Seq::<HLSSegmentView>::empty(),
        res.next_sequence() == 0,
        res.config() == (HLSConfig { segment_duration_ms: 2000, target_duration: 2, playlist_size: 5 }),
        res.user_id() == user_id@,
        res.video_id() == video_id@,
{
    let config = HLSConfig { segment_duration_ms: 2000, target_duration: 2, playlist_size: 5 };
    HLSSegmenter::new(config, user_id, video_id)
}

/// The lines of a window are the lines of its older part followed by the
/// lines of its newer part.
pub proof fn lemma_entries_text_concat(
    older: Seq<HLSSegmentView>,
    newer: Seq<HLSSegmentView>,
    kind: PlaylistType,
)
    ensures
        entries_text(older + newer, kind) == entries_text(older, kind) + entries_text(newer, kind),
    decreases newer.len(),
{
    if newer.len() == 0 {
        assert(older + newer =~= older);
        assert(entries_text(newer, kind) =~= Seq::<char>::empty());
        assert(entries_text(older, kind) + entries_text(newer, kind) =~= entries_text(older, kind));
    } else {
        let all = older + newer;
        assert(all.drop_last() =~= older + newer.drop_last());
        assert(all.last() == newer.last());
        lemma_entries_text_concat(older, newer.drop_last(), kind);
        assert(entries_text(all, kind) =~= entries_text(older, kind) + entries_text(newer, kind));
    }
}

/// The window stays bounded. Recording an entry never leaves more than
/// `capacity` entries; what is left are the newest entries, with
/// consecutive sequence numbers; and the media sequence is then the
/// sequence number of the oldest entry left.
pub proof fn law_window_after_push(
    window: Seq<HLSSegmentView>,
    entry: HLSSegmentView,
    capacity: usize,
    next: u32,
)
    requires
        window.len() <= capacity,
        consecutive_up_to(window, next),
        entry.sequence_number == next,
        next < u32::MAX,
    ensures
        ({
            let after = window_after_push(window, entry, capacity);
            &&& after.len() <= capacity
            &&& after.len() == if window.len() < capacity {
                window.len() + 1
            } else {
                capacity as nat
            }
            &&& consecutive_up_to(after, (next + 1) as u32)
            &&& forall|i: int|
                0 <= i < after.len() ==> #[trigger] after[i] == window.push(entry)[i + window.len()
                    + 1 - after.len()]
            &&& capacity > 0 ==> after.last() == entry && media_sequence(after) == Some(
                (next + 1 - after.len()) as u32,
            )
            &&& capacity == 0 ==> media_sequence(after) is None
        }),
{
    let pushed = window.push(entry);
    let after = window_after_push(window, entry, capacity);
    assert forall|i: int| 0 <= i < after.len() implies #[trigger] after[i].sequence_number + (
    after.len() - i) == next + 1 by {
        let j = i + pushed.len() - after.len();
        assert(after[i] == pushed[j]);
        if j < window.len() {
            assert(window[j].sequence_number + (window.len() - j) == next);
        }
    }
    if capacity > 0 {
        assert(after[0].sequence_number + (after.len() - 0) == next + 1);
    }
}

/// No two retained entries share a sequence number, and the oldest
/// retained entry carries the smallest: in a window whose entries are
/// numbered without gaps, an entry further back carries a larger number.
pub proof fn law_retained_entries_are_distinct(entries: Seq<HLSSegmentView>, next: u32, i: int, j: int)
    requires
        consecutive_up_to(entries, next),
        0 <= i < j < entries.len(),
    ensures
        entries[i].sequence_number < entries[j].sequence_number,
        entries[j].sequence_number - entries[i].sequence_number == j - i,
        media_sequence(entries) == Some(entries[0].sequence_number),
        entries[0].sequence_number <= entries[i].sequence_number,
{
    assert(entries[i].sequence_number + (entries.len() - i) == next);
    assert(entries[j].sequence_number + (entries.len() - j) == next);
    assert(entries[0].sequence_number + (entries.len() - 0) == next);
}

/// An entry without video is not listed under the video variant: the video
/// playlist reads as if the entry were not in the window. Under the audio
/// variant the entry is listed, with its duration line and its audio URL,
/// if it has an audio URL.
pub proof fn law_video_less_entry(entries: Seq<HLSSegmentView>, i: int)
    requires
        0 <= i < entries.len(),
        entries[i].video_url.len() == 0,
    ensures
        entries_text(entries, PlaylistType::Video) == entries_text(
            entries.remove(i),
            PlaylistType::Video,
        ),
        entry_lines(entries[i], PlaylistType::Video) == Seq::<char>::empty(),
        entries[i].audio_url.len() > 0 ==> entry_lines(entries[i], PlaylistType::Audio)
            == "#EXTINF:"@ + seconds_text(entries[i].duration_ms as nat) + ",\n"@
            + entries[i].audio_url + "\n"@,
        entries_text(entries, PlaylistType::Audio) == entries_text(
            entries.take(i),
            PlaylistType::Audio,
        ) + entry_lines(entries[i], PlaylistType::Audio) + entries_text(
            entries.skip(i + 1),
            PlaylistType::Audio,
        ),
{
    let before = entries.take(i);
    let one = seq![entries[i]];
    let after = entries.skip(i + 1);
    assert(entries =~= before + one + after);
    assert(entries.remove(i) =~= before + after);
    assert(one.drop_last() =~= Seq::<HLSSegmentView>::empty());
    assert(one.last() == entries[i]);
    assert(entries_text(one.drop_last(), PlaylistType::Video) =~= Seq::<char>::empty());
    assert(entries_text(one.drop_last(), PlaylistType::Audio) =~= Seq::<char>::empty());
    assert(entries_text(one, PlaylistType::Video) =~= Seq::<char>::empty());
    assert(entries_text(one, PlaylistType::Audio) =~= entry_lines(
        entries[i],
        PlaylistType::Audio,
    ));
    lemma_entries_text_concat(before, one, PlaylistType::Video);
    lemma_entries_text_concat(before + one, after, PlaylistType::Video);
    lemma_entries_text_concat(before, after, PlaylistType::Video);
    lemma_entries_text_concat(before, one, PlaylistType::Audio);
    lemma_entries_text_concat(before + one, after, PlaylistType::Audio);
    assert(entries_text(before, PlaylistType::Video) + Seq::<char>::empty() =~= entries_text(
        before,
        PlaylistType::Video,
    ));
}

/// Key derivation is stable: the key of a piece of content depends on the
/// user, the session, the kind and the sequence number only, so entries
/// that agree on the sequence number get the same key whatever else they
/// say, and a playlist's key does not depend on a sequence number at all.
pub proof fn law_storage_key_stable(
    user_id: Seq<char>,
    video_id: Seq<char>,
    kind: S3ContentType,
    first: HLSSegmentView,
    second: HLSSegmentView,
)
    ensures
        first.sequence_number == second.sequence_number ==> storage_key(
            user_id,
            video_id,
            kind,
            first.sequence_number,
        ) == storage_key(user_id, video_id, kind, second.sequence_number),
        kind.is_playlist() ==> storage_key(user_id, video_id, kind, first.sequence_number)
            == storage_key(user_id, video_id, kind, second.sequence_number),
{
}

/// Segments at different positions are stored under different keys: for
/// the three kinds of segment, equal keys within one session mean equal
/// sequence numbers.
pub proof fn law_segment_keys_are_distinct(
    user_id: Seq<char>,
    video_id: Seq<char>,
    kind: S3ContentType,
    first: u32,
    second: u32,
)
    requires
        !kind.is_playlist(),
        storage_key(user_id, video_id, kind, first) == storage_key(
            user_id,
            video_id,
            kind,
            second,
        ),
    ensures
        first == second,
{
    let head = user_id + "/"@ + video_id + "/"@ + match kind {
        S3ContentType::VideoSegment => "video/video_recording_"@,
        S3ContentType::AudioSegment => "audio/audio_recording_"@,
        _ => "combined-source/segment_"@,
    };
    let tail = match kind {
        S3ContentType::AudioSegment => ".aac"@,
        _ => ".ts"@,
    };
    let a = decimal(first as nat);
    let b = decimal(second as nat);
    let key_a = storage_key(user_id, video_id, kind, first);
    let key_b = storage_key(user_id, video_id, kind, second);
    assert(key_a =~= head + a + tail);
    assert(key_b =~= head + b + tail);
    assert(a.len() == b.len()) by {
        assert((head + a + tail).len() == head.len() + a.len() + tail.len());
        assert((head + b + tail).len() == head.len() + b.len() + tail.len());
    }
    assert(a =~= b) by {
        assert forall|i: int| 0 <= i < a.len() implies a[i] == b[i] by {
            assert((head + a + tail)[head.len() + i] == a[i]);
            assert((head + b + tail)[head.len() + i] == b[i]);
        }
    }
    law_decimal_is_injective(first as nat, second as nat);
}

} // verus!
