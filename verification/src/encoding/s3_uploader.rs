//! Delivery to remote object storage: what to put where, under which
//! deadline, and what each outcome means.

use crate::bytes::push_bytes;
use crate::encoding::audio_encoder::EncodedAudioSegment;
use crate::encoding::hls::{make_storage_key, storage_key, HLSSegment, S3ContentType};
use crate::encoding::video_encoder::EncodedVideoSegment;
use crate::error::{CaptureError, CaptureResult};
use vstd::prelude::*;
use vstd::string::*;
use vstd::utf8::encode_utf8;

verus! {

/// S3 upload configuration.
#[derive(Debug, Clone, PartialEq, Eq)]
pub struct UploadConfig {
    /// S3 bucket name
    pub bucket: String,
    /// AWS region
    pub region: String,
    /// Upload timeout in seconds
    pub timeout_seconds: u64,
    /// Whether to use accelerated transfer
    pub accelerated_transfer: bool,
    /// Custom endpoint (for S3-compatible services)
    pub endpoint: Option<String>,
}

/// What an [`UploadConfig`] says, with its texts as character sequences.
pub struct UploadConfigView {
    pub bucket: Seq<char>,
    pub region: Seq<char>,
    pub timeout_seconds: u64,
    pub accelerated_transfer: bool,
    pub endpoint: Option<Seq<char>>,
}

impl View for UploadConfig {
    type V = UploadConfigView;

    open spec fn view(&self) -> UploadConfigView {
        UploadConfigView {
            bucket: self.bucket@,
            region: self.region@,
            timeout_seconds: self.timeout_seconds,
            accelerated_transfer: self.accelerated_transfer,
            endpoint: match self.endpoint {
                Some(e) => Some(e@),
                None => None,
            },
        }
    }
}

/// One put to remote storage: what to store, where, as what, and how long
/// the transfer may take.
#[derive(Debug, PartialEq, Eq)]
pub struct UploadRequest {
    /// Bucket to put into
    pub bucket: String,
    /// Storage key
    pub key: String,
    /// The bytes to store
    pub body: Vec<u8>,
    /// MIME type to store them with
    pub content_type: String,
    /// Deadline of the transfer, in seconds
    pub timeout_seconds: u64,
}

/// What an [`UploadRequest`] says.
pub struct UploadRequestView {
    pub bucket: Seq<char>,
    pub key: Seq<char>,
    pub body: Seq<u8>,
    pub content_type: Seq<char>,
    pub timeout_seconds: u64,
}

impl View for UploadRequest {
    type V = UploadRequestView;

    open spec fn view(&self) -> UploadRequestView {
        UploadRequestView {
            bucket: self.bucket@,
            key: self.key@,
            body: self.body@,
            content_type: self.content_type@,
            timeout_seconds: self.timeout_seconds,
        }
    }
}

/// One deletion from remote storage.
#[derive(Debug, PartialEq, Eq)]
pub struct DeleteRequest {
    /// Bucket to delete from
    pub bucket: String,
    /// Storage key
    pub key: String,
}

/// A request for a time-limited read URL.
#[derive(Debug, PartialEq, Eq)]
pub struct PresignRequest {
    /// Bucket that holds the object
    pub bucket: String,
    /// Storage key
    pub key: String,
    /// Lifetime of the URL, in seconds
    pub expires_in_seconds: u64,
}

/// How a transfer ended.
#[derive(Debug, Clone, PartialEq, Eq)]
pub enum TransferOutcome {
    /// The transfer completed within its deadline
    Completed,
    /// The deadline passed before the transfer completed
    TimedOut,
    /// The transport failed; this is its message
    Failed(String),
}

/// The message of the error that reports a missed deadline for `key`.
pub open spec fn timeout_message(key: Seq<char>) -> Seq<char> {
    "Upload timeout for key: "@ + key
}

/// The message of the error that reports a transport failure for `key`.
pub open spec fn failure_message(key: Seq<char>, cause: Seq<char>) -> Seq<char> {
    "Failed to upload "@ + key + ": "@ + cause
}

/// What an upload of `key` returns for the way its transfer ended: the
/// key where it completed, a deadline error where it timed out, a
/// transport error where it failed. The segment or playlist of a failed
/// upload is lost; nothing here asks for a retry.
pub fn upload_result(key: &str, outcome: TransferOutcome) -> (res: CaptureResult<String>)
    ensures
        res is Ok <==> outcome is Completed,
        res matches Ok(stored) ==> stored@ == key@,
        res matches Err(e) ==> e matches CaptureError::Upload(m) && m@ == match outcome {
            TransferOutcome::Failed(cause) => failure_message(key@, cause@),
            _ => timeout_message(key@),
        },
{
    match outcome {
        TransferOutcome::Completed => Ok(String::from_str(key)),
        TransferOutcome::TimedOut => {
            let mut message = String::from_str("Upload timeout for key: ");
            message.append(key);
            Err(CaptureError::Upload(message))
        },
        TransferOutcome::Failed(cause) => {
            let mut message = String::from_str("Failed to upload ");
            message.append(key);
            message.append(": ");
            message.append(cause.as_str());
            Err(CaptureError::Upload(message))
        },
    }
}

/// A missed deadline can be told from a transport failure: whatever the
/// key and whatever the transport says, the two errors carry different
/// messages.
pub proof fn law_timeout_is_distinguishable(key: Seq<char>, other_key: Seq<char>, cause: Seq<char>)
    ensures
        timeout_message(key) != failure_message(other_key, cause),
{
    reveal_strlit("Upload timeout for key: ");
    reveal_strlit("Failed to upload ");
    assert(timeout_message(key)[0] == 'U');
    assert(failure_message(other_key, cause)[0] == 'F');
}

/// The result of a batch: the stored keys in order where every upload
/// succeeded, else the error of the first upload that failed.
pub open spec fn batch_outcome(results: Seq<CaptureResult<String>>) -> CaptureResult<Seq<Seq<char>>>
    decreases results.len(),
{
    if results.len() == 0 {
        Ok(Seq::empty())
    } else {
        match batch_outcome(results.drop_last()) {
            Err(e) => Err(e),
            Ok(keys) => match results.last() {
                Ok(key) => Ok(keys.push(key@)),
                Err(e) => Err(e),
            },
        }
    }
}

/// The texts held by a list of strings.
pub open spec fn text_views(texts: Seq<String>) -> Seq<Seq<char>> {
    texts.map_values(|t: String| t@)
}

/// Folds the results of a batch of uploads: the whole batch fails with the
/// error of the first upload that failed, which names its key.
pub fn batch_result(results: Vec<CaptureResult<String>>) -> (res: CaptureResult<Vec<String>>)
    ensures
        res is Ok <==> batch_outcome(results@) is Ok,
        res matches Ok(keys) ==> Ok::<Seq<Seq<char>>, CaptureError>(text_views(keys@))
            == batch_outcome(results@),
        res matches Err(e) ==> Err::<Seq<Seq<char>>, CaptureError>(e) == batch_outcome(results@),
{
    let ghost all = results@;
    let mut remaining = results;
    let mut reversed: Vec<CaptureResult<String>> = Vec::new();
    while remaining.len() > 0
        invariant
            remaining@.len() + reversed@.len() == all.len(),
            forall|i: int| 0 <= i < remaining@.len() ==> remaining@[i] == all[i],
            forall|i: int|
                0 <= i < reversed@.len() ==> reversed@[i] == all[all.len() - 1 - i],
        decreases remaining@.len(),
    {
        let last = remaining.pop();
        match last {
            Some(r) => {
                reversed.push(r);
            },
            None => {},
        }
    }
    let mut keys: Vec<String> = Vec::new();
    let ghost mut done: int = 0;
    proof {
        assert(all.take(0).len() == 0);
        assert(text_views(keys@) =~= Seq::<Seq<char>>::empty());
    }
    while reversed.len() > 0
        invariant
            all == results@,
            done + reversed@.len() == all.len(),
            0 <= done,
            forall|i: int|
                0 <= i < reversed@.len() ==> reversed@[i] == all[all.len() - 1 - i],
            batch_outcome(all.take(done)) == Ok::<Seq<Seq<char>>, CaptureError>(text_views(keys@)),
        decreases reversed@.len(),
    {
        let ghost waiting = reversed@;
        let next = reversed.pop();
        proof {
            assert(next == Some(waiting[waiting.len() - 1]));
            assert(waiting[waiting.len() - 1] == all[done]);
            assert(all.take(done + 1).drop_last() =~= all.take(done));
            assert(all.take(done + 1).last() == all[done]);
        }
        match next {
            Some(Ok(key)) => {
                let ghost before = keys@;
                keys.push(key);
                proof {
                    assert(text_views(keys@) =~= text_views(before).push(key@));
                    done = done + 1;
                }
            },
            Some(Err(e)) => {
                proof {
                    assert(batch_outcome(all.take(done + 1)) == Err::<Seq<Seq<char>>, CaptureError>(e));
                    lemma_batch_fails_for_good(all, done + 1);
                }
                return Err(e);
            },
            None => {},
        }
    }
    proof {
        assert(all.take(done) =~= all);
    }
    Ok(keys)
}

/// Once a prefix of a batch has failed, the batch has failed with the same
/// error.
pub proof fn lemma_batch_fails_for_good(results: Seq<CaptureResult<String>>, upto: int)
    requires
        0 <= upto <= results.len(),
        batch_outcome(results.take(upto)) is Err,
    ensures
        batch_outcome(results) == batch_outcome(results.take(upto)),
    decreases results.len() - upto,
{
    if upto == results.len() {
        assert(results.take(upto) =~= results);
    } else {
        assert(results.take(upto + 1).drop_last() =~= results.take(upto));
        lemma_batch_fails_for_good(results, upto + 1);
    }
}

/// What an uploader holds.
pub struct S3UploaderView {
    pub config: UploadConfigView,
    pub user_id: Seq<char>,
    pub video_id: Seq<char>,
}

impl S3UploaderView {
    /// The put of `body` as content `kind` at sequence position `seq`.
    pub open spec fn put(self, kind: S3ContentType, seq: u32, body: Seq<u8>) -> UploadRequestView {
        UploadRequestView {
            bucket: self.config.bucket,
            key: storage_key(self.user_id, self.video_id, kind, seq),
            body,
            content_type: kind.mime(),
            timeout_seconds: self.config.timeout_seconds,
        }
    }

    /// The put that uploads an audio segment for the playlist entry with
    /// sequence number `entry`.
    pub open spec fn audio_put(self, entry: u32, segment: EncodedAudioSegment) -> UploadRequestView {
        self.put(S3ContentType::AudioSegment, entry, segment.data@)
    }

    /// The put that uploads a video segment for the playlist entry with
    /// sequence number `entry`.
    pub open spec fn video_put(self, entry: u32, segment: EncodedVideoSegment) -> UploadRequestView {
        self.put(S3ContentType::VideoSegment, entry, segment.data@)
    }

    /// The deletions that remove the segments at position `seq`: the audio
    /// segment, then the video segment.
    pub open spec fn deletions(self, seq: u32) -> Seq<(Seq<char>, Seq<char>)> {
        seq![
            (
                self.config.bucket,
                storage_key(self.user_id, self.video_id, S3ContentType::AudioSegment, seq),
            ),
            (
                self.config.bucket,
                storage_key(self.user_id, self.video_id, S3ContentType::VideoSegment, seq),
            ),
        ]
    }

    /// The deletions that remove the segments at all positions `seqs`.
    pub open spec fn all_deletions(self, seqs: Seq<u32>) -> Seq<(Seq<char>, Seq<char>)>
        decreases seqs.len(),
    {
        if seqs.len() == 0 {
            Seq::empty()
        } else {
            self.all_deletions(seqs.drop_last()) + self.deletions(seqs.last())
        }
    }
}

/// The views of a list of upload requests.
pub open spec fn request_views(requests: Seq<UploadRequest>) -> Seq<UploadRequestView> {
    requests.map_values(|r: UploadRequest| r@)
}

/// Bucket and key of each of a list of deletions.
pub open spec fn deletion_views(requests: Seq<DeleteRequest>) -> Seq<(Seq<char>, Seq<char>)> {
    requests.map_values(|r: DeleteRequest| (r.bucket@, r.key@))
}

/// S3 uploader for real-time streaming: derives, for everything a session
/// delivers, the request to make. The transfers themselves are made by
/// the caller, each under the request's deadline.
pub struct S3Uploader {
    config: UploadConfig,
    user_id: String,
    video_id: String,
}

impl View for S3Uploader {
    type V = S3UploaderView;

    closed spec fn view(&self) -> S3UploaderView {
        S3UploaderView { config: self.config@, user_id: self.user_id@, video_id: self.video_id@ }
    }
}

impl S3Uploader {
    /// Create new S3 uploader.
    pub fn new(config: UploadConfig, user_id: String, video_id: String) -> (res: Self)
        ensures
            res@ == (S3UploaderView { config: config@, user_id: user_id@, video_id: video_id@ }),
    {
        S3Uploader { config, user_id, video_id }
    }

    /// The configuration the uploader was made with.
    pub fn config(&self) -> (res: &UploadConfig)
        ensures
            res@ == self@.config,
    {
        &self.config
    }

    /// The put of `body` as content `kind` at sequence position `seq`.
    fn put(&self, kind: S3ContentType, seq: u32, body: Vec<u8>) -> (res: UploadRequest)
        ensures
            res@ == self@.put(kind, seq, body@),
    {
        UploadRequest {
            bucket: self.config.bucket.clone(),
            key: make_storage_key(self.user_id.as_str(), self.video_id.as_str(), kind, seq),
            body,
            content_type: String::from_str(kind.mime_type()),
            timeout_seconds: self.config.timeout_seconds,
        }
    }

    /// Uploads the bytes of a segment of the given kind for a playlist
    /// entry: the put of the bytes under the key that the entry's own
    /// sequence number gives, so that the bytes are stored where the
    /// playlist says they are.
    pub fn upload_segment(&self, kind: S3ContentType, entry: &HLSSegment, body: Vec<u8>) -> (res:
        UploadRequest)
        ensures
            res@ == self@.put(kind, entry.sequence_number, body@),
    {
        self.put(kind, entry.sequence_number, body)
    }

    /// Upload audio segment immediately: the put of its bytes, as
    /// `audio/aac`, under the audio key of the playlist entry that was
    /// recorded for it.
    pub fn upload_audio_segment_realtime(
        &self,
        segment: EncodedAudioSegment,
        entry: &HLSSegment,
    ) -> (res: UploadRequest)
        ensures
            res@ == self@.audio_put(entry.sequence_number, segment),
    {
        self.upload_segment(S3ContentType::AudioSegment, entry, segment.data)
    }

    /// Upload video segment immediately: the put of its bytes, as
    /// `video/mp2t`, under the video key of the playlist entry that was
    /// recorded for it.
    pub fn upload_video_segment_realtime(
        &self,
        segment: EncodedVideoSegment,
        entry: &HLSSegment,
    ) -> (res: UploadRequest)
        ensures
            res@ == self@.video_put(entry.sequence_number, segment),
    {
        self.upload_segment(S3ContentType::VideoSegment, entry, segment.data)
    }

    /// Upload combined audio+video segment: the put of the video bytes
    /// followed by the audio bytes under the combined key of the playlist
    /// entry that was recorded for the pair.
    pub fn upload_combined_segment(
        &self,
        audio_segment: EncodedAudioSegment,
        video_segment: EncodedVideoSegment,
        entry: &HLSSegment,
    ) -> (res: UploadRequest)
        ensures
            res@ == self@.put(
                S3ContentType::CombinedSegment,
                entry.sequence_number,
                video_segment.data@ + audio_segment.data@,
            ),
    {
        let combined = combine_audio_video(audio_segment.data, video_segment.data);
        self.upload_segment(S3ContentType::CombinedSegment, entry, combined)
    }

    /// Update HLS playlist: the put of the playlist text, as UTF-8, under
    /// the key of its kind. Content kinds that are not playlists are
    /// refused.
    pub fn update_playlist(&self, playlist_content: String, content_type: S3ContentType) -> (res:
        CaptureResult<UploadRequest>)
        ensures
            res is Ok <==> content_type.is_playlist(),
            res matches Ok(request) ==> request@ == self@.put(
                content_type,
                0,
                encode_utf8(playlist_content@),
            ),
            res matches Err(e) ==> e matches CaptureError::Upload(m) && m@
                == "Invalid playlist content type"@,
    {
        match content_type {
            S3ContentType::VideoPlaylist
            | S3ContentType::AudioPlaylist
            | S3ContentType::CombinedPlaylist
            | S3ContentType::MasterPlaylist => {
                let body = playlist_content.as_str().as_bytes_vec();
                Ok(self.put(content_type, 0, body))
            },
            _ => Err(CaptureError::Upload(String::from_str("Invalid playlist content type"))),
        }
    }

    /// Batch upload multiple segments, each with the playlist entry that
    /// was recorded for it: the puts of all audio segments in order, then
    /// those of all video segments in order, each under the key that its
    /// entry's sequence number gives. The transfers are meant to run
    /// concurrently; [`batch_result`] folds what they return.
    pub fn batch_upload_segments(
        &self,
        audio_segments: Vec<(HLSSegment, EncodedAudioSegment)>,
        video_segments: Vec<(HLSSegment, EncodedVideoSegment)>,
    ) -> (res: Vec<UploadRequest>)
        ensures
            request_views(res@) == audio_segments@.map_values(
                |s: (HLSSegment, EncodedAudioSegment)| self@.audio_put(s.0.sequence_number, s.1),
            ) + video_segments@.map_values(
                |s: (HLSSegment, EncodedVideoSegment)| self@.video_put(s.0.sequence_number, s.1),
            ),
    {
        let ghost audio_puts = audio_segments@.map_values(
            |s: (HLSSegment, EncodedAudioSegment)| self@.audio_put(s.0.sequence_number, s.1),
        );
        let ghost video_puts = video_segments@.map_values(
            |s: (HLSSegment, EncodedVideoSegment)| self@.video_put(s.0.sequence_number, s.1),
        );
        let mut res: Vec<UploadRequest> = Vec::new();
        let mut i: usize = 0;
        while i < audio_segments.len()
            invariant
                i <= audio_segments@.len(),
                audio_puts == audio_segments@.map_values(
                    |s: (HLSSegment, EncodedAudioSegment)|
                        self@.audio_put(s.0.sequence_number, s.1),
                ),
                request_views(res@) == audio_puts.take(i as int),
            decreases audio_segments@.len() - i,
        {
            let ghost before = res@;
            let request = self.upload_audio_segment_realtime(
                audio_segments[i].1.clone(),
                &audio_segments[i].0,
            );
            res.push(request);
            i += 1;
            proof {
                assert(request_views(res@) =~= request_views(before).push(request@));
                assert(request_views(res@) =~= audio_puts.take(i as int));
            }
        }
        assert(audio_puts.take(audio_segments@.len() as int) =~= audio_puts);
        let mut j: usize = 0;
        while j < video_segments.len()
            invariant
                j <= video_segments@.len(),
                video_puts == video_segments@.map_values(
                    |s: (HLSSegment, EncodedVideoSegment)|
                        self@.video_put(s.0.sequence_number, s.1),
                ),
                request_views(res@) == audio_puts + video_puts.take(j as int),
            decreases video_segments@.len() - j,
        {
            let ghost before = res@;
            let request = self.upload_video_segment_realtime(
                video_segments[j].1.clone(),
                &video_segments[j].0,
            );
            res.push(request);
            j += 1;
            proof {
                assert(request_views(res@) =~= request_views(before).push(request@));
                assert(request_views(res@) =~= audio_puts + video_puts.take(j as int));
            }
        }
        assert(video_puts.take(video_segments@.len() as int) =~= video_puts);
        res
    }

    /// Generate presigned URL for client-side access: the request for a
    /// read URL of `key` in the configured bucket that expires after
    /// `expiry_seconds`.
    pub fn generate_presigned_url(&self, key: &str, expiry_seconds: u64) -> (res: PresignRequest)
        ensures
            res.bucket@ == self@.config.bucket,
            res.key@ == key@,
            res.expires_in_seconds == expiry_seconds,
    {
        PresignRequest {
            bucket: self.config.bucket.clone(),
            key: String::from_str(key),
            expires_in_seconds: expiry_seconds,
        }
    }

    /// Delete old segments: for each of the given sequence numbers, in
    /// order, the deletion of its audio segment and that of its video
    /// segment. A deletion that fails is not reported as an error of the
    /// session.
    pub fn cleanup_old_segments(&self, segment_sequences: Vec<u32>) -> (res: Vec<DeleteRequest>)
        ensures
            deletion_views(res@) == self@.all_deletions(segment_sequences@),
    {
        let mut res: Vec<DeleteRequest> = Vec::new();
        let mut i: usize = 0;
        assert(deletion_views(res@) =~= self@.all_deletions(segment_sequences@.take(0)));
        while i < segment_sequences.len()
            invariant
                i <= segment_sequences@.len(),
                deletion_views(res@) == self@.all_deletions(segment_sequences@.take(i as int)),
            decreases segment_sequences@.len() - i,
        {
            let ghost before = res@;
            let seq = segment_sequences[i];
            let audio = DeleteRequest {
                bucket: self.config.bucket.clone(),
                key: make_storage_key(
                    self.user_id.as_str(),
                    self.video_id.as_str(),
                    S3ContentType::AudioSegment,
                    seq,
                ),
            };
            let video = DeleteRequest {
                bucket: self.config.bucket.clone(),
                key: make_storage_key(
                    self.user_id.as_str(),
                    self.video_id.as_str(),
                    S3ContentType::VideoSegment,
                    seq,
                ),
            };
            res.push(audio);
            res.push(video);
            i += 1;
            proof {
                let upto = segment_sequences@.take(i as int);
                assert(upto.drop_last() =~= segment_sequences@.take(i as int - 1));
                assert(upto.last() == seq);
                assert(deletion_views(res@) =~= deletion_views(before) + self@.deletions(seq));
            }
        }
        assert(segment_sequences@.take(segment_sequences@.len() as int) =~= segment_sequences@);
        res
    }
}

/// Simple audio+video combination: the video bytes, then the audio bytes.
pub fn combine_audio_video(audio_data: Vec<u8>, video_data: Vec<u8>) -> (res: Vec<u8>)
    ensures
        res@ == video_data@ + audio_data@,
{
    let mut combined = video_data;
    push_bytes(&mut combined, audio_data.as_slice());
    combined
}

/// The upload settings for production: region `us-east-1`, a deadline of
/// 10 seconds per transfer, accelerated transfer, no custom endpoint.
pub fn create_cap_s3_uploader(bucket: String, user_id: String, video_id: String) -> (res:
    UploadConfig)
    ensures
        res@ == (UploadConfigView {
            bucket: bucket@,
            region: "us-east-1"@,
            timeout_seconds: 10,
            accelerated_transfer: true,
            endpoint: None,
        }),
{
    UploadConfig {
        bucket,
        region: String::from_str("us-east-1"),
        timeout_seconds: 10,
        accelerated_transfer: true,
        endpoint: None,
    }
}

} // verus!
