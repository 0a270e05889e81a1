use cap_electron_capture::config::{AudioCaptureConfig, ScreenCaptureConfig};
use cap_electron_capture::encoding::audio_encoder::EncodedAudioSegment;
use cap_electron_capture::encoding::s3_uploader::TransferOutcome;
use cap_electron_capture::encoding::video_encoder::EncodedVideoSegment;
use cap_electron_capture::encoding::EncodingConfig;
use cap_electron_capture::error::CaptureError;
use cap_electron_capture::recording::{
    make_stream_url, stats_as_of, CapRecordingPipeline, RecordingConfig, RecordingStats,
    RecordingStatus, StreamUrls,
};
use cap_electron_capture::encoding::hls::S3ContentType;

fn config(bucket: Option<&str>, streaming: bool) -> RecordingConfig {
    RecordingConfig {
        audio: AudioCaptureConfig::default(),
        screen: ScreenCaptureConfig::default(),
        encoding: EncodingConfig::default(),
        user_id: "user_7".to_string(),
        s3_bucket: bucket.map(|b| b.to_string()),
        enable_transcription: true,
        enable_streaming: streaming,
    }
}

fn recording(bucket: Option<&str>, streaming: bool) -> CapRecordingPipeline {
    let mut pipeline = CapRecordingPipeline::new(config(bucket, streaming)).unwrap();
    pipeline.initialize(&vec![48000], Some((1280, 720))).unwrap();
    pipeline.start_recording_at(1000).unwrap();
    pipeline
}

fn audio(sequence: u32, size: usize) -> EncodedAudioSegment {
    EncodedAudioSegment {
        data: vec![1u8; size],
        sequence,
        duration_ms: 2000,
        timestamp: 0,
        sample_rate: 48000,
        channels: 2,
    }
}

fn video(sequence: u32, size: usize, frames: u32) -> EncodedVideoSegment {
    EncodedVideoSegment {
        data: vec![2u8; size],
        sequence,
        duration_ms: 2100,
        timestamp: 0,
        frame_count: frames,
        resolution: (1280, 720),
    }
}

fn invalid(message: &str) -> CaptureError {
    CaptureError::InvalidState(message.to_string())
}

#[test]
fn a_new_pipeline_is_initializing_with_a_fresh_identifier() {
    let pipeline = CapRecordingPipeline::new(config(None, false)).unwrap();
    assert_eq!(pipeline.get_status(), RecordingStatus::Initializing);
    let id = pipeline.get_session_id().to_string();
    assert_eq!(id.len(), 36);
    let dashes: Vec<usize> = id.char_indices().filter(|(_, c)| *c == '-').map(|(i, _)| i).collect();
    assert_eq!(dashes, vec![8, 13, 18, 23]);
    assert!(id.chars().all(|c| c == '-' || c.is_ascii_hexdigit()));
    assert_eq!(id.as_bytes()[14], b'4');
    let other = CapRecordingPipeline::new(config(None, false)).unwrap();
    assert_ne!(other.get_session_id(), id);
    assert_eq!(pipeline.get_config().user_id, "user_7");
    assert_eq!(pipeline.get_stats(5), RecordingStats::default());
}

#[test]
fn recording_cannot_start_before_the_parts_are_constructed() {
    let mut pipeline = CapRecordingPipeline::new(config(None, false)).unwrap();
    assert_eq!(pipeline.start_recording_at(1), Err(invalid("Pipeline is not ready to record")));
    assert_eq!(pipeline.get_status(), RecordingStatus::Initializing);
}

#[test]
fn initialization_fails_where_the_codec_supports_no_rate() {
    let mut pipeline = CapRecordingPipeline::new(config(None, false)).unwrap();
    let message = "Task launch error: AAC Codec does not support sample rate 48000";
    assert_eq!(
        pipeline.initialize(&Vec::new(), None),
        Err(CaptureError::EncodingError(message.to_string()))
    );
    assert_eq!(pipeline.get_status(), RecordingStatus::Error(message.to_string()));
    assert_eq!(pipeline.start_recording_at(1), Err(invalid("Pipeline is not ready to record")));
}

#[test]
fn initialization_is_accepted_once() {
    let mut pipeline = CapRecordingPipeline::new(config(None, false)).unwrap();
    assert_eq!(pipeline.initialize(&vec![48000], None), Ok(()));
    assert_eq!(pipeline.get_status(), RecordingStatus::Initializing);
    assert_eq!(pipeline.initialize(&vec![48000], None), Err(invalid("Pipeline is already initialized")));
}

#[test]
fn initialization_constructs_the_encoders() {
    let mut pipeline = CapRecordingPipeline::new(config(None, false)).unwrap();
    pipeline.initialize(&vec![44100, 96000], Some((800, 600))).unwrap();
    let audio_encoder = pipeline.take_audio_encoder().unwrap();
    assert_eq!(audio_encoder.output_rate(), 96000);
    assert_eq!(audio_encoder.samples_per_segment(), 192000);
    assert!(pipeline.take_audio_encoder().is_none());
    let video_encoder = pipeline.take_video_encoder().unwrap();
    assert_eq!(video_encoder.config().resolution, (800, 600));
    assert!(pipeline.take_video_encoder().is_none());
    let mut without_display = CapRecordingPipeline::new(config(None, false)).unwrap();
    without_display.initialize(&vec![48000], None).unwrap();
    assert!(without_display.take_video_encoder().is_none());
}

#[test]
fn starting_twice_is_rejected() {
    let mut pipeline = CapRecordingPipeline::new(config(Some("bucket"), true)).unwrap();
    pipeline.initialize(&vec![48000], None).unwrap();
    let session = pipeline.start_recording_at(123456).unwrap();
    assert_eq!(session.id, pipeline.get_session_id());
    assert_eq!(session.user_id, "user_7");
    assert_eq!(session.start_time, 123456);
    assert_eq!(session.status, RecordingStatus::Recording);
    assert_eq!(session.stats, RecordingStats::default());
    assert_eq!(session.stream_urls, pipeline.generate_stream_urls());
    assert_eq!(pipeline.get_status(), RecordingStatus::Recording);
    assert_eq!(pipeline.start_recording_at(5), Err(invalid("Recording already in progress")));
    assert_eq!(pipeline.start_recording(), Err(invalid("Recording already in progress")));
    assert_eq!(pipeline.get_status(), RecordingStatus::Recording);
    assert_eq!(pipeline.get_stats(123456 + 10).duration_ms, 10);
}

#[test]
fn starting_reads_the_wall_clock() {
    let mut pipeline = CapRecordingPipeline::new(config(None, false)).unwrap();
    pipeline.initialize(&vec![48000], None).unwrap();
    let before = std::time::SystemTime::now()
        .duration_since(std::time::UNIX_EPOCH)
        .unwrap()
        .as_millis() as u64;
    let session = pipeline.start_recording().unwrap();
    assert!(session.start_time >= before);
    assert!(session.start_time - before < 60_000);
}

#[test]
fn stopping_is_rejected_unless_recording_or_paused() {
    let mut pipeline = CapRecordingPipeline::new(config(None, false)).unwrap();
    assert_eq!(pipeline.stop_recording(), Err(invalid("No recording in progress")));
    pipeline.initialize(&vec![48000], None).unwrap();
    assert_eq!(pipeline.stop_recording(), Err(invalid("No recording in progress")));
    pipeline.start_recording_at(0).unwrap();
    assert_eq!(pipeline.stop_recording(), Ok(()));
    assert_eq!(pipeline.get_status(), RecordingStatus::Stopping);
    assert_eq!(pipeline.stop_recording(), Err(invalid("No recording in progress")));
    pipeline.finish_recording(10).unwrap();
    assert_eq!(pipeline.stop_recording(), Err(invalid("No recording in progress")));
    assert_eq!(pipeline.start_recording_at(0), Err(invalid("Pipeline is not ready to record")));
}

#[test]
fn pause_and_resume_alternate() {
    let mut pipeline = recording(None, false);
    assert_eq!(pipeline.resume(), Err(invalid("Recording is not paused")));
    assert_eq!(pipeline.pause(), Ok(()));
    assert_eq!(pipeline.get_status(), RecordingStatus::Paused);
    assert_eq!(pipeline.pause(), Err(invalid("No recording in progress")));
    assert_eq!(pipeline.start_recording_at(0), Err(invalid("Pipeline is not ready to record")));
    assert_eq!(pipeline.resume(), Ok(()));
    assert_eq!(pipeline.get_status(), RecordingStatus::Recording);
    pipeline.pause().unwrap();
    assert_eq!(pipeline.stop_recording(), Ok(()));
    assert_eq!(pipeline.get_status(), RecordingStatus::Stopping);
}

#[test]
fn any_state_can_fail() {
    let mut pipeline = recording(None, false);
    pipeline.fail("disk full".to_string());
    assert_eq!(pipeline.get_status(), RecordingStatus::Error("disk full".to_string()));
    assert_eq!(pipeline.stop_recording(), Err(invalid("No recording in progress")));
    assert_eq!(pipeline.on_audio_segment(audio(0, 1), 0), Err(invalid("No recording in progress")));
}

#[test]
fn stream_urls_follow_the_bucket() {
    let pipeline = CapRecordingPipeline::new(config(Some("my-bucket"), true)).unwrap();
    let base = format!("https://my-bucket.s3.amazonaws.com/user_7/{}", pipeline.get_session_id());
    assert_eq!(
        pipeline.generate_stream_urls(),
        StreamUrls {
            master: Some(format!("{}/stream.m3u8", base)),
            video: Some(format!("{}/video/stream.m3u8", base)),
            audio: Some(format!("{}/audio/stream.m3u8", base)),
            combined: Some(format!("{}/combined/stream.m3u8", base)),
        }
    );
    let without = CapRecordingPipeline::new(config(None, true)).unwrap();
    assert_eq!(without.generate_stream_urls(), StreamUrls::default());
    assert_eq!(
        make_stream_url("b", "u", "s", S3ContentType::AudioPlaylist),
        "https://b.s3.amazonaws.com/u/s/audio/stream.m3u8"
    );
}

#[test]
fn segments_are_rejected_outside_a_recording() {
    let mut pipeline = CapRecordingPipeline::new(config(None, false)).unwrap();
    assert_eq!(pipeline.on_audio_segment(audio(0, 1), 0), Err(invalid("No recording in progress")));
    assert_eq!(pipeline.on_video_segment(video(0, 1, 1)), Err(invalid("No recording in progress")));
    pipeline.initialize(&vec![48000], None).unwrap();
    assert_eq!(pipeline.on_audio_segment(audio(0, 1), 0), Err(invalid("No recording in progress")));
    assert_eq!(pipeline.get_stats(0), RecordingStats::default());
}

#[test]
fn an_audio_segment_is_recorded_and_uploaded() {
    let mut pipeline = recording(Some("bucket"), true);
    let requests = pipeline.on_audio_segment(audio(0, 10), 5000).unwrap();
    assert_eq!(requests.len(), 1);
    assert_eq!(requests[0].bucket, "bucket");
    assert_eq!(
        requests[0].key,
        format!("user_7/{}/audio/audio_recording_0.aac", pipeline.get_session_id())
    );
    assert_eq!(requests[0].body, vec![1u8; 10]);
    assert_eq!(requests[0].content_type, "audio/aac");
    assert_eq!(requests[0].timeout_seconds, 10);
    assert_eq!(pipeline.get_stats(1000).audio_segments, 1);
    let refresh = pipeline.refresh_playlists();
    let audio_playlist = String::from_utf8(refresh[1].body.clone()).unwrap();
    assert!(audio_playlist.ends_with("#EXT-X-MEDIA-SEQUENCE:0\n#EXTINF:2.000,\naudio/audio_recording_0.aac\n"));
}

#[test]
fn nothing_is_uploaded_without_streaming() {
    for mut pipeline in [recording(Some("bucket"), false), recording(None, true), recording(None, false)] {
        assert!(pipeline.on_audio_segment(audio(0, 10), 0).unwrap().is_empty());
        pipeline.on_video_segment(video(1, 10, 60)).unwrap();
        assert!(pipeline.on_audio_segment(audio(1, 10), 0).unwrap().is_empty());
        assert!(pipeline.refresh_playlists().is_empty());
        let stats = pipeline.get_stats(1000);
        assert_eq!(stats.audio_segments, 2);
        assert_eq!(stats.video_frames, 60);
    }
}

#[test]
fn a_waiting_video_segment_is_paired_with_the_audio_segment_of_its_position() {
    let mut pipeline = recording(Some("bucket"), true);
    let id = pipeline.get_session_id().to_string();
    assert_eq!(pipeline.on_audio_segment(audio(0, 10), 0).unwrap().len(), 1);
    pipeline.on_video_segment(video(1, 20, 60)).unwrap();
    let requests = pipeline.on_audio_segment(audio(1, 10), 0).unwrap();
    let keys: Vec<String> = requests.iter().map(|r| r.key.clone()).collect();
    assert_eq!(
        keys,
        vec![
            format!("user_7/{}/audio/audio_recording_1.aac", id),
            format!("user_7/{}/video/video_recording_1.ts", id),
            format!("user_7/{}/combined-source/segment_1.ts", id),
        ]
    );
    assert_eq!(requests[0].body, vec![1u8; 10]);
    assert_eq!(requests[1].body, vec![2u8; 20]);
    assert_eq!(requests[1].content_type, "video/mp2t");
    let mut both = vec![2u8; 20];
    both.extend(vec![1u8; 10]);
    assert_eq!(requests[2].body, both);
    assert_eq!(requests[2].content_type, "video/mp2t");
    assert_eq!(pipeline.on_audio_segment(audio(2, 10), 0).unwrap().len(), 1);
    let refresh = pipeline.refresh_playlists();
    let video_playlist = String::from_utf8(refresh[0].body.clone()).unwrap();
    assert_eq!(
        video_playlist,
        "#EXTM3U\n#EXT-X-VERSION:3\n#EXT-X-TARGETDURATION:2\n#EXT-X-MEDIA-SEQUENCE:0\n\
         #EXTINF:2.100,\nvideo/video_recording_1.ts\n"
    );
    let combined_playlist = String::from_utf8(refresh[2].body.clone()).unwrap();
    assert!(combined_playlist.ends_with("#EXTINF:2.100,\ncombined-source/segment_1.ts\n"));
}

#[test]
fn a_video_segment_of_another_position_is_not_paired() {
    let mut pipeline = recording(Some("bucket"), true);
    pipeline.on_video_segment(video(2, 20, 60)).unwrap();
    assert_eq!(pipeline.on_audio_segment(audio(0, 10), 0).unwrap().len(), 1);
    assert_eq!(pipeline.on_audio_segment(audio(1, 10), 0).unwrap().len(), 1);
    assert_eq!(pipeline.on_audio_segment(audio(2, 10), 0).unwrap().len(), 3);
    pipeline.on_video_segment(video(3, 20, 60)).unwrap();
    pipeline.on_video_segment(video(4, 20, 60)).unwrap();
    assert_eq!(pipeline.on_audio_segment(audio(3, 10), 0).unwrap().len(), 1);
    pipeline.on_video_segment(video(3, 20, 60)).unwrap();
    assert_eq!(pipeline.on_audio_segment(audio(4, 10), 0).unwrap().len(), 1);
    assert_eq!(pipeline.on_audio_segment(audio(3, 10), 0).unwrap().len(), 1);
    let refresh = pipeline.refresh_playlists();
    let video_playlist = String::from_utf8(refresh[0].body.clone()).unwrap();
    assert_eq!(video_playlist.matches("#EXTINF").count(), 1);
    assert!(video_playlist.ends_with("#EXTINF:2.100,\nvideo/video_recording_2.ts\n"));
}

#[test]
fn what_the_playlist_lists_is_where_the_bytes_are_put() {
    let mut pipeline = recording(Some("bucket"), true);
    let id = pipeline.get_session_id().to_string();
    pipeline.on_audio_segment(audio(40, 1), 0).unwrap();
    pipeline.on_video_segment(video(41, 5, 60)).unwrap();
    let requests = pipeline.on_audio_segment(audio(41, 3), 0).unwrap();
    let keys: Vec<String> = requests.iter().map(|r| r.key.clone()).collect();
    assert_eq!(
        keys,
        vec![
            format!("user_7/{}/audio/audio_recording_1.aac", id),
            format!("user_7/{}/video/video_recording_1.ts", id),
            format!("user_7/{}/combined-source/segment_1.ts", id),
        ]
    );
    let refresh = pipeline.refresh_playlists();
    let audio_playlist = String::from_utf8(refresh[1].body.clone()).unwrap();
    let video_playlist = String::from_utf8(refresh[0].body.clone()).unwrap();
    let combined_playlist = String::from_utf8(refresh[2].body.clone()).unwrap();
    assert!(audio_playlist.ends_with("\naudio/audio_recording_1.aac\n"));
    assert!(!audio_playlist.contains("audio_recording_41"));
    assert!(video_playlist.ends_with("\nvideo/video_recording_1.ts\n"));
    assert!(combined_playlist.ends_with("\ncombined-source/segment_1.ts\n"));
}

#[test]
fn a_refresh_puts_three_playlists_and_the_master() {
    let mut pipeline = recording(Some("bucket"), true);
    for i in 0..7 {
        pipeline.on_audio_segment(audio(i, 1), 0).unwrap();
    }
    let refresh = pipeline.refresh_playlists();
    let id = pipeline.get_session_id().to_string();
    let keys: Vec<String> = refresh.iter().map(|r| r.key.clone()).collect();
    assert_eq!(
        keys,
        vec![
            format!("user_7/{}/video/stream.m3u8", id),
            format!("user_7/{}/audio/stream.m3u8", id),
            format!("user_7/{}/combined/stream.m3u8", id),
            format!("user_7/{}/stream.m3u8", id),
        ]
    );
    for request in &refresh {
        assert_eq!(request.content_type, "application/vnd.apple.mpegurl");
        assert_eq!(request.bucket, "bucket");
        assert_eq!(request.timeout_seconds, 10);
    }
    let audio_playlist = String::from_utf8(refresh[1].body.clone()).unwrap();
    assert!(audio_playlist.contains("#EXT-X-MEDIA-SEQUENCE:2\n"));
    assert_eq!(audio_playlist.matches("#EXTINF").count(), 5);
    let master = String::from_utf8(refresh[3].body.clone()).unwrap();
    assert!(master.contains("video/stream.m3u8\n") && master.contains("audio/stream.m3u8\n"));
}

#[test]
fn only_completed_uploads_count_as_uploaded() {
    let mut pipeline = recording(Some("bucket"), true);
    assert_eq!(pipeline.record_upload("k", 100, TransferOutcome::Completed), Ok("k".to_string()));
    assert_eq!(
        pipeline.record_upload("k", 50, TransferOutcome::TimedOut),
        Err(CaptureError::Upload("Upload timeout for key: k".to_string()))
    );
    assert_eq!(
        pipeline.record_upload("k", 25, TransferOutcome::Failed("reset".to_string())),
        Err(CaptureError::Upload("Failed to upload k: reset".to_string()))
    );
    assert_eq!(pipeline.record_upload("k2", 11, TransferOutcome::Completed), Ok("k2".to_string()));
    assert_eq!(pipeline.get_stats(1000).bytes_uploaded, 111);
    assert_eq!(pipeline.get_status(), RecordingStatus::Recording);
}

#[test]
fn statistics_are_final_once_the_session_is_stopped() {
    let mut pipeline = recording(None, false);
    pipeline.on_video_segment(video(0, 1, 60)).unwrap();
    pipeline.on_audio_segment(audio(0, 1), 0).unwrap();
    assert_eq!(pipeline.finish_recording(5), Err(invalid("Recording is not stopping")));
    pipeline.stop_recording().unwrap();
    pipeline.on_audio_segment(audio(1, 1), 0).unwrap();
    let session = pipeline.finish_recording(1000 + 4000).unwrap();
    assert_eq!(session.status, RecordingStatus::Stopped);
    assert_eq!(session.start_time, 1000);
    let expected = RecordingStats {
        duration_ms: 4000,
        video_frames: 60,
        audio_segments: 2,
        bytes_uploaded: 0,
        avg_fps_milli: 15000,
    };
    assert_eq!(session.stats, expected);
    assert_eq!(pipeline.get_stats(999_999), expected);
    assert_eq!(pipeline.get_status(), RecordingStatus::Stopped);
    assert_eq!(pipeline.on_audio_segment(audio(2, 1), 0), Err(invalid("No recording in progress")));
}

#[test]
fn statistics_formulas() {
    let stats = RecordingStats {
        duration_ms: 0,
        video_frames: 299,
        audio_segments: 3,
        bytes_uploaded: 9,
        avg_fps_milli: 0,
    };
    let later = stats_as_of(stats, 1000, 11000);
    assert_eq!(later.duration_ms, 10000);
    assert_eq!(later.avg_fps_milli, 29900);
    assert_eq!(later.audio_segments, 3);
    assert_eq!(later.bytes_uploaded, 9);
    let no_time = stats_as_of(stats, 1000, 1000);
    assert_eq!((no_time.duration_ms, no_time.avg_fps_milli), (0, 0));
    let clock_went_back = stats_as_of(stats, 1000, 999);
    assert_eq!((clock_went_back.duration_ms, clock_went_back.avg_fps_milli), (0, 0));
    let fast = RecordingStats { video_frames: u32::MAX, ..stats };
    assert_eq!(stats_as_of(fast, 0, 1).avg_fps_milli, u32::MAX);
    let third = RecordingStats { video_frames: 1, ..stats };
    assert_eq!(stats_as_of(third, 0, 3000).avg_fps_milli, 333);
}
