use cap_electron_capture::encoding::audio_encoder::EncodedAudioSegment;
use cap_electron_capture::encoding::hls::{create_cap_hls_segmenter, HLSSegment, S3ContentType};
use cap_electron_capture::encoding::s3_uploader::{
    batch_result, combine_audio_video, create_cap_s3_uploader, upload_result, DeleteRequest,
    PresignRequest, S3Uploader, TransferOutcome, UploadConfig, UploadRequest,
};
use cap_electron_capture::encoding::video_encoder::EncodedVideoSegment;
use cap_electron_capture::error::CaptureError;

fn uploader() -> S3Uploader {
    let config = UploadConfig {
        bucket: "cap-recordings".to_string(),
        region: "eu-west-1".to_string(),
        timeout_seconds: 7,
        accelerated_transfer: false,
        endpoint: Some("http://localhost:9000".to_string()),
    };
    S3Uploader::new(config, "user_1".to_string(), "vid_2".to_string())
}

fn audio(sequence: u32, data: Vec<u8>) -> EncodedAudioSegment {
    EncodedAudioSegment { data, sequence, duration_ms: 2000, timestamp: 0, sample_rate: 48000, channels: 2 }
}

fn video(sequence: u32, data: Vec<u8>) -> EncodedVideoSegment {
    EncodedVideoSegment { data, sequence, duration_ms: 2000, timestamp: 0, frame_count: 60, resolution: (2, 2) }
}

fn entry(sequence_number: u32) -> HLSSegment {
    HLSSegment {
        sequence_number,
        duration_ms: 2000,
        video_url: format!("video/video_recording_{}.ts", sequence_number),
        audio_url: format!("audio/audio_recording_{}.aac", sequence_number),
        combined_url: Some(format!("combined-source/segment_{}.ts", sequence_number)),
        timestamp: 0,
        video_size: 0,
        audio_size: 0,
    }
}

fn put(key: &str, body: Vec<u8>, content_type: &str) -> UploadRequest {
    UploadRequest {
        bucket: "cap-recordings".to_string(),
        key: key.to_string(),
        body,
        content_type: content_type.to_string(),
        timeout_seconds: 7,
    }
}

#[test]
fn an_audio_segment_is_put_under_its_audio_key() {
    let request = uploader().upload_audio_segment_realtime(audio(3, vec![1, 2, 3]), &entry(3));
    assert_eq!(request, put("user_1/vid_2/audio/audio_recording_3.aac", vec![1, 2, 3], "audio/aac"));
}

#[test]
fn a_segment_is_keyed_by_its_playlist_entry_and_not_by_its_own_number() {
    let uploader = uploader();
    let listed = entry(8);
    let request = uploader.upload_audio_segment_realtime(audio(3, vec![1]), &listed);
    assert_eq!(request.key, format!("user_1/vid_2/{}", listed.audio_url));
    let request = uploader.upload_video_segment_realtime(video(5, vec![2]), &listed);
    assert_eq!(request.key, format!("user_1/vid_2/{}", listed.video_url));
    let request = uploader.upload_combined_segment(audio(3, vec![1]), video(5, vec![2]), &listed);
    assert_eq!(request.key, format!("user_1/vid_2/{}", listed.combined_url.clone().unwrap()));
    assert_eq!(request.body, vec![2u8, 1]);
}

#[test]
fn upload_segment_puts_the_bytes_where_the_entry_lists_them() {
    let uploader = uploader();
    let mut manager = create_cap_hls_segmenter("user_1".to_string(), "vid_2".to_string());
    manager.record_entry(2000, 1, None, 0).unwrap();
    let listed = manager.record_entry(2000, 3, Some((2000, 2)), 0).unwrap();
    assert_eq!(listed.sequence_number, 1);
    let request = uploader.upload_segment(S3ContentType::AudioSegment, &listed, vec![4, 5, 6]);
    assert_eq!(request, put("user_1/vid_2/audio/audio_recording_1.aac", vec![4, 5, 6], "audio/aac"));
    assert_eq!(request.key, manager.generate_s3_key(&listed, S3ContentType::AudioSegment));
    let request = uploader.upload_segment(S3ContentType::VideoSegment, &listed, vec![7]);
    assert_eq!(request, put("user_1/vid_2/video/video_recording_1.ts", vec![7], "video/mp2t"));
    let request = uploader.upload_segment(S3ContentType::CombinedSegment, &listed, vec![7, 4]);
    assert_eq!(request, put("user_1/vid_2/combined-source/segment_1.ts", vec![7, 4], "video/mp2t"));
    let request = uploader.upload_segment(S3ContentType::CombinedPlaylist, &listed, vec![9]);
    assert_eq!(
        request,
        put("user_1/vid_2/combined/stream.m3u8", vec![9], "application/vnd.apple.mpegurl")
    );
}

#[test]
fn a_video_segment_is_put_under_its_video_key() {
    let request = uploader().upload_video_segment_realtime(video(12, vec![9]), &entry(12));
    assert_eq!(request, put("user_1/vid_2/video/video_recording_12.ts", vec![9], "video/mp2t"));
}

#[test]
fn a_combined_segment_holds_video_then_audio() {
    let request =
        uploader().upload_combined_segment(audio(4, vec![1, 2]), video(5, vec![7, 8, 9]), &entry(5));
    assert_eq!(
        request,
        put("user_1/vid_2/combined-source/segment_5.ts", vec![7, 8, 9, 1, 2], "video/mp2t")
    );
    assert_eq!(combine_audio_video(vec![1], vec![2, 3]), vec![2, 3, 1]);
    assert_eq!(combine_audio_video(Vec::new(), Vec::new()), Vec::<u8>::new());
}

#[test]
fn playlists_are_put_under_the_key_of_their_kind() {
    let text = "#EXTM3U\n".to_string();
    let cases = [
        (S3ContentType::VideoPlaylist, "user_1/vid_2/video/stream.m3u8"),
        (S3ContentType::AudioPlaylist, "user_1/vid_2/audio/stream.m3u8"),
        (S3ContentType::CombinedPlaylist, "user_1/vid_2/combined/stream.m3u8"),
        (S3ContentType::MasterPlaylist, "user_1/vid_2/stream.m3u8"),
    ];
    for (kind, key) in cases {
        let request = uploader().update_playlist(text.clone(), kind).unwrap();
        assert_eq!(request, put(key, b"#EXTM3U\n".to_vec(), "application/vnd.apple.mpegurl"));
    }
}

#[test]
fn playlist_text_is_stored_as_utf8() {
    let request = uploader()
        .update_playlist("caf\u{e9}\n".to_string(), S3ContentType::MasterPlaylist)
        .unwrap();
    assert_eq!(request.body, vec![b'c', b'a', b'f', 0xC3, 0xA9, b'\n']);
}

#[test]
fn segment_kinds_are_refused_as_playlists() {
    for kind in [S3ContentType::VideoSegment, S3ContentType::AudioSegment, S3ContentType::CombinedSegment] {
        assert_eq!(
            uploader().update_playlist("x".to_string(), kind),
            Err(CaptureError::Upload("Invalid playlist content type".to_string()))
        );
    }
}

#[test]
fn a_completed_upload_returns_its_key() {
    assert_eq!(upload_result("a/b/c.ts", TransferOutcome::Completed), Ok("a/b/c.ts".to_string()));
}

#[test]
fn a_timed_out_upload_has_its_own_error() {
    let timed_out = upload_result("a/b/c.ts", TransferOutcome::TimedOut);
    assert_eq!(timed_out, Err(CaptureError::Upload("Upload timeout for key: a/b/c.ts".to_string())));
    let failed = upload_result("a/b/c.ts", TransferOutcome::Failed("connection reset".to_string()));
    assert_eq!(
        failed,
        Err(CaptureError::Upload("Failed to upload a/b/c.ts: connection reset".to_string()))
    );
    assert_ne!(timed_out, failed);
    let lookalike = upload_result("", TransferOutcome::Failed("Upload timeout for key: ".to_string()));
    assert_ne!(upload_result("", TransferOutcome::TimedOut), lookalike);
}

#[test]
fn a_batch_puts_audio_first_and_then_video() {
    let requests = uploader().batch_upload_segments(
        vec![(entry(0), audio(0, vec![1])), (entry(1), audio(7, vec![2]))],
        vec![(entry(0), video(4, vec![3]))],
    );
    assert_eq!(
        requests,
        vec![
            put("user_1/vid_2/audio/audio_recording_0.aac", vec![1], "audio/aac"),
            put("user_1/vid_2/audio/audio_recording_1.aac", vec![2], "audio/aac"),
            put("user_1/vid_2/video/video_recording_0.ts", vec![3], "video/mp2t"),
        ]
    );
    assert!(uploader().batch_upload_segments(Vec::new(), Vec::new()).is_empty());
}

#[test]
fn a_batch_that_succeeds_returns_all_keys_in_order() {
    let results = vec![Ok("k0".to_string()), Ok("k1".to_string()), Ok("k2".to_string())];
    assert_eq!(batch_result(results), Ok(vec!["k0".to_string(), "k1".to_string(), "k2".to_string()]));
    assert_eq!(batch_result(Vec::new()), Ok(Vec::new()));
}

#[test]
fn a_batch_fails_with_its_first_failure() {
    let results = vec![
        Ok("k0".to_string()),
        upload_result("k1", TransferOutcome::TimedOut),
        Ok("k2".to_string()),
        upload_result("k3", TransferOutcome::Failed("boom".to_string())),
    ];
    assert_eq!(
        batch_result(results),
        Err(CaptureError::Upload("Upload timeout for key: k1".to_string()))
    );
}

#[test]
fn cleanup_deletes_audio_and_video_of_each_position() {
    let deletions = uploader().cleanup_old_segments(vec![4, 10]);
    let expect = |key: &str| DeleteRequest { bucket: "cap-recordings".to_string(), key: key.to_string() };
    assert_eq!(
        deletions,
        vec![
            expect("user_1/vid_2/audio/audio_recording_4.aac"),
            expect("user_1/vid_2/video/video_recording_4.ts"),
            expect("user_1/vid_2/audio/audio_recording_10.aac"),
            expect("user_1/vid_2/video/video_recording_10.ts"),
        ]
    );
    assert!(uploader().cleanup_old_segments(Vec::new()).is_empty());
}

#[test]
fn a_presigned_url_is_asked_for_the_configured_bucket() {
    assert_eq!(
        uploader().generate_presigned_url("user_1/vid_2/stream.m3u8", 3600),
        PresignRequest {
            bucket: "cap-recordings".to_string(),
            key: "user_1/vid_2/stream.m3u8".to_string(),
            expires_in_seconds: 3600,
        }
    );
}

#[test]
fn production_settings_have_a_deadline_of_ten_seconds() {
    let config = create_cap_s3_uploader("bucket".to_string(), "u".to_string(), "v".to_string());
    assert_eq!(
        config,
        UploadConfig {
            bucket: "bucket".to_string(),
            region: "us-east-1".to_string(),
            timeout_seconds: 10,
            accelerated_transfer: true,
            endpoint: None,
        }
    );
    let uploader = S3Uploader::new(config.clone(), "u".to_string(), "v".to_string());
    assert_eq!(uploader.config(), &config);
}
