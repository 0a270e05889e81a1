use cap_electron_capture::encoding::audio_encoder::EncodedAudioSegment;
use cap_electron_capture::encoding::hls::{
    create_cap_hls_segmenter, make_storage_key, HLSSegment, HLSSegmenter, PlaylistType,
    S3ContentType,
};
use cap_electron_capture::encoding::video_encoder::EncodedVideoSegment;
use cap_electron_capture::encoding::HLSConfig;

fn audio(duration_ms: u64, size: usize) -> EncodedAudioSegment {
    EncodedAudioSegment {
        data: vec![0u8; size],
        sequence: 77,
        duration_ms,
        timestamp: 5,
        sample_rate: 48000,
        channels: 2,
    }
}

fn video(duration_ms: u64, size: usize) -> EncodedVideoSegment {
    EncodedVideoSegment {
        data: vec![0u8; size],
        sequence: 99,
        duration_ms,
        timestamp: 6,
        frame_count: 60,
        resolution: (1920, 1080),
    }
}

fn segmenter(window: usize) -> HLSSegmenter {
    let config = HLSConfig { segment_duration_ms: 2000, target_duration: 2, playlist_size: window };
    HLSSegmenter::new(config, "user_123".to_string(), "session-9".to_string())
}

#[test]
fn an_entry_with_audio_only_has_no_video_urls() {
    let mut playlist = segmenter(5);
    let entry = playlist.create_hls_segment_at(audio(2000, 321), None, 1234).unwrap();
    let expected = HLSSegment {
        sequence_number: 0,
        duration_ms: 2000,
        video_url: String::new(),
        audio_url: "audio/audio_recording_0.aac".to_string(),
        combined_url: None,
        timestamp: 1234,
        video_size: 0,
        audio_size: 321,
    };
    assert_eq!(entry, expected);
    assert_eq!(playlist.get_segments(), vec![expected]);
}

#[test]
fn an_entry_with_video_takes_the_longer_duration() {
    let mut playlist = segmenter(5);
    playlist.create_hls_segment_at(audio(2000, 1), None, 1).unwrap();
    let entry = playlist.create_hls_segment_at(audio(1500, 10), Some(video(2100, 20)), 99).unwrap();
    assert_eq!(entry.sequence_number, 1);
    assert_eq!(entry.duration_ms, 2100);
    assert_eq!(entry.video_url, "video/video_recording_1.ts");
    assert_eq!(entry.audio_url, "audio/audio_recording_1.aac");
    assert_eq!(entry.combined_url, Some("combined-source/segment_1.ts".to_string()));
    assert_eq!(entry.video_size, 20);
    assert_eq!(entry.audio_size, 10);
    let shorter = playlist.create_hls_segment_at(audio(2000, 1), Some(video(0, 2)), 100).unwrap();
    assert_eq!(shorter.duration_ms, 2000);
}

#[test]
fn the_manager_numbers_entries_itself() {
    let mut playlist = segmenter(3);
    for expected in 0..4u32 {
        let entry = playlist.record_entry(2000, 1, None, 0).unwrap();
        assert_eq!(entry.sequence_number, expected);
    }
}

#[test]
fn the_window_never_holds_more_than_its_size() {
    let mut playlist = segmenter(3);
    for i in 0..10usize {
        playlist.create_hls_segment_at(audio(2000, i), None, i as u64).unwrap();
        let window = playlist.get_segments();
        assert!(window.len() <= 3);
        assert_eq!(window.len(), (i + 1).min(3));
        let oldest = (i + 1).saturating_sub(3) as u32;
        assert_eq!(window[0].sequence_number, oldest);
        assert_eq!(playlist.get_latest_segment().unwrap().sequence_number, i as u32);
        let text = playlist.generate_m3u8_playlist(PlaylistType::Audio);
        assert!(text.contains(&format!("#EXT-X-MEDIA-SEQUENCE:{}\n", oldest)));
    }
}

#[test]
fn a_window_of_size_zero_retains_nothing() {
    let mut playlist = segmenter(0);
    let entry = playlist.create_hls_segment_at(audio(2000, 1), None, 0).unwrap();
    assert_eq!(entry.sequence_number, 0);
    assert!(playlist.get_segments().is_empty());
    assert!(playlist.get_latest_segment().is_none());
    assert_eq!(
        playlist.generate_m3u8_playlist(PlaylistType::Audio),
        "#EXTM3U\n#EXT-X-VERSION:3\n#EXT-X-TARGETDURATION:2\n"
    );
}

#[test]
fn an_empty_playlist_has_no_media_sequence() {
    let playlist = segmenter(5);
    assert_eq!(
        playlist.generate_m3u8_playlist(PlaylistType::Video),
        "#EXTM3U\n#EXT-X-VERSION:3\n#EXT-X-TARGETDURATION:2\n"
    );
    assert!(playlist.get_latest_segment().is_none());
}

#[test]
fn the_audio_playlist_lists_every_entry() {
    let mut playlist = segmenter(2);
    playlist.create_hls_segment_at(audio(2000, 1), None, 0).unwrap();
    playlist.create_hls_segment_at(audio(2000, 1), Some(video(2000, 1)), 0).unwrap();
    playlist.create_hls_segment_at(audio(15, 1), None, 0).unwrap();
    assert_eq!(
        playlist.generate_m3u8_playlist(PlaylistType::Audio),
        "#EXTM3U\n#EXT-X-VERSION:3\n#EXT-X-TARGETDURATION:2\n#EXT-X-MEDIA-SEQUENCE:1\n\
         #EXTINF:2.000,\naudio/audio_recording_1.aac\n\
         #EXTINF:0.015,\naudio/audio_recording_2.aac\n"
    );
}

#[test]
fn the_video_playlist_skips_entries_without_video() {
    let mut playlist = segmenter(5);
    playlist.create_hls_segment_at(audio(2000, 1), None, 0).unwrap();
    playlist.create_hls_segment_at(audio(2000, 1), Some(video(2500, 1)), 0).unwrap();
    playlist.create_hls_segment_at(audio(2000, 1), None, 0).unwrap();
    let video_text = playlist.generate_m3u8_playlist(PlaylistType::Video);
    assert_eq!(
        video_text,
        "#EXTM3U\n#EXT-X-VERSION:3\n#EXT-X-TARGETDURATION:2\n#EXT-X-MEDIA-SEQUENCE:0\n\
         #EXTINF:2.500,\nvideo/video_recording_1.ts\n"
    );
    assert_eq!(video_text.matches("#EXTINF").count(), 1);
    let combined_text = playlist.generate_m3u8_playlist(PlaylistType::Combined);
    assert_eq!(
        combined_text,
        "#EXTM3U\n#EXT-X-VERSION:3\n#EXT-X-TARGETDURATION:2\n#EXT-X-MEDIA-SEQUENCE:0\n\
         #EXTINF:2.500,\ncombined-source/segment_1.ts\n"
    );
    let audio_text = playlist.generate_m3u8_playlist(PlaylistType::Audio);
    assert_eq!(audio_text.matches("#EXTINF").count(), 3);
    assert!(audio_text.contains("#EXTINF:2.000,\naudio/audio_recording_0.aac\n"));
    assert!(audio_text.contains("#EXTINF:2.000,\naudio/audio_recording_2.aac\n"));
}

#[test]
fn durations_are_written_with_three_decimals() {
    let mut playlist = segmenter(10);
    for ms in [0u64, 1, 999, 1000, 12345, 600000] {
        playlist.record_entry(ms, 1, None, 0).unwrap();
    }
    let text = playlist.generate_m3u8_playlist(PlaylistType::Audio);
    for written in ["0.000", "0.001", "0.999", "1.000", "12.345", "600.000"] {
        assert!(text.contains(&format!("#EXTINF:{},\n", written)));
    }
}

#[test]
fn the_target_duration_comes_from_the_configuration() {
    let config = HLSConfig { segment_duration_ms: 6000, target_duration: 6, playlist_size: 2 };
    let playlist = HLSSegmenter::new(config, "u".to_string(), "v".to_string());
    assert!(playlist
        .generate_m3u8_playlist(PlaylistType::Audio)
        .contains("#EXT-X-TARGETDURATION:6\n"));
}

#[test]
fn the_master_playlist_names_both_variants() {
    assert_eq!(
        segmenter(5).generate_master_playlist(),
        "#EXTM3U\n#EXT-X-VERSION:3\n\
         #EXT-X-STREAM-INF:BANDWIDTH=2000000,RESOLUTION=1920x1080\nvideo/stream.m3u8\n\
         #EXT-X-STREAM-INF:BANDWIDTH=128000\naudio/stream.m3u8\n"
    );
}

#[test]
fn storage_keys_of_every_kind() {
    let mut playlist = segmenter(5);
    for _ in 0..12 {
        playlist.record_entry(2000, 1, Some((2000, 1)), 0).unwrap();
    }
    let entry = playlist.get_latest_segment().unwrap();
    let key = |kind| playlist.generate_s3_key(entry, kind);
    assert_eq!(key(S3ContentType::VideoSegment), "user_123/session-9/video/video_recording_11.ts");
    assert_eq!(key(S3ContentType::AudioSegment), "user_123/session-9/audio/audio_recording_11.aac");
    assert_eq!(key(S3ContentType::CombinedSegment), "user_123/session-9/combined-source/segment_11.ts");
    assert_eq!(key(S3ContentType::VideoPlaylist), "user_123/session-9/video/stream.m3u8");
    assert_eq!(key(S3ContentType::AudioPlaylist), "user_123/session-9/audio/stream.m3u8");
    assert_eq!(key(S3ContentType::CombinedPlaylist), "user_123/session-9/combined/stream.m3u8");
    assert_eq!(key(S3ContentType::MasterPlaylist), "user_123/session-9/stream.m3u8");
}

#[test]
fn key_derivation_is_idempotent() {
    let mut playlist = segmenter(2);
    let entry = playlist.record_entry(2000, 1, None, 10).unwrap();
    let first = playlist.generate_s3_key(&entry, S3ContentType::AudioSegment);
    for t in 0..5 {
        playlist.record_entry(2000, 1, None, t).unwrap();
    }
    let again = playlist.generate_s3_key(&entry, S3ContentType::AudioSegment);
    assert_eq!(first, again);
    assert_eq!(first, "user_123/session-9/audio/audio_recording_0.aac");
    let same_position = HLSSegment { timestamp: 999, audio_size: 5, ..entry.clone() };
    assert_eq!(playlist.generate_s3_key(&same_position, S3ContentType::AudioSegment), first);
}

#[test]
fn keys_with_large_sequence_numbers() {
    assert_eq!(
        make_storage_key("u", "v", S3ContentType::VideoSegment, u32::MAX),
        "u/v/video/video_recording_4294967295.ts"
    );
    assert_eq!(make_storage_key("", "", S3ContentType::AudioSegment, 10), "//audio/audio_recording_10.aac");
}

#[test]
fn segments_at_different_positions_have_different_keys() {
    let mut seen = std::collections::HashSet::new();
    for seq in [0u32, 1, 9, 10, 11, 99, 100, 101, 1000, 10000, u32::MAX - 1, u32::MAX] {
        for kind in [S3ContentType::VideoSegment, S3ContentType::AudioSegment, S3ContentType::CombinedSegment] {
            assert!(seen.insert(make_storage_key("u", "v", kind, seq)));
        }
    }
    assert_eq!(
        make_storage_key("u", "v", S3ContentType::MasterPlaylist, 1),
        make_storage_key("u", "v", S3ContentType::MasterPlaylist, 2)
    );
}

#[test]
fn mime_types_of_every_kind() {
    assert_eq!(S3ContentType::VideoSegment.mime_type(), "video/mp2t");
    assert_eq!(S3ContentType::CombinedSegment.mime_type(), "video/mp2t");
    assert_eq!(S3ContentType::AudioSegment.mime_type(), "audio/aac");
    for playlist in [
        S3ContentType::VideoPlaylist,
        S3ContentType::AudioPlaylist,
        S3ContentType::CombinedPlaylist,
        S3ContentType::MasterPlaylist,
    ] {
        assert_eq!(playlist.mime_type(), "application/vnd.apple.mpegurl");
    }
}

#[test]
fn clearing_empties_the_window_and_restarts_the_numbers() {
    let mut playlist = segmenter(5);
    for _ in 0..3 {
        playlist.record_entry(2000, 1, None, 0).unwrap();
    }
    playlist.clear_segments();
    assert!(playlist.get_segments().is_empty());
    assert_eq!(playlist.record_entry(2000, 1, None, 0).unwrap().sequence_number, 0);
}

#[test]
fn the_default_segmenter_keeps_five_entries() {
    let mut playlist = create_cap_hls_segmenter("user".to_string(), "video".to_string());
    for _ in 0..8 {
        playlist.record_entry(2000, 1, None, 0).unwrap();
    }
    let numbers: Vec<u32> = playlist.get_segments().iter().map(|s| s.sequence_number).collect();
    assert_eq!(numbers, vec![3, 4, 5, 6, 7]);
    assert!(playlist
        .generate_m3u8_playlist(PlaylistType::Audio)
        .starts_with("#EXTM3U\n#EXT-X-VERSION:3\n#EXT-X-TARGETDURATION:2\n#EXT-X-MEDIA-SEQUENCE:3\n"));
}

#[test]
fn entries_are_stamped_with_the_wall_clock() {
    let mut playlist = segmenter(5);
    let before = std::time::SystemTime::now()
        .duration_since(std::time::UNIX_EPOCH)
        .unwrap()
        .as_millis() as u64;
    let entry = playlist.create_hls_segment(audio(2000, 1), None).unwrap();
    let after = std::time::SystemTime::now()
        .duration_since(std::time::UNIX_EPOCH)
        .unwrap()
        .as_millis() as u64;
    assert!(before <= entry.timestamp && entry.timestamp <= after);
    assert_eq!(entry.sequence_number, 0);
    assert_eq!(entry.audio_url, "audio/audio_recording_0.aac");
}
