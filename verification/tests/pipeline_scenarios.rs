use cap_electron_capture::encoding::audio_encoder::{AACEncoder, EncodedAudioSegment};
use cap_electron_capture::encoding::hls::{create_cap_hls_segmenter, PlaylistType};
use cap_electron_capture::encoding::{AudioChannelLayout, AudioCodec, AudioEncodingConfig};

fn stereo_48k() -> AudioEncodingConfig {
    AudioEncodingConfig {
        codec: AudioCodec::AAC,
        bitrate: 128000,
        sample_rate: 48000,
        channels: 2,
        channel_layout: AudioChannelLayout::Stereo,
    }
}

fn encode_with_fake_codec(encoder: &mut AACEncoder, raw: &[u32]) -> EncodedAudioSegment {
    let frames = encoder.segment_frames(raw);
    let payloads: Vec<Vec<u8>> = frames.iter().map(|f| vec![(f.pts % 251) as u8; 3]).collect();
    encoder.encode_audio_segment(&payloads)
}

#[test]
fn thirty_seconds_of_silence_fill_the_window_with_entries_10_to_14() {
    let mut encoder = AACEncoder::new(stereo_48k(), &vec![44100, 48000, 96000]).unwrap();
    let silence = vec![0u32; 30 * 48000 * 2];
    let raw_segments = encoder.process_audio(&silence);
    assert_eq!(raw_segments.len(), 15);
    let mut playlist = create_cap_hls_segmenter("user".to_string(), "session".to_string());
    for (i, raw) in raw_segments.iter().enumerate() {
        assert_eq!(raw.len(), 192000);
        let segment = encode_with_fake_codec(&mut encoder, raw);
        assert_eq!(segment.sequence, i as u32);
        assert_eq!(segment.duration_ms, 2000);
        let entry = playlist.create_hls_segment(segment, None).unwrap();
        assert_eq!(entry.sequence_number, i as u32);
    }
    assert_eq!(encoder.backlog_len(), 0);
    let window = playlist.get_segments();
    let numbers: Vec<u32> = window.iter().map(|s| s.sequence_number).collect();
    assert_eq!(numbers, vec![10, 11, 12, 13, 14]);
    let text = playlist.generate_m3u8_playlist(PlaylistType::Audio);
    assert!(text.contains("#EXT-X-MEDIA-SEQUENCE:10\n"));
    assert!(text.contains("#EXTINF:2.000,\naudio/audio_recording_14.aac\n"));
}

#[test]
fn flush_pads_half_a_second_to_a_full_segment() {
    let mut encoder = AACEncoder::new(stereo_48k(), &vec![48000]).unwrap();
    let half_second: Vec<u32> = (0..48000u32).map(|i| i + 1).collect();
    assert!(encoder.process_audio(&half_second).is_empty());
    let padded = encoder.flush().unwrap();
    assert_eq!(padded.len(), 192000);
    assert_eq!(&padded[..48000], &half_second[..]);
    assert!(padded[48000..].iter().all(|s| *s == 0));
    assert_eq!(encoder.backlog_len(), 0);
    assert!(encoder.flush().is_none());
}
