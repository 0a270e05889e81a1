use cap_electron_capture::encoding::audio_encoder::{
    adts_wrap, create_aac_encoder, create_transcription_encoder, presentation_ms,
    select_sample_rate, AACEncoder, AudioEncodingError, SegmentOutcome,
};
use cap_electron_capture::encoding::{AudioChannelLayout, AudioCodec, AudioEncodingConfig};
use cap_electron_capture::error::CaptureError;

fn config(sample_rate: u32, channels: u16) -> AudioEncodingConfig {
    AudioEncodingConfig {
        codec: AudioCodec::AAC,
        bitrate: 128000,
        sample_rate,
        channels,
        channel_layout: AudioChannelLayout::Stereo,
    }
}

fn ramp(count: usize) -> Vec<u32> {
    (0..count).map(|i| i as u32 + 1).collect()
}

#[test]
fn rate_selection_takes_the_smallest_rate_that_is_large_enough() {
    let rates = vec![96000, 8000, 48000, 44100];
    assert_eq!(select_sample_rate(&rates, 48000), Some(48000));
    assert_eq!(select_sample_rate(&rates, 44101), Some(48000));
    assert_eq!(select_sample_rate(&rates, 1), Some(8000));
    assert_eq!(select_sample_rate(&rates, 90000), Some(96000));
}

#[test]
fn rate_selection_falls_back_to_the_lowest_rate() {
    let rates = vec![44100, 8000, 48000];
    assert_eq!(select_sample_rate(&rates, 96000), Some(8000));
    assert_eq!(select_sample_rate(&rates, u32::MAX), Some(8000));
}

#[test]
fn rate_selection_has_nothing_to_pick_from_no_rates() {
    assert_eq!(select_sample_rate(&Vec::new(), 48000), None);
}

#[test]
fn encoder_without_supported_rates_is_a_task_launch_error() {
    let result = AACEncoder::new(config(48000, 2), &Vec::new());
    match result {
        Err(AudioEncodingError::TaskLaunch(message)) => {
            assert_eq!(message, "AAC Codec does not support sample rate 48000");
        }
        _ => panic!("expected a task launch error"),
    }
}

#[test]
fn encoder_refuses_a_configuration_without_channels_or_rate() {
    for bad in [config(48000, 0), config(0, 2)] {
        match AACEncoder::new(bad, &vec![48000]) {
            Err(AudioEncodingError::Other(message)) => {
                assert_eq!(message, "Audio configuration cannot be segmented");
            }
            _ => panic!("expected a refusal"),
        }
    }
}

#[test]
fn new_encoder_starts_empty_at_sequence_zero() {
    let encoder = AACEncoder::new(config(44100, 2), &vec![48000, 22050]).unwrap();
    assert_eq!(encoder.output_rate(), 48000);
    assert_eq!(encoder.next_sequence(), 0);
    assert_eq!(encoder.pts(), 0);
    assert_eq!(encoder.backlog_len(), 0);
    assert_eq!(encoder.carry_len(), 0);
    assert_eq!(encoder.samples_per_segment(), 2 * 44100 * 2);
    assert_eq!(encoder.config(), config(44100, 2));
}

#[test]
fn segment_size_is_two_seconds_of_every_channel() {
    let mono = AACEncoder::new(config(8000, 1), &vec![8000]).unwrap();
    assert_eq!(mono.samples_per_segment(), 16000);
    let stereo = AACEncoder::new(config(48000, 2), &vec![48000]).unwrap();
    assert_eq!(stereo.samples_per_segment(), 192000);
}

#[test]
fn submitting_in_one_call_or_in_four_gives_the_same_segments() {
    let input = ramp(4000);
    let mut at_once = AACEncoder::new(config(500, 1), &vec![8000]).unwrap();
    let whole = at_once.process_audio(&input);
    let mut in_parts = AACEncoder::new(config(500, 1), &vec![8000]).unwrap();
    let mut parts: Vec<Vec<u32>> = Vec::new();
    for chunk in input.chunks(1000) {
        parts.extend(in_parts.process_audio(chunk));
    }
    assert_eq!(whole.len(), 4);
    assert_eq!(whole, parts);
    assert_eq!(whole[0], ramp(1000));
    assert_eq!(whole[3], input[3000..].to_vec());
    assert_eq!(at_once.backlog_len(), in_parts.backlog_len());
}

#[test]
fn uneven_chunks_give_the_same_boundaries_too() {
    let input = ramp(3500);
    let mut at_once = AACEncoder::new(config(500, 1), &vec![8000]).unwrap();
    let whole = at_once.process_audio(&input);
    let mut in_parts = AACEncoder::new(config(500, 1), &vec![8000]).unwrap();
    let mut parts: Vec<Vec<u32>> = Vec::new();
    for chunk in [&input[..1], &input[1..999], &input[999..2001], &input[2001..]] {
        parts.extend(in_parts.process_audio(chunk));
    }
    assert_eq!(whole.len(), 3);
    assert_eq!(whole, parts);
    assert_eq!(at_once.backlog_len(), 500);
    assert_eq!(in_parts.backlog_len(), 500);
}

#[test]
fn output_samples_are_the_input_rounded_up_to_whole_segments() {
    let mut encoder = AACEncoder::new(config(500, 1), &vec![8000]).unwrap();
    let mut total = 0;
    for chunk in ramp(2500).chunks(700) {
        for segment in encoder.process_audio(chunk) {
            assert_eq!(segment.len(), 1000);
            total += segment.len();
        }
    }
    let last = encoder.flush().unwrap();
    assert_eq!(last.len(), 1000);
    assert_eq!(&last[..500], &ramp(2500)[2000..]);
    assert!(last[500..].iter().all(|s| *s == 0));
    total += last.len();
    assert_eq!(total, 3000);
}

#[test]
fn flush_of_an_empty_backlog_hands_out_nothing() {
    let mut encoder = AACEncoder::new(config(500, 1), &vec![8000]).unwrap();
    assert_eq!(encoder.process_audio(&ramp(2000)).len(), 2);
    assert!(encoder.flush().is_none());
}

#[test]
fn frames_carry_their_remainder_over_to_the_next_segment() {
    let mut encoder = AACEncoder::new(config(48000, 2), &vec![48000]).unwrap();
    let first = encoder.segment_frames(&ramp(192000));
    assert_eq!(first.len(), 93);
    assert_eq!(encoder.carry_len(), 1536);
    assert_eq!(encoder.pts(), 93 * 1024);
    assert_eq!(first[0].samples, ramp(2048));
    assert_eq!(first[0].pts, 0);
    assert_eq!(first[92].pts, 92 * 1024);
    assert_eq!(first[92].sample_rate, 48000);
    assert_eq!(first[92].channels, 2);
    let second = encoder.segment_frames(&vec![7u32; 192000]);
    assert_eq!(second.len(), 94);
    assert_eq!(encoder.carry_len(), 1024);
    assert_eq!(&second[0].samples[..1536], &ramp(192000)[190464..]);
    assert!(second[0].samples[1536..].iter().all(|s| *s == 7));
    assert_eq!(second[0].pts, 93 * 1024);
    assert_eq!(encoder.pts(), 187 * 1024);
}

#[test]
fn the_last_frame_is_padded_with_silence() {
    let mut encoder = AACEncoder::new(config(8000, 1), &vec![8000]).unwrap();
    assert!(encoder.flush_frame().is_none());
    let frames = encoder.segment_frames(&ramp(1500));
    assert_eq!(frames.len(), 1);
    let last = encoder.flush_frame().unwrap();
    assert_eq!(last.samples.len(), 1024);
    assert_eq!(&last.samples[..476], &ramp(1500)[1024..]);
    assert!(last.samples[476..].iter().all(|s| *s == 0));
    assert_eq!(last.pts, 1024);
    assert_eq!(encoder.pts(), 2048);
    assert_eq!(encoder.carry_len(), 0);
    assert!(encoder.flush_frame().is_none());
}

#[test]
fn a_frame_takes_at_most_one_codec_frame_per_channel() {
    let mut encoder = AACEncoder::new(config(8000, 2), &vec![8000]).unwrap();
    let short = encoder.create_audio_frame(&ramp(11));
    assert_eq!(short.samples, ramp(10));
    assert_eq!(short.pts, 0);
    assert_eq!(encoder.pts(), 5);
    let long = encoder.create_audio_frame(&ramp(5000));
    assert_eq!(long.samples, ramp(2048));
    assert_eq!(long.pts, 5);
    assert_eq!(encoder.pts(), 5 + 1024);
}

#[test]
fn header_bytes_for_48_khz_stereo() {
    let payload = vec![0xABu8; 100];
    let framed = adts_wrap(&payload, 48000, 2);
    assert_eq!(&framed[..7], &[0xFF, 0xF1, 0x4C, 0x80, 0x0D, 0x7F, 0xFC]);
    assert_eq!(&framed[7..], &payload[..]);
}

#[test]
fn header_bytes_for_other_rates_and_channel_counts() {
    assert_eq!(&adts_wrap(&[], 44100, 1)[..], &[0xFF, 0xF1, 0x50, 0x40, 0x00, 0xFF, 0xFC]);
    assert_eq!(&adts_wrap(&[1], 8000, 6)[..7], &[0xFF, 0xF1, 0x6D, 0x80, 0x01, 0x1F, 0xFC]);
    assert_eq!(&adts_wrap(&[1], 12345, 2)[..7], &[0xFF, 0xF1, 0x50, 0x80, 0x01, 0x1F, 0xFC]);
    let big = adts_wrap(&vec![0u8; 4089], 96000, 2);
    assert_eq!(&big[..7], &[0xFF, 0xF1, 0x40, 0x82, 0x00, 0x1F, 0xFC]);
}

#[test]
fn header_length_field_reads_back() {
    for len in [0usize, 1, 7, 8, 255, 256, 2040, 2041, 8184] {
        let framed = adts_wrap(&vec![0u8; len], 48000, 2);
        let read = ((framed[3] as usize & 3) << 11) | ((framed[4] as usize) << 3) | (framed[5] as usize >> 5);
        assert_eq!(read, len + 7);
    }
}

#[test]
fn a_segment_is_packaged_from_the_payloads_that_are_not_empty() {
    let mut encoder = AACEncoder::new(config(48000, 2), &vec![48000]).unwrap();
    let frames = encoder.segment_frames(&vec![0u32; 192000]);
    assert_eq!(frames.len(), 93);
    let payloads = vec![vec![1u8, 2, 3], Vec::new(), vec![9u8]];
    let segment = encoder.encode_audio_segment(&payloads);
    let mut expected = vec![0xFF, 0xF1, 0x4C, 0x80, 0x01, 0x5F, 0xFC, 1, 2, 3];
    expected.extend([0xFF, 0xF1, 0x4C, 0x80, 0x01, 0x1F, 0xFC, 9]);
    assert_eq!(segment.data, expected);
    assert_eq!(segment.sequence, 0);
    assert_eq!(segment.duration_ms, 2000);
    assert_eq!(segment.timestamp, 1984);
    assert_eq!(segment.sample_rate, 48000);
    assert_eq!(segment.channels, 2);
    assert_eq!(encoder.next_sequence(), 1);
    assert_eq!(encoder.add_adts_header(&[9]), expected[10..].to_vec());
}

#[test]
fn sequence_numbers_count_up_without_gaps() {
    let mut encoder = AACEncoder::new(config(500, 1), &vec![8000]).unwrap();
    let mut numbers = Vec::new();
    for chunk in ramp(5300).chunks(1300) {
        for raw in encoder.process_audio(chunk) {
            let frames = encoder.segment_frames(&raw);
            let payloads: Vec<Vec<u8>> = frames.iter().map(|_| vec![1u8]).collect();
            numbers.push(encoder.encode_audio_segment(&payloads).sequence);
        }
    }
    let raw = encoder.flush().unwrap();
    encoder.segment_frames(&raw);
    numbers.push(encoder.encode_audio_segment(&Vec::new()).sequence);
    assert!(encoder.trailing_segment(&[]).is_none());
    numbers.push(encoder.trailing_segment(&[5u8]).unwrap().sequence);
    assert_eq!(numbers, vec![0, 1, 2, 3, 4, 5, 6]);
}

#[test]
fn trailing_data_becomes_a_segment_of_no_duration() {
    let mut encoder = AACEncoder::new(config(48000, 2), &vec![48000]).unwrap();
    encoder.segment_frames(&vec![0u32; 4096]);
    assert!(encoder.trailing_segment(&[]).is_none());
    assert_eq!(encoder.next_sequence(), 0);
    let segment = encoder.trailing_segment(&[4u8, 5, 6]).unwrap();
    assert_eq!(segment.data, vec![0xFF, 0xF1, 0x4C, 0x80, 0x01, 0x5F, 0xFC, 4, 5, 6]);
    assert_eq!(segment.sequence, 0);
    assert_eq!(segment.duration_ms, 0);
    assert_eq!(segment.timestamp, 42);
    assert_eq!(encoder.next_sequence(), 1);
}

#[test]
fn presentation_time_is_whole_milliseconds() {
    assert_eq!(presentation_ms(0, 48000), 0);
    assert_eq!(presentation_ms(47, 48000), 0);
    assert_eq!(presentation_ms(48, 48000), 1);
    assert_eq!(presentation_ms(96000, 48000), 2000);
    assert_eq!(presentation_ms(44100 * 3 + 1, 44100), 3000);
    assert_eq!(presentation_ms(u64::MAX, 1), u64::MAX);
}

#[test]
fn timestamps_never_go_back() {
    let mut encoder = AACEncoder::new(config(44100, 2), &vec![44100]).unwrap();
    let mut last = 0;
    for _ in 0..5 {
        encoder.segment_frames(&vec![0u32; 2 * 44100 * 2]);
        let segment = encoder.encode_audio_segment(&vec![vec![1u8]]);
        assert!(segment.timestamp >= last);
        assert_eq!(segment.timestamp, encoder.pts() * 1000 / 44100);
        last = segment.timestamp;
    }
    assert_eq!(last, 9984);
}

#[test]
fn factory_reports_failures_as_encoding_errors() {
    match create_aac_encoder(config(22050, 2), &Vec::new()) {
        Err(CaptureError::EncodingError(message)) => {
            assert_eq!(message, "Task launch error: AAC Codec does not support sample rate 22050");
        }
        _ => panic!("expected an encoding error"),
    }
    match create_aac_encoder(config(22050, 0), &vec![22050]) {
        Err(CaptureError::EncodingError(message)) => {
            assert_eq!(message, "Audio configuration cannot be segmented");
        }
        _ => panic!("expected an encoding error"),
    }
    assert_eq!(create_aac_encoder(config(22050, 2), &vec![22050]).unwrap().output_rate(), 22050);
}

#[test]
fn transcription_encoder_is_48_khz_stereo_at_128_kbit() {
    let encoder = create_transcription_encoder(&vec![44100, 48000]).unwrap();
    let expected = AudioEncodingConfig {
        codec: AudioCodec::AAC,
        bitrate: 128000,
        sample_rate: 48000,
        channels: 2,
        channel_layout: AudioChannelLayout::Stereo,
    };
    assert_eq!(encoder.config(), expected);
    assert_eq!(encoder.config(), AudioEncodingConfig::default());
    assert_eq!(encoder.output_rate(), 48000);
    assert!(create_transcription_encoder(&Vec::new()).is_err());
}

#[test]
fn codec_errors_keep_their_message() {
    let ffmpeg = AudioEncodingError::FFmpeg("Invalid argument".to_string());
    assert_eq!(
        ffmpeg.into_capture_error(),
        CaptureError::EncodingError("FFmpeg error: Invalid argument".to_string())
    );
    let launch = AudioEncodingError::TaskLaunch("Could not find AAC codec".to_string());
    assert_eq!(
        launch.into_capture_error(),
        CaptureError::EncodingError("Task launch error: Could not find AAC codec".to_string())
    );
    let other = AudioEncodingError::Other("FFmpeg init: failed".to_string());
    assert_eq!(
        other.into_capture_error(),
        CaptureError::EncodingError("FFmpeg init: failed".to_string())
    );
}

fn encoded(end_pts: u64, payload: u8) -> SegmentOutcome {
    SegmentOutcome { end_pts, encoded: Ok(vec![vec![payload], Vec::new(), vec![payload, payload]]) }
}

fn failed(end_pts: u64, message: &str) -> SegmentOutcome {
    SegmentOutcome { end_pts, encoded: Err(AudioEncodingError::FFmpeg(message.to_string())) }
}

#[test]
fn a_segment_that_fails_to_encode_is_dropped_and_the_rest_goes_on() {
    let mut encoder = AACEncoder::new(config(48000, 2), &vec![48000]).unwrap();
    let chunks = encoder.process_audio(&ramp(3 * 192000 + 10));
    assert_eq!(chunks.len(), 3);
    let outcomes = vec![encoded(96000, 1), failed(192000, "frame 7"), encoded(288000, 3)];
    let (segments, error) = encoder.package_submission(&outcomes);
    assert_eq!(error, Some(AudioEncodingError::FFmpeg("frame 7".to_string())));
    assert_eq!(segments.len(), 2);
    assert_eq!(segments[0].sequence, 0);
    assert_eq!(segments[1].sequence, 1);
    assert_eq!(segments[0].timestamp, 2000);
    assert_eq!(segments[1].timestamp, 6000);
    assert_eq!(segments[0].data, [adts_wrap(&[1], 48000, 2), adts_wrap(&[1, 1], 48000, 2)].concat());
    assert_eq!(segments[1].data, [adts_wrap(&[3], 48000, 2), adts_wrap(&[3, 3], 48000, 2)].concat());
    assert_eq!(segments[1].duration_ms, 2000);
    assert_eq!((segments[1].sample_rate, segments[1].channels), (48000, 2));
    assert_eq!(encoder.next_sequence(), 2);
    assert_eq!(encoder.backlog_len(), 10);
    let (next, error) = encoder.package_submission(&vec![encoded(384000, 4)]);
    assert_eq!(error, None);
    assert_eq!(next[0].sequence, 2);
}

#[test]
fn the_first_failure_of_a_submission_is_reported() {
    let mut encoder = AACEncoder::new(config(48000, 2), &vec![48000]).unwrap();
    let outcomes = vec![failed(1, "first"), encoded(2, 1), failed(3, "second"), encoded(4, 2)];
    let (segments, error) = encoder.package_submission(&outcomes);
    assert_eq!(error, Some(AudioEncodingError::FFmpeg("first".to_string())));
    let numbers: Vec<u32> = segments.iter().map(|s| s.sequence).collect();
    assert_eq!(numbers, vec![0, 1]);
    let (none, error) = encoder.package_submission(&vec![failed(5, "only")]);
    assert!(none.is_empty());
    assert_eq!(error, Some(AudioEncodingError::FFmpeg("only".to_string())));
    assert_eq!(encoder.next_sequence(), 2);
    let (none, error) = encoder.package_submission(&Vec::new());
    assert!(none.is_empty());
    assert_eq!(error, None);
}

#[test]
fn a_segment_can_be_packaged_for_a_given_presentation_time() {
    let mut encoder = AACEncoder::new(config(44100, 1), &vec![44100]).unwrap();
    let segment = encoder.encode_audio_segment_at(&vec![vec![5u8]], 44100);
    assert_eq!(segment.timestamp, 1000);
    assert_eq!(segment.sequence, 0);
    assert_eq!(segment.data, adts_wrap(&[5], 44100, 1));
    assert_eq!(encoder.next_sequence(), 1);
}

#[test]
fn an_outcome_is_stamped_with_the_time_that_the_cut_reached() {
    let mut encoder = AACEncoder::new(config(48000, 2), &vec![48000]).unwrap();
    let chunks = encoder.process_audio(&ramp(2 * 192000));
    let mut outcomes = Vec::new();
    let frames = encoder.segment_frames(&chunks[0]);
    assert_eq!(frames.len(), 93);
    outcomes.push(encoder.segment_outcome(Ok(vec![vec![1u8]])));
    let frames = encoder.segment_frames(&chunks[1]);
    assert_eq!(frames.len(), 94);
    outcomes.push(encoder.segment_outcome(Err(AudioEncodingError::Other("lost".to_string()))));
    assert_eq!(outcomes[0].end_pts, 93 * 1024);
    assert_eq!(outcomes[1].end_pts, 187 * 1024);
    assert_eq!(outcomes[1].encoded, Err(AudioEncodingError::Other("lost".to_string())));
    let (segments, error) = encoder.package_submission(&outcomes);
    assert_eq!(segments.len(), 1);
    assert_eq!(segments[0].timestamp, 93 * 1024 * 1000 / 48000);
    assert_eq!(error, Some(AudioEncodingError::Other("lost".to_string())));
}
