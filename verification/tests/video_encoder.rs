use cap_electron_capture::encoding::video_encoder::{
    copy_range, create_screen_recording_encoder, planar_yuv420p, yuv420p_planes, VideoEncoder,
};
use cap_electron_capture::encoding::{PixelFormat, VideoCodec, VideoEncodingConfig};
use cap_electron_capture::error::CaptureError;

fn config(fps: u32, resolution: (u32, u32), pixel_format: PixelFormat) -> VideoEncodingConfig {
    VideoEncodingConfig {
        codec: VideoCodec::H264,
        bitrate: 2000000,
        frame_rate: (fps, 1),
        resolution,
        pixel_format,
        hardware_acceleration: false,
    }
}

/// Packed luma and chroma triples of a picture, computed the way the
/// capture side does it, with the usual studio-range coefficients.
fn ycbcr_of(rgba: &[u8]) -> Vec<u8> {
    let mut out = Vec::new();
    for pixel in rgba.chunks(4) {
        let (r, g, b) = (pixel[0] as f32, pixel[1] as f32, pixel[2] as f32);
        out.push((0.257 * r + 0.504 * g + 0.098 * b + 16.0) as u8);
        out.push((-0.148 * r - 0.291 * g + 0.439 * b + 128.0) as u8);
        out.push((0.439 * r - 0.368 * g - 0.071 * b + 128.0) as u8);
    }
    out
}

#[test]
fn frames_are_batched_into_two_seconds() {
    let mut encoder = VideoEncoder::new(config(3, (2, 2), PixelFormat::RGBA));
    for i in 0..5u8 {
        assert!(encoder.process_frame(&[i; 16]).is_none());
        assert_eq!(encoder.backlog_len(), i as usize + 1);
    }
    let batch = encoder.process_frame(&[5u8; 16]).unwrap();
    assert_eq!(batch.len(), 6);
    for (i, frame) in batch.iter().enumerate() {
        assert_eq!(frame, &vec![i as u8; 16]);
    }
    assert_eq!(encoder.backlog_len(), 0);
    assert_eq!(encoder.frame_counter(), 6);
    assert!(encoder.process_frame(&[6u8; 16]).is_none());
    assert_eq!(encoder.frame_counter(), 7);
}

#[test]
fn the_default_encoder_batches_sixty_frames() {
    let mut encoder = create_screen_recording_encoder((4, 4));
    for _ in 0..59 {
        assert!(encoder.process_frame(&[0u8; 4]).is_none());
    }
    assert_eq!(encoder.process_frame(&[0u8; 4]).unwrap().len(), 60);
    let expected = VideoEncodingConfig {
        codec: VideoCodec::H264,
        bitrate: 2000000,
        frame_rate: (30, 1),
        resolution: (4, 4),
        pixel_format: PixelFormat::YUV420P,
        hardware_acceleration: true,
    };
    assert_eq!(encoder.config(), expected);
}

#[test]
fn a_frame_rate_of_zero_makes_every_frame_a_batch() {
    let mut encoder = VideoEncoder::new(config(0, (2, 2), PixelFormat::RGBA));
    assert_eq!(encoder.process_frame(&[1u8; 4]).unwrap(), vec![vec![1u8; 4]]);
    assert_eq!(encoder.process_frame(&[2u8; 4]).unwrap(), vec![vec![2u8; 4]]);
}

#[test]
fn flush_hands_out_a_shorter_last_batch() {
    let mut encoder = VideoEncoder::new(config(30, (2, 2), PixelFormat::RGBA));
    assert!(encoder.flush().is_none());
    encoder.process_frame(&[1u8; 4]);
    encoder.process_frame(&[2u8; 4]);
    assert_eq!(encoder.flush().unwrap(), vec![vec![1u8; 4], vec![2u8; 4]]);
    assert_eq!(encoder.backlog_len(), 0);
    assert!(encoder.flush().is_none());
}

#[test]
fn a_segment_joins_the_payloads_in_order() {
    let mut encoder = VideoEncoder::new(config(30, (640, 480), PixelFormat::RGBA));
    let payloads = vec![vec![1u8, 2], Vec::new(), vec![3u8]];
    for _ in 0..59 {
        assert!(encoder.process_frame(&[0u8; 4]).is_none());
    }
    assert_eq!(encoder.batch_frames(), 0);
    assert_eq!(encoder.process_frame(&[0u8; 4]).unwrap().len(), 60);
    assert_eq!(encoder.batch_frames(), 60);
    let first = encoder.encode_video_segment_at(&payloads, 1111);
    assert_eq!(first.data, vec![1u8, 2, 3]);
    assert_eq!(first.sequence, 0);
    assert_eq!(first.duration_ms, 2000);
    assert_eq!(first.timestamp, 1111);
    assert_eq!(first.frame_count, 60);
    assert_eq!(first.resolution, (640, 480));
    assert_eq!(encoder.batch_frames(), 0);
    for _ in 0..7 {
        encoder.process_frame(&[0u8; 4]);
    }
    assert_eq!(encoder.flush().unwrap().len(), 7);
    let second = encoder.encode_video_segment_at(&Vec::new(), 2222);
    assert!(second.data.is_empty());
    assert_eq!(second.sequence, 1);
    assert_eq!(second.frame_count, 7);
    assert_eq!(encoder.next_sequence(), 2);
}

#[test]
fn the_frame_count_of_a_segment_is_that_of_the_batch_handed_out() {
    let mut encoder = VideoEncoder::new(config(1, (2, 2), PixelFormat::RGBA));
    assert!(encoder.process_frame(&[1u8; 4]).is_none());
    let batch = encoder.process_frame(&[2u8; 4]).unwrap();
    assert_eq!(batch.len(), 2);
    assert!(encoder.process_frame(&[3u8; 4]).is_none());
    assert_eq!(encoder.batch_frames(), 2);
    let segment = encoder.encode_video_segment_at(&vec![vec![9u8]], 5);
    assert_eq!(segment.frame_count, 2);
    assert_eq!(encoder.backlog_len(), 1);
    let stray = encoder.encode_video_segment_at(&vec![vec![9u8]], 6);
    assert_eq!(stray.frame_count, 0);
    assert_eq!(stray.sequence, 1);
    assert_eq!(encoder.flush().unwrap().len(), 1);
    assert_eq!(encoder.encode_video_segment_at(&Vec::new(), 7).frame_count, 1);
}

#[test]
fn trailing_packets_become_segments_without_frames() {
    let mut encoder = VideoEncoder::new(config(30, (640, 480), PixelFormat::RGBA));
    encoder.encode_video_segment_at(&vec![vec![1u8]], 1);
    let trailing = encoder.trailing_segment_at(vec![8u8, 9], 77);
    assert_eq!(trailing.data, vec![8u8, 9]);
    assert_eq!(trailing.sequence, 1);
    assert_eq!(trailing.duration_ms, 2000);
    assert_eq!(trailing.timestamp, 77);
    assert_eq!(trailing.frame_count, 0);
    assert_eq!(trailing.resolution, (640, 480));
    let empty = encoder.trailing_segment_at(Vec::new(), 78);
    assert_eq!(empty.sequence, 2);
}

#[test]
fn segments_are_stamped_with_the_wall_clock() {
    let mut encoder = VideoEncoder::new(config(30, (640, 480), PixelFormat::RGBA));
    let before = std::time::SystemTime::now()
        .duration_since(std::time::UNIX_EPOCH)
        .unwrap()
        .as_millis() as u64;
    let segment = encoder.encode_video_segment(&vec![vec![1u8]]);
    let trailing = encoder.trailing_segment(vec![2u8]);
    let after = std::time::SystemTime::now()
        .duration_since(std::time::UNIX_EPOCH)
        .unwrap()
        .as_millis() as u64;
    assert!(before <= segment.timestamp && segment.timestamp <= trailing.timestamp);
    assert!(trailing.timestamp <= after);
    assert_eq!(segment.sequence, 0);
    assert_eq!(trailing.sequence, 1);
}

#[test]
fn planar_layout_of_a_four_by_two_picture() {
    let ycbcr: Vec<u8> = (0..24u8).collect();
    let yuv = planar_yuv420p(&ycbcr, 4, 2).unwrap();
    assert_eq!(yuv, vec![0, 3, 6, 9, 12, 15, 18, 21, 1, 7, 2, 8]);
}

#[test]
fn planar_layout_of_a_four_by_four_picture() {
    let ycbcr: Vec<u8> = (0..48u8).collect();
    let yuv = planar_yuv420p(&ycbcr, 4, 4).unwrap();
    let luma: Vec<u8> = (0..16u8).map(|i| 3 * i).collect();
    assert_eq!(&yuv[..16], &luma[..]);
    assert_eq!(&yuv[16..20], &[1, 7, 25, 31]);
    assert_eq!(&yuv[20..], &[2, 8, 26, 32]);
    let (y, u, v) = yuv420p_planes(&yuv, 4, 4).unwrap();
    assert_eq!(y, luma);
    assert_eq!(u, vec![1, 7, 25, 31]);
    assert_eq!(v, vec![2, 8, 26, 32]);
}

#[test]
fn odd_rows_and_columns_have_no_chroma_of_their_own() {
    let ycbcr: Vec<u8> = (0..27u8).collect();
    let yuv = planar_yuv420p(&ycbcr, 3, 3).unwrap();
    assert_eq!(yuv, vec![0, 3, 6, 9, 12, 15, 18, 21, 24, 1, 2]);
    assert_eq!(planar_yuv420p(&[5, 6, 7], 1, 1).unwrap(), vec![5]);
    assert_eq!(planar_yuv420p(&[], 0, 7).unwrap(), Vec::<u8>::new());
}

#[test]
fn bytes_behind_the_picture_are_ignored() {
    let mut ycbcr: Vec<u8> = (0..12u8).collect();
    ycbcr.extend([200u8; 5]);
    assert_eq!(planar_yuv420p(&ycbcr, 2, 2).unwrap(), vec![0, 3, 6, 9, 1, 2]);
}

#[test]
fn a_picture_that_is_too_short_is_refused() {
    match planar_yuv420p(&[0u8; 11], 2, 2) {
        Err(CaptureError::EncodingError(message)) => {
            assert_eq!(message, "Frame data is shorter than the resolution requires");
        }
        _ => panic!("expected an encoding error"),
    }
    assert!(planar_yuv420p(&[0u8; 12], u32::MAX, u32::MAX).is_err());
}

#[test]
fn planes_are_split_only_from_a_buffer_of_the_right_size() {
    assert!(yuv420p_planes(&[0u8; 6], 2, 2).is_ok());
    for wrong in [5usize, 7] {
        match yuv420p_planes(&vec![0u8; wrong], 2, 2) {
            Err(CaptureError::EncodingError(message)) => {
                assert_eq!(message, "Planar buffer does not match the resolution");
            }
            _ => panic!("expected an encoding error"),
        }
    }
    assert_eq!(copy_range(&[1, 2, 3, 4, 5], 1, 4), vec![2, 3, 4]);
}

#[test]
fn black_and_white_pixels_convert_to_studio_range() {
    let rgba = [0u8, 0, 0, 255, 255, 255, 255, 255, 0, 0, 0, 255, 255, 255, 255, 255];
    let yuv = planar_yuv420p(&ycbcr_of(&rgba), 2, 2).unwrap();
    assert_eq!(yuv, vec![16, 235, 16, 235, 128, 128]);
}

#[test]
fn planar_frames_are_prepared_in_three_planes() {
    let mut encoder = VideoEncoder::new(config(30, (2, 2), PixelFormat::YUV420P));
    encoder.process_frame(&[0u8; 16]);
    encoder.process_frame(&[0u8; 16]);
    let ycbcr: Vec<u8> = (10..22u8).collect();
    let frame = encoder.prepare_frame(&ycbcr).unwrap();
    assert_eq!(frame.planes, vec![vec![10u8, 13, 16, 19], vec![11u8], vec![12u8]]);
    assert_eq!(frame.pixel_format, PixelFormat::YUV420P);
    assert_eq!(frame.resolution, (2, 2));
    assert_eq!(frame.pts, 2);
    match encoder.prepare_frame(&ycbcr[..11]) {
        Err(CaptureError::EncodingError(message)) => {
            assert_eq!(message, "Frame data is shorter than the resolution requires");
        }
        _ => panic!("expected an encoding error"),
    }
}

#[test]
fn packed_frames_are_handed_on_as_they_are() {
    let encoder = VideoEncoder::new(config(30, (2, 1), PixelFormat::BGRA));
    let frame = encoder.prepare_frame(&[1, 2, 3, 4, 5, 6, 7, 8]).unwrap();
    assert_eq!(frame.planes, vec![vec![1u8, 2, 3, 4, 5, 6, 7, 8]]);
    assert_eq!(frame.pixel_format, PixelFormat::BGRA);
    assert_eq!(frame.pts, 0);
    let short = encoder.prepare_frame(&[1]).unwrap();
    assert_eq!(short.planes, vec![vec![1u8]]);
}
