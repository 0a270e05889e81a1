//! Video segment encoding: batching frames into segments and packaging what
//! the codec returns.

use crate::bytes::{copy_bytes, copy_slice, push_bytes};
use crate::clock::unix_millis;
use crate::encoding::{PixelFormat, VideoCodec, VideoEncodingConfig, SEGMENT_DURATION_MS};
use crate::error::{CaptureError, CaptureResult};
use vstd::prelude::*;
use vstd::string::*;

verus! {

/// Encoded video segment ready for upload.
#[derive(Debug, PartialEq, Eq)]
pub struct EncodedVideoSegment {
    /// Encoded H.264 data
    pub data: Vec<u8>,
    /// Segment sequence number
    pub sequence: u32,
    /// Duration in milliseconds
    pub duration_ms: u64,
    /// Timestamp when encoded, milliseconds since the epoch
    pub timestamp: u64,
    /// Frame count in this segment
    pub frame_count: u32,
    /// Resolution, width then height
    pub resolution: (u32, u32),
}

impl Clone for EncodedVideoSegment {
    /// A copy with the same bytes and the same metadata.
    fn clone(&self) -> (res: Self)
        ensures
            res.data@ == self.data@,
            res.sequence == self.sequence,
            res.duration_ms == self.duration_ms,
            res.timestamp == self.timestamp,
            res.frame_count == self.frame_count,
            res.resolution == self.resolution,
    {
        EncodedVideoSegment {
            data: copy_bytes(&self.data),
            sequence: self.sequence,
            duration_ms: self.duration_ms,
            timestamp: self.timestamp,
            frame_count: self.frame_count,
            resolution: self.resolution,
        }
    }
}

/// The byte sequences held by a list of byte buffers.
pub open spec fn frame_views(frames: Seq<Vec<u8>>) -> Seq<Seq<u8>> {
    frames.map_values(|f: Vec<u8>| f@)
}

/// All of `parts`, one after the other.
pub open spec fn concat_all(parts: Seq<Seq<u8>>) -> Seq<u8>
    decreases parts.len(),
{
    if parts.len() == 0 {
        Seq::empty()
    } else {
        concat_all(parts.drop_last()) + parts.last()
    }
}

/// The number of frames that make a segment: two seconds at the frame
/// rate's numerator, held at the largest count where it would not fit.
pub open spec fn segment_frame_count(config: VideoEncodingConfig) -> u32 {
    if 2 * config.frame_rate.0 > u32::MAX {
        u32::MAX
    } else {
        (2 * config.frame_rate.0) as u32
    }
}

/// The luma plane of a picture of `width` by `height` pixels given as
/// packed triples of luma, blue-difference and red-difference values, one
/// triple per pixel, rows from the top, pixels from the left.
pub open spec fn luma_plane(ycbcr: Seq<u8>, width: nat, height: nat) -> Seq<u8> {
    Seq::new(width * height, |i: int| ycbcr[3 * i])
}

/// A chroma plane at quarter resolution: for every second row and every
/// second column, the value `component` (1 for blue-difference, 2 for
/// red-difference) of the pixel at the top left of its 2x2 block. An odd
/// last row or column has no chroma sample of its own.
pub open spec fn chroma_plane(ycbcr: Seq<u8>, width: nat, height: nat, component: nat) -> Seq<u8> {
    Seq::new(
        (width / 2) * (height / 2),
        |j: int|
            ycbcr[3 * ((2 * (j / (width as int / 2))) * width + 2 * (j % (width as int / 2)))
                + component],
    )
}

/// The canonical planar 4:2:0 picture: the luma plane, then the two chroma
/// planes.
pub open spec fn planar_picture(ycbcr: Seq<u8>, width: nat, height: nat) -> Seq<u8> {
    luma_plane(ycbcr, width, height) + chroma_plane(ycbcr, width, height, 1) + chroma_plane(
        ycbcr,
        width,
        height,
        2,
    )
}

/// Appends one chroma plane of the picture to `out`.
fn push_chroma_plane(out: &mut Vec<u8>, ycbcr: &[u8], width: usize, height: usize, component: usize)
    requires
        component == 1 || component == 2,
        3 * (width * height) <= ycbcr@.len(),
    ensures
        final(out)@ == old(out)@ + chroma_plane(
            ycbcr@,
            width as nat,
            height as nat,
            component as nat,
        ),
{
    let total = ycbcr.len();
    let cw = width / 2;
    let ch = height / 2;
    assert(0 <= cw * ch <= width * height) by (nonlinear_arith)
        requires
            0 <= cw <= width,
            0 <= ch <= height,
    ;
    let count = cw * ch;
    let ghost plane = chroma_plane(ycbcr@, width as nat, height as nat, component as nat);
    let mut j: usize = 0;
    while j < count
        invariant
            j <= count,
            count == cw * ch,
            cw == width / 2,
            ch == height / 2,
            component == 1 || component == 2,
            3 * (width * height) <= ycbcr@.len(),
            ycbcr@.len() == total,
            plane == chroma_plane(ycbcr@, width as nat, height as nat, component as nat),
            out@ == old(out)@ + plane.take(j as int),
        decreases count - j,
    {
        assert(cw > 0) by (nonlinear_arith)
            requires
                j < cw * ch,
        ;
        let cy = j / cw;
        let cx = j % cw;
        assert(cy < ch) by (nonlinear_arith)
            requires
                j < cw * ch,
                cy == j / cw,
                cw > 0,
        ;
        assert(0 <= (2 * cy) * width && (2 * cy) * width + 2 * cx < width * height)
            by (nonlinear_arith)
            requires
                0 <= cy,
                0 <= cx,
                2 * cy + 2 <= height,
                2 * cx + 2 <= width,
        ;
        let index = 3 * ((2 * cy) * width + 2 * cx) + component;
        out.push(ycbcr[index]);
        j += 1;
        assert(out@ =~= old(out)@ + plane.take(j as int));
    }
    assert(plane.take(count as int) =~= plane);
}

/// Lays a picture out as canonical planar 4:2:0. The picture is given as
/// packed triples of luma, blue-difference and red-difference values, one
/// triple per pixel; bytes behind the last pixel are ignored. Fails where
/// `ycbcr` is too short for `width` by `height` pixels.
pub fn planar_yuv420p(ycbcr: &[u8], width: u32, height: u32) -> (res: CaptureResult<Vec<u8>>)
    ensures
        res is Ok <==> 3 * (width * height) <= ycbcr@.len(),
        res matches Ok(yuv) ==> yuv@ == planar_picture(ycbcr@, width as nat, height as nat),
        res matches Err(e) ==> e matches CaptureError::EncodingError(m) && m@
            == "Frame data is shorter than the resolution requires"@,
{
    assert(0 <= 3 * (width * height) <= 3 * (0xFFFF_FFFF * 0xFFFF_FFFF)) by (nonlinear_arith)
        requires
            0 <= width <= 0xFFFF_FFFF,
            0 <= height <= 0xFFFF_FFFF,
    ;
    let needed: u128 = 3 * ((width as u128) * (height as u128));
    if needed > ycbcr.len() as u128 {
        return Err(
            CaptureError::EncodingError(
                String::from_str("Frame data is shorter than the resolution requires"),
            ),
        );
    }
    let total = ycbcr.len();
    let w = width as usize;
    let h = height as usize;
    let pixels: usize = w * h;
    let ghost luma = luma_plane(ycbcr@, width as nat, height as nat);
    let mut yuv: Vec<u8> = Vec::new();
    let mut i: usize = 0;
    while i < pixels
        invariant
            i <= pixels,
            3 * pixels <= ycbcr@.len(),
            ycbcr@.len() == total,
            pixels == width * height,
            luma == luma_plane(ycbcr@, width as nat, height as nat),
            yuv@ == luma.take(i as int),
        decreases pixels - i,
    {
        yuv.push(ycbcr[3 * i]);
        i += 1;
        assert(yuv@ =~= luma.take(i as int));
    }
    assert(luma.take(pixels as int) =~= luma);
    push_chroma_plane(&mut yuv, ycbcr, w, h, 1);
    push_chroma_plane(&mut yuv, ycbcr, w, h, 2);
    Ok(yuv)
}

/// The three planes of a planar 4:2:0 buffer: the first `width * height`
/// bytes, and the two quarters behind them.
pub open spec fn planes_of(yuv: Seq<u8>, width: nat, height: nat) -> (Seq<u8>, Seq<u8>, Seq<u8>) {
    let luma = (width * height) as int;
    let chroma = ((width / 2) * (height / 2)) as int;
    (
        yuv.subrange(0, luma),
        yuv.subrange(luma, luma + chroma),
        yuv.subrange(luma + chroma, luma + 2 * chroma),
    )
}

/// Splits a planar 4:2:0 buffer into its luma plane and its two chroma
/// planes. Fails unless the buffer has exactly the size of the three
/// planes.
pub fn yuv420p_planes(yuv: &[u8], width: u32, height: u32) -> (res: CaptureResult<
    (Vec<u8>, Vec<u8>, Vec<u8>),
>)
    ensures
        res is Ok <==> yuv@.len() == width * height + 2 * ((width / 2) * (height / 2)),
        res matches Ok(planes) ==> (planes.0@, planes.1@, planes.2@) == planes_of(
            yuv@,
            width as nat,
            height as nat,
        ),
        res matches Err(e) ==> e matches CaptureError::EncodingError(m) && m@
            == "Planar buffer does not match the resolution"@,
{
    let cw = (width / 2) as u128;
    let ch = (height / 2) as u128;
    assert(0 <= width * height + 2 * (cw * ch) <= 3 * (0xFFFF_FFFF * 0xFFFF_FFFF)) by (nonlinear_arith)
        requires
            0 <= width <= 0xFFFF_FFFF,
            0 <= height <= 0xFFFF_FFFF,
            0 <= cw <= 0xFFFF_FFFF,
            0 <= ch <= 0xFFFF_FFFF,
    ;
    let luma: u128 = (width as u128) * (height as u128);
    let chroma: u128 = cw * ch;
    if luma + 2 * chroma != yuv.len() as u128 {
        return Err(
            CaptureError::EncodingError(
                String::from_str("Planar buffer does not match the resolution"),
            ),
        );
    }
    let luma_len = luma as usize;
    let chroma_len = chroma as usize;
    let y = copy_range(yuv, 0, luma_len);
    let u = copy_range(yuv, luma_len, luma_len + chroma_len);
    let v = copy_range(yuv, luma_len + chroma_len, luma_len + 2 * chroma_len);
    Ok((y, u, v))
}

/// A copy of the bytes of `source` from `from` up to `to`.
pub fn copy_range(source: &[u8], from: usize, to: usize) -> (res: Vec<u8>)
    requires
        from <= to <= source@.len(),
    ensures
        res@ == source@.subrange(from as int, to as int),
{
    let mut res: Vec<u8> = Vec::new();
    let mut i: usize = from;
    while i < to
        invariant
            from <= i <= to <= source@.len(),
            res@ == source@.subrange(from as int, i as int),
        decreases to - i,
    {
        res.push(source[i]);
        i += 1;
        assert(res@ =~= source@.subrange(from as int, i as int));
    }
    res
}

/// One picture as it is handed to the codec.
#[derive(Debug, PartialEq, Eq)]
pub struct VideoFrame {
    /// The planes of the picture: luma and two chroma planes for planar
    /// 4:2:0, one packed plane otherwise
    pub planes: Vec<Vec<u8>>,
    /// Pixel format of the planes
    pub pixel_format: PixelFormat,
    /// Width and height in pixels
    pub resolution: (u32, u32),
    /// Presentation time, in frames
    pub pts: i64,
}

/// What a video encoder holds between calls.
pub struct VideoEncoderState {
    /// The configuration it was made with
    pub config: VideoEncodingConfig,
    /// The sequence number of the next segment
    pub next_sequence: u32,
    /// Frames submitted and not yet handed out as a batch
    pub backlog: Seq<Seq<u8>>,
    /// Frames submitted so far
    pub frame_counter: u32,
    /// Frames in the batch that was handed out last and has not been
    /// packaged yet
    pub batch_frames: u32,
}

impl VideoEncoderState {
    /// The backlog never holds a whole batch: a batch is handed out as
    /// soon as it is complete.
    pub open spec fn wf(self) -> bool {
        self.backlog.len() == 0 || self.backlog.len() < segment_frame_count(self.config)
    }

    /// The batch that the submission of `frame` completes, if it completes
    /// one: the whole backlog with the new frame at its end.
    pub open spec fn submitted_batch(self, frame: Seq<u8>) -> Option<Seq<Seq<u8>>> {
        if self.backlog.len() + 1 >= segment_frame_count(self.config) {
            Some(self.backlog.push(frame))
        } else {
            None
        }
    }

    /// The state after the submission of `frame`.
    pub open spec fn submit(self, frame: Seq<u8>) -> VideoEncoderState {
        VideoEncoderState {
            backlog: if self.backlog.len() + 1 >= segment_frame_count(self.config) {
                Seq::empty()
            } else {
                self.backlog.push(frame)
            },
            frame_counter: (self.frame_counter + 1) as u32,
            batch_frames: if self.backlog.len() + 1 >= segment_frame_count(self.config) {
                (self.backlog.len() + 1) as u32
            } else {
                self.batch_frames
            },
            ..self
        }
    }

    /// The state after the backlog has been flushed: what it held is the
    /// batch that was handed out last.
    pub open spec fn flushed(self) -> VideoEncoderState {
        VideoEncoderState {
            backlog: Seq::empty(),
            batch_frames: if self.backlog.len() > 0 {
                self.backlog.len() as u32
            } else {
                self.batch_frames
            },
            ..self
        }
    }

    /// The state after the batch that was handed out last has been
    /// packaged as a segment.
    pub open spec fn packaged(self) -> VideoEncoderState {
        VideoEncoderState {
            next_sequence: (self.next_sequence + 1) as u32,
            batch_frames: 0,
            ..self
        }
    }

    /// The state after a packet that the codec released while draining
    /// has been packaged as a segment.
    pub open spec fn drained(self) -> VideoEncoderState {
        VideoEncoderState { next_sequence: (self.next_sequence + 1) as u32, ..self }
    }
}

/// Video segment encoder: batches raw frames into groups of two seconds
/// and packages what the codec returns for a group. The codec itself is
/// driven by the caller.
pub struct VideoEncoder {
    config: VideoEncodingConfig,
    sequence_counter: u32,
    frames_per_segment: u32,
    current_segment_frames: Vec<Vec<u8>>,
    frame_counter: u32,
    batch_frames: u32,
}

impl View for VideoEncoder {
    type V = VideoEncoderState;

    closed spec fn view(&self) -> VideoEncoderState {
        VideoEncoderState {
            config: self.config,
            next_sequence: self.sequence_counter,
            backlog: frame_views(self.current_segment_frames@),
            frame_counter: self.frame_counter,
            batch_frames: self.batch_frames,
        }
    }
}

impl VideoEncoder {
    /// The encoder knows its batch size, and its state is well formed.
    pub closed spec fn wf(&self) -> bool {
        &&& self.frames_per_segment == segment_frame_count(self.config)
        &&& self@.wf()
    }

    /// A consistent encoder holds a well-formed state.
    pub proof fn lemma_wf_state(&self)
        requires
            self.wf(),
        ensures
            self@.wf(),
    {
    }

    /// Create new video encoder.
    pub fn new(config: VideoEncodingConfig) -> (res: Self)
        ensures
            res.wf(),
            res@.wf(),
            res@ == (VideoEncoderState {
                config,
                next_sequence: 0,
                backlog: Seq::empty(),
                frame_counter: 0,
                batch_frames: 0,
            }),
    {
        let frames_per_segment = if config.frame_rate.0 > u32::MAX / 2 {
            u32::MAX
        } else {
            2 * config.frame_rate.0
        };
        let res = VideoEncoder {
            config,
            sequence_counter: 0,
            frames_per_segment,
            current_segment_frames: Vec::new(),
            frame_counter: 0,
            batch_frames: 0,
        };
        assert(res@.backlog =~= Seq::<Seq<u8>>::empty());
        res
    }

    /// Frames in the batch that was handed out last and has not been
    /// packaged yet.
    pub fn batch_frames(&self) -> (res: u32)
        ensures
            res == self@.batch_frames,
    {
        self.batch_frames
    }

    /// The configuration the encoder was made with.
    pub fn config(&self) -> (res: VideoEncodingConfig)
        ensures
            res == self@.config,
    {
        self.config
    }

    /// The sequence number that the next segment will get.
    pub fn next_sequence(&self) -> (res: u32)
        ensures
            res == self@.next_sequence,
    {
        self.sequence_counter
    }

    /// Frames submitted so far.
    pub fn frame_counter(&self) -> (res: u32)
        ensures
            res == self@.frame_counter,
    {
        self.frame_counter
    }

    /// Number of frames waiting in the backlog.
    pub fn backlog_len(&self) -> (res: usize)
        ensures
            res == self@.backlog.len(),
    {
        self.current_segment_frames.len()
    }

    /// Process a video frame: the frame joins the backlog, and once the
    /// backlog holds a segment's worth of frames it is handed out whole
    /// and is empty afterwards.
    pub fn process_frame(&mut self, rgba_frame: &[u8]) -> (batch: Option<Vec<Vec<u8>>>)
        requires
            old(self).wf(),
            old(self)@.frame_counter < u32::MAX,
        ensures
            final(self).wf(),
            final(self)@.wf(),
            batch is Some <==> old(self)@.submitted_batch(rgba_frame@) is Some,
            batch matches Some(frames) ==> Some(frame_views(frames@)) == old(self)@.submitted_batch(
                rgba_frame@,
            ),
            final(self)@ == old(self)@.submit(rgba_frame@),
    {
        let ghost before = self.current_segment_frames@;
        let frame = copy_slice(rgba_frame);
        self.current_segment_frames.push(frame);
        self.frame_counter = self.frame_counter + 1;
        assert(frame_views(self.current_segment_frames@) =~= frame_views(before).push(rgba_frame@));
        if self.current_segment_frames.len() >= self.frames_per_segment as usize {
            self.batch_frames = self.current_segment_frames.len() as u32;
            let mut frames: Vec<Vec<u8>> = Vec::new();
            std::mem::swap(&mut self.current_segment_frames, &mut frames);
            assert(frame_views(self.current_segment_frames@) =~= Seq::<Seq<u8>>::empty());
            return Some(frames);
        }
        None
    }

    /// Flush any remaining video frames: a partial backlog is handed out
    /// as the last, possibly shorter, batch.
    pub fn flush(&mut self) -> (batch: Option<Vec<Vec<u8>>>)
        requires
            old(self).wf(),
        ensures
            final(self).wf(),
            final(self)@.wf(),
            batch is Some <==> old(self)@.backlog.len() > 0,
            batch matches Some(frames) ==> frame_views(frames@) == old(self)@.backlog,
            final(self)@ == old(self)@.flushed(),
    {
        if self.current_segment_frames.len() == 0 {
            assert(frame_views(self.current_segment_frames@) =~= Seq::<Seq<u8>>::empty());
            return None;
        }
        self.batch_frames = self.current_segment_frames.len() as u32;
        let mut frames: Vec<Vec<u8>> = Vec::new();
        std::mem::swap(&mut self.current_segment_frames, &mut frames);
        assert(frame_views(self.current_segment_frames@) =~= Seq::<Seq<u8>>::empty());
        Some(frames)
    }

    /// Packages a segment from what the codec returned for each frame of
    /// the batch that was handed out last, stamped with the current
    /// wall-clock time.
    ///
    /// The segment is what [`VideoEncoder::encode_video_segment_at`]
    /// packages for the timestamp that the segment carries.
    pub fn encode_video_segment(&mut self, encoded_frames: &Vec<Vec<u8>>) -> (segment:
        EncodedVideoSegment)
        requires
            old(self).wf(),
            old(self)@.next_sequence < u32::MAX,
        ensures
            final(self).wf(),
            final(self)@.wf(),
            segment.data@ == concat_all(frame_views(encoded_frames@)),
            segment.sequence == old(self)@.next_sequence,
            segment.duration_ms == SEGMENT_DURATION_MS,
            segment.frame_count == old(self)@.batch_frames,
            segment.resolution == old(self)@.config.resolution,
            final(self)@ == old(self)@.packaged(),
    {
        let timestamp = unix_millis();
        self.encode_video_segment_at(encoded_frames, timestamp)
    }

    /// Packages a segment from what the codec returned for each frame of
    /// the batch that was handed out last: the payloads in order, the
    /// next sequence number, the nominal duration, the given creation
    /// time, and the number of frames that the batch held.
    pub fn encode_video_segment_at(
        &mut self,
        encoded_frames: &Vec<Vec<u8>>,
        timestamp: u64,
    ) -> (segment: EncodedVideoSegment)
        requires
            old(self).wf(),
            old(self)@.next_sequence < u32::MAX,
        ensures
            final(self).wf(),
            final(self)@.wf(),
            segment.data@ == concat_all(frame_views(encoded_frames@)),
            segment.sequence == old(self)@.next_sequence,
            segment.duration_ms == SEGMENT_DURATION_MS,
            segment.timestamp == timestamp,
            segment.frame_count == old(self)@.batch_frames,
            segment.resolution == old(self)@.config.resolution,
            final(self)@ == old(self)@.packaged(),
    {
        let mut data: Vec<u8> = Vec::new();
        let mut i: usize = 0;
        while i < encoded_frames.len()
            invariant
                i <= encoded_frames@.len(),
                data@ == concat_all(frame_views(encoded_frames@).take(i as int)),
            decreases encoded_frames@.len() - i,
        {
            push_bytes(&mut data, encoded_frames[i].as_slice());
            proof {
                let next = frame_views(encoded_frames@).take(i as int + 1);
                assert(next.drop_last() =~= frame_views(encoded_frames@).take(i as int));
                assert(next.last() == encoded_frames@[i as int]@);
            }
            i += 1;
        }
        assert(frame_views(encoded_frames@).take(encoded_frames@.len() as int) =~= frame_views(
            encoded_frames@,
        ));
        let segment = EncodedVideoSegment {
            data,
            sequence: self.sequence_counter,
            duration_ms: SEGMENT_DURATION_MS,
            timestamp,
            frame_count: self.batch_frames,
            resolution: self.config.resolution,
        };
        self.sequence_counter = self.sequence_counter + 1;
        self.batch_frames = 0;
        segment
    }

    /// Packages a packet that the codec released while draining at the end
    /// of the stream, stamped with the current wall-clock time.
    ///
    /// The segment is what [`VideoEncoder::trailing_segment_at`] packages
    /// for the timestamp that the segment carries.
    pub fn trailing_segment(&mut self, data: Vec<u8>) -> (segment: EncodedVideoSegment)
        requires
            old(self).wf(),
            old(self)@.next_sequence < u32::MAX,
        ensures
            final(self).wf(),
            final(self)@.wf(),
            segment.data@ == data@,
            segment.sequence == old(self)@.next_sequence,
            segment.duration_ms == SEGMENT_DURATION_MS,
            segment.frame_count == 0,
            segment.resolution == old(self)@.config.resolution,
            final(self)@ == old(self)@.drained(),
    {
        let timestamp = unix_millis();
        self.trailing_segment_at(data, timestamp)
    }

    /// Packages a packet that the codec released while draining at the end
    /// of the stream: a segment of no frames with the next sequence
    /// number and the given creation time.
    pub fn trailing_segment_at(&mut self, data: Vec<u8>, timestamp: u64) -> (segment:
        EncodedVideoSegment)
        requires
            old(self).wf(),
            old(self)@.next_sequence < u32::MAX,
        ensures
            final(self).wf(),
            final(self)@.wf(),
            segment.data@ == data@,
            segment.sequence == old(self)@.next_sequence,
            segment.duration_ms == SEGMENT_DURATION_MS,
            segment.timestamp == timestamp,
            segment.frame_count == 0,
            segment.resolution == old(self)@.config.resolution,
            final(self)@ == old(self)@.drained(),
    {
        let segment = EncodedVideoSegment {
            data,
            sequence: self.sequence_counter,
            duration_ms: SEGMENT_DURATION_MS,
            timestamp,
            frame_count: 0,
            resolution: self.config.resolution,
        };
        self.sequence_counter = self.sequence_counter + 1;
        segment
    }

    /// Prepares one picture of a batch for the codec. For planar 4:2:0 the
    /// picture is given as packed luma and chroma triples and is laid out
    /// in three planes; for the packed formats the bytes are handed on as
    /// one plane. The picture is stamped with the number of frames
    /// submitted so far.
    pub fn prepare_frame(&self, pixels: &[u8]) -> (res: CaptureResult<VideoFrame>)
        ensures
            res is Ok <==> (self@.config.pixel_format is YUV420P ==> 3 * (self@.config.resolution.0
                * self@.config.resolution.1) <= pixels@.len()),
            res matches Ok(frame) ==> {
                &&& frame.pixel_format == self@.config.pixel_format
                &&& frame.resolution == self@.config.resolution
                &&& frame.pts == self@.frame_counter
                &&& frame_views(frame.planes@) == if self@.config.pixel_format is YUV420P {
                    seq![
                        luma_plane(
                            pixels@,
                            self@.config.resolution.0 as nat,
                            self@.config.resolution.1 as nat,
                        ),
                        chroma_plane(
                            pixels@,
                            self@.config.resolution.0 as nat,
                            self@.config.resolution.1 as nat,
                            1,
                        ),
                        chroma_plane(
                            pixels@,
                            self@.config.resolution.0 as nat,
                            self@.config.resolution.1 as nat,
                            2,
                        ),
                    ]
                } else {
                    seq![pixels@]
                }
            },
            res matches Err(e) ==> e matches CaptureError::EncodingError(m) && m@
                == "Frame data is shorter than the resolution requires"@,
    {
        let mut planes: Vec<Vec<u8>> = Vec::new();
        match self.config.pixel_format {
            PixelFormat::YUV420P => {
                let width = self.config.resolution.0;
                let height = self.config.resolution.1;
                let yuv = match planar_yuv420p(pixels, width, height) {
                    Ok(yuv) => yuv,
                    Err(e) => {
                        return Err(e);
                    },
                };
                let ghost luma = luma_plane(pixels@, width as nat, height as nat);
                let ghost cb = chroma_plane(pixels@, width as nat, height as nat, 1);
                let ghost cr = chroma_plane(pixels@, width as nat, height as nat, 2);
                assert(yuv@.len() == luma.len() + cb.len() + cr.len());
                match yuv420p_planes(yuv.as_slice(), width, height) {
                    Ok((y, u, v)) => {
                        assert(y@ =~= luma);
                        assert(u@ =~= cb);
                        assert(v@ =~= cr);
                        planes.push(y);
                        planes.push(u);
                        planes.push(v);
                        assert(frame_views(planes@) =~= seq![luma, cb, cr]);
                    },
                    Err(e) => {
                        return Err(e);
                    },
                }
            },
            _ => {
                let packed = copy_slice(pixels);
                planes.push(packed);
                assert(frame_views(planes@) =~= seq![pixels@]);
            },
        }
        Ok(
            VideoFrame {
                planes,
                pixel_format: self.config.pixel_format,
                resolution: self.config.resolution,
                pts: self.frame_counter as i64,
            },
        )
    }
}

/// Create a video encoder with the default settings for screen recording:
/// H.264 at 2 Mbit/s, 30 fps, planar 4:2:0, hardware acceleration on.
pub fn create_screen_recording_encoder(resolution: (u32, u32)) -> (res: VideoEncoder)
    ensures
        res.wf(),
        res@ == (VideoEncoderState {
            config: VideoEncodingConfig {
                codec: VideoCodec::H264,
                bitrate: 2000000,
                frame_rate: (30, 1),
                resolution,
                pixel_format: PixelFormat::YUV420P,
                hardware_acceleration: true,
            },
            next_sequence: 0,
            backlog: Seq::empty(),
            frame_counter: 0,
            batch_frames: 0,
        }),
{
    let config = VideoEncodingConfig {
        codec: VideoCodec::H264,
        bitrate: 2000000,
        frame_rate: (30, 1),
        resolution,
        pixel_format: PixelFormat::YUV420P,
        hardware_acceleration: true,
    };
    VideoEncoder::new(config)
}

} // verus!
