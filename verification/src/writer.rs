//! The frame encoder: frames that the caller renders as packed RGB become an
//! encoded video file.
//!
//! A [`VideoWriter`] decides what each call does next. The caller performs
//! the task that it names and answers it, until the call ends.
use crate::encoder::{resolve_video_encoder, EncoderSearch};
use crate::media::{
    frame_rate_or_default, Failure, PacketStamp, PixelFormat, Rational, ScalePlan,
};
use crate::session::{set_err, set_op_err, Session};
use crate::text::{cstr, push_decimal, push_signed};
use crate::transcode::{video_encoder_config, VideoEncoderConfig};
use vstd::prelude::*;

verus! {

/// The work that a call waits for.
#[derive(Clone, Copy, Debug, PartialEq, Eq, Structural)]
pub enum WriterTask {
    /// Open the output file.
    OpenOutput,
    /// Resolve the encoder family to an encoder that is built in.
    FindEncoder,
    /// Open the encoder, as [`VideoWriter::encoder_config`] says.
    OpenEncoder,
    /// Add the video stream to the output.
    AddStream,
    /// Write the header of the output.
    WriteHeader,
    /// Make a scaler, as [`VideoWriter::scale_plan`] says.
    OpenScaler,
    /// Scale the frame.
    Scale,
    /// Send the scaled frame to the encoder, with this timestamp.
    EncodeFrame(i64),
    /// Tell the encoder that there are no more frames.
    SendEof,
    /// Ask the encoder for a packet.
    Receive,
    /// Write the packet of the encoder.
    WritePacket,
    /// Write the trailer of the output.
    WriteTrailer,
    /// The call is over, and the writer takes frames.
    Ready,
    /// The file is complete; so many frames were written.
    Closed(i64),
    /// The call is over, in an error.
    Failed(Failure),
}

/// The answer to a [`WriterTask`].
#[derive(Clone, Copy, Debug, PartialEq, Eq, Structural)]
pub enum WriterReply {
    /// It was done.
    Done,
    /// The call failed.
    Failed,
    /// The output is open; whether its format wants global headers.
    Output(bool),
    /// Whether there was something: an encoder, a packet.
    Got(bool),
    /// The encoder is open, with this time base.
    Encoder(Rational),
    /// The number of the stream that was added.
    Stream(usize),
    /// The header is written; the time base of the stream.
    Header(Rational),
}

/// Writes the video of one file.
#[derive(Clone, Copy, Debug, PartialEq, Eq, Structural)]
pub struct VideoWriter {
    pub task: WriterTask,
    pub width: u32,
    pub height: u32,
    /// The frame rate of the output.
    pub rate: Rational,
    pub global_header: bool,
    pub ost_index: usize,
    pub ost_tb: Rational,
    pub enc_tb: Rational,
    /// The timestamp of the next frame.
    pub pts: i64,
    /// How many frames were written: those whose call succeeded.
    pub count: i64,
    /// The encoder has been told of the end.
    pub closing: bool,
}

impl VideoWriter {
    /// A writer that is not open yet.
    pub open spec fn fresh(width: u32, height: u32, fps: Rational) -> VideoWriter {
        VideoWriter {
            task: WriterTask::OpenOutput,
            width,
            height,
            rate: fps.usable_rate(),
            global_header: false,
            ost_index: 0,
            ost_tb: Rational { num: 1, den: 1 },
            enc_tb: Rational { num: 1, den: 1 },
            pts: 0,
            count: 0,
            closing: false,
        }
    }

    /// Whether the size of the frames is one that a writer accepts.
    pub open spec fn wf(self) -> bool {
        0 < self.width <= i32::MAX && 0 < self.height <= i32::MAX
    }

    /// Whether another frame can be counted.
    pub open spec fn has_room(self) -> bool {
        self.pts < i64::MAX && self.count < i64::MAX
    }

    /// The same writer, with another task.
    pub open spec fn at(self, task: WriterTask) -> VideoWriter {
        VideoWriter { task, ..self }
    }

    /// The end of a call whose task was answered with `reply` to no avail.
    pub open spec fn broken(self, reply: WriterReply) -> VideoWriter {
        self.at(
            WriterTask::Failed(
                if reply is Failed {
                    Failure::Engine
                } else {
                    Failure::Protocol
                },
            ),
        )
    }

    /// What follows a task that either succeeds, and then leads to `next`, or
    /// fails.
    pub open spec fn either(self, reply: WriterReply, next: VideoWriter) -> VideoWriter {
        if reply is Done {
            next
        } else {
            self.broken(reply)
        }
    }

    /// The writer after its task was answered with `reply`.
    ///
    /// The timestamp of a frame is used up before the encoder is asked to take
    /// it. The frame is counted once the encoder has taken it and every packet
    /// that came of it is written.
    pub open spec fn after(self, reply: WriterReply) -> VideoWriter {
        match self.task {
            WriterTask::OpenOutput => match reply {
                WriterReply::Output(global_header) => VideoWriter {
                    global_header,
                    ..self
                }.at(WriterTask::FindEncoder),
                _ => self.broken(reply),
            },
            WriterTask::FindEncoder => match reply {
                WriterReply::Got(true) => self.at(WriterTask::OpenEncoder),
                WriterReply::Got(false) => self.at(WriterTask::Failed(Failure::EncoderNotFound)),
                _ => self.broken(reply),
            },
            WriterTask::OpenEncoder => match reply {
                WriterReply::Encoder(enc_tb) => VideoWriter { enc_tb, ..self }.at(
                    WriterTask::AddStream,
                ),
                _ => self.broken(reply),
            },
            WriterTask::AddStream => match reply {
                WriterReply::Stream(ost_index) => VideoWriter { ost_index, ..self }.at(
                    WriterTask::WriteHeader,
                ),
                _ => self.broken(reply),
            },
            WriterTask::WriteHeader => match reply {
                WriterReply::Header(ost_tb) => VideoWriter { ost_tb, ..self }.at(
                    WriterTask::OpenScaler,
                ),
                _ => self.broken(reply),
            },
            WriterTask::OpenScaler => self.either(reply, self.at(WriterTask::Ready)),
            WriterTask::Scale => self.either(
                reply,
                VideoWriter { pts: (self.pts + 1) as i64, ..self }.at(
                    WriterTask::EncodeFrame(self.pts),
                ),
            ),
            WriterTask::EncodeFrame(_) => self.either(reply, self.at(WriterTask::Receive)),
            WriterTask::SendEof => self.either(
                reply,
                VideoWriter { closing: true, ..self }.at(WriterTask::Receive),
            ),
            WriterTask::Receive => match reply {
                WriterReply::Got(true) => self.at(WriterTask::WritePacket),
                WriterReply::Got(false) => if self.closing {
                    self.at(WriterTask::WriteTrailer)
                } else {
                    VideoWriter { count: (self.count + 1) as i64, ..self }.at(WriterTask::Ready)
                },
                _ => self.broken(reply),
            },
            WriterTask::WritePacket => self.either(reply, self.at(WriterTask::Receive)),
            WriterTask::WriteTrailer => self.either(
                reply,
                self.at(WriterTask::Closed(self.count)),
            ),
            WriterTask::Ready => self,
            WriterTask::Closed(_) => self,
            WriterTask::Failed(_) => self,
        }
    }

    /// A writer that is not open yet, for frames of that size. A frame rate
    /// that is not positive is taken for thirty frames a second.
    pub fn new(width: u32, height: u32, fps_num: i32, fps_den: i32) -> (w: VideoWriter)
        ensures
            w == VideoWriter::fresh(width, height, Rational { num: fps_num, den: fps_den }),
    {
        VideoWriter {
            task: WriterTask::OpenOutput,
            width,
            height,
            rate: frame_rate_or_default(Rational::new(fps_num, fps_den)),
            global_header: false,
            ost_index: 0,
            ost_tb: Rational::new(1, 1),
            enc_tb: Rational::new(1, 1),
            pts: 0,
            count: 0,
            closing: false,
        }
    }

    /// The configuration of the encoder: it is fed planar YUV, and one tick of
    /// its time base is one frame.
    pub fn encoder_config(&self) -> (c: VideoEncoderConfig)
        ensures
            c == (VideoEncoderConfig {
                width: self.width,
                height: self.height,
                pixel_format: PixelFormat::Yuv420p,
                time_base: self.rate.inverse(),
                frame_rate: self.rate,
                global_header: self.global_header,
            }),
    {
        video_encoder_config(self.width, self.height, self.rate, self.global_header)
    }

    /// How a frame of the caller becomes one for the encoder.
    pub fn scale_plan(&self) -> (p: ScalePlan)
        ensures
            p == (ScalePlan {
                width: self.width,
                height: self.height,
                from: Some(PixelFormat::Rgb24),
                to: PixelFormat::Yuv420p,
            }),
    {
        ScalePlan {
            width: self.width,
            height: self.height,
            from: Some(PixelFormat::Rgb24),
            to: PixelFormat::Yuv420p,
        }
    }

    /// How a packet of the encoder is written: one frame long.
    pub fn packet_stamp(&self) -> (s: PacketStamp)
        ensures
            s == (PacketStamp {
                stream: self.ost_index,
                duration: Some(1i64),
                from: self.enc_tb,
                to: self.ost_tb,
                forget_position: false,
            }),
    {
        PacketStamp {
            stream: self.ost_index,
            duration: Some(1),
            from: self.enc_tb,
            to: self.ost_tb,
            forget_position: false,
        }
    }

    fn to(self, task: WriterTask) -> (next: VideoWriter)
        ensures
            next == self.at(task),
    {
        VideoWriter { task, ..self }
    }

    fn fail(self, reply: WriterReply) -> (next: VideoWriter)
        ensures
            next == self.broken(reply),
    {
        match reply {
            WriterReply::Failed => self.to(WriterTask::Failed(Failure::Engine)),
            _ => self.to(WriterTask::Failed(Failure::Protocol)),
        }
    }

    fn settle(self, reply: WriterReply, next: VideoWriter) -> (r: VideoWriter)
        ensures
            r == self.either(reply, next),
    {
        match reply {
            WriterReply::Done => next,
            _ => self.fail(reply),
        }
    }

    /// Takes the answer to the pending task and decides on the next one. An
    /// answer that does not belong to the task ends the call.
    pub fn advance(&mut self, reply: WriterReply)
        requires
            old(self).has_room(),
        ensures
            *final(self) == old(self).after(reply),
    {
        let w: VideoWriter = *self;
        *self = match w.task {
            WriterTask::OpenOutput => match reply {
                WriterReply::Output(global_header) => {
                    VideoWriter { global_header, ..w }.to(WriterTask::FindEncoder)
                },
                _ => w.fail(reply),
            },
            WriterTask::FindEncoder => match reply {
                WriterReply::Got(true) => w.to(WriterTask::OpenEncoder),
                WriterReply::Got(false) => w.to(WriterTask::Failed(Failure::EncoderNotFound)),
                _ => w.fail(reply),
            },
            WriterTask::OpenEncoder => match reply {
                WriterReply::Encoder(enc_tb) => {
                    VideoWriter { enc_tb, ..w }.to(WriterTask::AddStream)
                },
                _ => w.fail(reply),
            },
            WriterTask::AddStream => match reply {
                WriterReply::Stream(ost_index) => {
                    VideoWriter { ost_index, ..w }.to(WriterTask::WriteHeader)
                },
                _ => w.fail(reply),
            },
            WriterTask::WriteHeader => match reply {
                WriterReply::Header(ost_tb) => {
                    VideoWriter { ost_tb, ..w }.to(WriterTask::OpenScaler)
                },
                _ => w.fail(reply),
            },
            WriterTask::OpenScaler => w.settle(reply, w.to(WriterTask::Ready)),
            WriterTask::Scale => {
                let pts: i64 = w.pts + 1;
                w.settle(reply, VideoWriter { pts, ..w }.to(WriterTask::EncodeFrame(w.pts)))
            },
            WriterTask::EncodeFrame(_) => w.settle(reply, w.to(WriterTask::Receive)),
            WriterTask::SendEof => {
                w.settle(reply, VideoWriter { closing: true, ..w }.to(WriterTask::Receive))
            },
            WriterTask::Receive => match reply {
                WriterReply::Got(true) => w.to(WriterTask::WritePacket),
                WriterReply::Got(false) => {
                    if w.closing {
                        w.to(WriterTask::WriteTrailer)
                    } else {
                        let count: i64 = w.count + 1;
                        VideoWriter { count, ..w }.to(WriterTask::Ready)
                    }
                },
                _ => w.fail(reply),
            },
            WriterTask::WritePacket => w.settle(reply, w.to(WriterTask::Receive)),
            WriterTask::WriteTrailer => w.settle(reply, w.to(WriterTask::Closed(w.count))),
            WriterTask::Ready => w,
            WriterTask::Closed(_) => w,
            WriterTask::Failed(_) => w,
        };
    }
}

/// What an accepted request to open a writer asks for.
pub struct WriterRequest {
    pub path: String,
    /// The encoder family.
    pub family: String,
    pub writer: VideoWriter,
}

impl WriterRequest {
    /// The search for the encoder. It leaves the encoder that the last
    /// transcoding job used as it is remembered.
    pub fn encoder_search(&self) -> (search: EncoderSearch)
        ensures
            search@ == crate::encoder::EncoderSearchView::begun(self.family@, false),
            search@.wf(),
    {
        resolve_video_encoder(self.family.as_str(), false)
    }
}

/// The family of encoders that an argument names, `h264` where it is absent.
pub open spec fn family_of(encoder: Option<Seq<char>>) -> Seq<char> {
    match encoder {
        Some(f) => f,
        None => "h264"@,
    }
}

/// Asks for a writer of the file `path`, for frames of that size and rate.
/// The request is refused without a path, and for a size that is not
/// positive.
pub fn chuks_ffmpeg_venc_open(
    session: &mut Session,
    path: Option<&[u8]>,
    width: i32,
    height: i32,
    fps_num: i32,
    fps_den: i32,
    encoder: Option<&[u8]>,
) -> (r: Option<WriterRequest>)
    ensures
        crate::text::arg(path) is None ==> r is None && final(session)@ == old(session)@.failed_with("venc_open: null path"@),
        crate::text::arg(path) is Some && (width <= 0 || height <= 0) ==> r is None && final(session)@ == old(session)@.failed_with("venc_open: width/height must be > 0"@),
        crate::text::arg(path) is Some && width > 0 && height > 0 ==> {
            &&& final(session)@ == old(session)@
            &&& r matches Some(q)
            &&& q.path@ == crate::text::arg(path)->0
            &&& q.family@ == family_of(crate::text::arg(encoder))
            &&& q.writer == VideoWriter::fresh(
                width as u32,
                height as u32,
                Rational { num: fps_num, den: fps_den },
            )
            &&& q.writer.wf()
        },
{
    let path: String = match cstr(path) {
        Some(s) => s,
        None => {
            set_err(session, "venc_open: null path");
            return None;
        },
    };
    let family: String = match cstr(encoder) {
        Some(s) => s,
        None => "h264".to_string(),
    };
    if width <= 0 || height <= 0 {
        set_err(session, "venc_open: width/height must be > 0");
        return None;
    }
    let writer: VideoWriter = VideoWriter::new(width as u32, height as u32, fps_num, fps_den);
    Some(WriterRequest { path, family, writer })
}

/// The outcome of opening a writer: the writer, or nothing and the error
/// remembered.
pub fn finish_venc_open(session: &mut Session, outcome: Result<VideoWriter, String>) -> (r: Option<
    VideoWriter,
>)
    ensures
        outcome matches Ok(writer) ==> r == Some(writer) && final(session)@ == old(session)@,
        outcome matches Err(e) ==> r is None && final(session)@ == old(session)@.failed_with(
            crate::session::prefixed("venc_open"@, e@),
        ),
{
    match outcome {
        Ok(writer) => Some(writer),
        Err(e) => {
            set_op_err(session, "venc_open", e.as_str());
            None
        },
    }
}

/// The bytes of one row of pixels.
pub open spec fn row_bytes(width: u32) -> nat {
    (width * 3) as nat
}

/// The bytes from one row of a frame to the next: as given, or packed.
pub open spec fn input_stride(width: u32, stride: i32) -> nat {
    if stride <= 0 {
        row_bytes(width)
    } else {
        stride as nat
    }
}

/// The message on rows that are too short.
pub open spec fn short_stride(stride: nat, row: nat) -> Seq<char> {
    "venc_write: stride "@ + crate::text::decimal(stride) + " < width*3 "@ + crate::text::decimal(
        row,
    )
}

/// The message on a buffer that is too short.
pub open spec fn short_buffer(
    need: nat,
    width: u32,
    height: u32,
    stride: nat,
    byte_len: i32,
) -> Seq<char> {
    "venc_write: need "@ + crate::text::decimal(need) + " bytes for "@ + crate::text::decimal(
        width as nat,
    ) + "x"@ + crate::text::decimal(height as nat) + " RGB24 (stride "@ + crate::text::decimal(
        stride,
    ) + "), got "@ + crate::text::signed_decimal(byte_len as int)
}

/// How the bytes of an accepted frame lie.
#[derive(Clone, Copy, Debug, PartialEq, Eq, Structural)]
pub struct FrameBytes {
    /// The bytes of one row of pixels.
    pub row: usize,
    /// The bytes from one row to the next.
    pub stride: usize,
    pub height: usize,
    /// The bytes of the whole frame.
    pub len: usize,
}

/// Why a frame is refused, where it is.
pub open spec fn refusal(
    width: u32,
    height: u32,
    has_data: bool,
    byte_len: i32,
    stride: i32,
) -> Option<Seq<char>> {
    let step = input_stride(width, stride);
    let need = step * height as nat;
    if !has_data {
        Some("venc_write: null writer/data"@)
    } else if step < row_bytes(width) {
        Some(short_stride(step, row_bytes(width)))
    } else if byte_len < need {
        Some(short_buffer(need, width, height, step, byte_len))
    } else {
        None
    }
}

fn short_stride_message(stride: u64, row: u64) -> (s: String)
    ensures
        s@ == short_stride(stride as nat, row as nat),
{
    let mut s: String = "venc_write: stride ".to_string();
    push_decimal(&mut s, stride);
    s.append(" < width*3 ");
    push_decimal(&mut s, row);
    s
}

fn short_buffer_message(need: u64, width: u32, height: u32, stride: u64, byte_len: i32) -> (s:
    String)
    ensures
        s@ == short_buffer(need as nat, width, height, stride as nat, byte_len),
{
    let mut s: String = "venc_write: need ".to_string();
    push_decimal(&mut s, need);
    s.append(" bytes for ");
    push_decimal(&mut s, width as u64);
    s.append("x");
    push_decimal(&mut s, height as u64);
    s.append(" RGB24 (stride ");
    push_decimal(&mut s, stride);
    s.append("), got ");
    push_signed(&mut s, byte_len as i64);
    s
}

/// Begins a call that writes one frame, of `byte_len` bytes in rows of
/// `stride` bytes, packed where that is not positive. The call is over, with
/// the code `-1`, without a writer or data, where a row of pixels does not
/// fit the stride, and where the bytes do not cover all rows.
pub fn chuks_ffmpeg_venc_write(
    session: &mut Session,
    writer: Option<&mut VideoWriter>,
    has_data: bool,
    byte_len: i32,
    stride: i32,
) -> (r: Result<FrameBytes, i32>)
    requires
        writer matches Some(w) ==> w.wf(),
    ensures
        writer is None ==> {
            &&& r == Err::<FrameBytes, i32>(-1i32)
            &&& final(session)@ == old(session)@.failed_with("venc_write: null writer/data"@)
        },
        writer is Some ==> {
            let w = *old(writer->0);
            match refusal(w.width, w.height, has_data, byte_len, stride) {
                Some(message) => {
                    &&& r == Err::<FrameBytes, i32>(-1i32)
                    &&& final(session)@ == old(session)@.failed_with(message)
                    &&& *final(writer->0) == w
                },
                None => {
                    &&& final(session)@ == old(session)@
                    &&& *final(writer->0) == w.at(WriterTask::Scale)
                    &&& r matches Ok(f)
                    &&& f.row == row_bytes(w.width)
                    &&& f.stride == input_stride(w.width, stride)
                    &&& f.height == w.height
                    &&& f.len == f.stride * f.height
                    &&& f.len <= byte_len
                },
            }
        },
{
    let w: &mut VideoWriter = match writer {
        Some(w) => w,
        None => {
            set_err(session, "venc_write: null writer/data");
            return Err(-1);
        },
    };
    if !has_data {
        set_err(session, "venc_write: null writer/data");
        return Err(-1);
    }
    let row: u64 = w.width as u64 * 3;
    let in_stride: u64 = if stride <= 0 {
        row
    } else {
        stride as u64
    };
    if in_stride < row {
        let message: String = short_stride_message(in_stride, row);
        set_err(session, message.as_str());
        return Err(-1);
    }
    assert(in_stride * w.height <= 6442450941 * 2147483647) by (nonlinear_arith)
        requires
            in_stride <= 6442450941,
            w.height <= 2147483647,
    ;
    let need: u64 = in_stride * w.height as u64;
    if (byte_len as i64) < 0 || (byte_len as u64) < need {
        let message: String = short_buffer_message(need, w.width, w.height, in_stride, byte_len);
        set_err(session, message.as_str());
        return Err(-1);
    }
    assert(in_stride <= need) by (nonlinear_arith)
        requires
            need == in_stride * w.height,
            w.height >= 1,
    ;
    assert(w.height <= need) by (nonlinear_arith)
        requires
            need == in_stride * w.height,
            in_stride >= 1,
    ;
    w.task = WriterTask::Scale;
    Ok(
        FrameBytes {
            row: row as usize,
            stride: in_stride as usize,
            height: w.height as usize,
            len: need as usize,
        },
    )
}

/// What a call that wrote a frame reports: `0`, or `-1` for an error, which
/// is remembered.
pub fn finish_venc_write(session: &mut Session, outcome: Result<(), String>) -> (code: i32)
    ensures
        outcome is Ok ==> code == 0 && final(session)@ == old(session)@,
        outcome matches Err(e) ==> code == -1 && final(session)@ == old(session)@.failed_with(
            crate::session::prefixed("venc_write"@, e@),
        ),
{
    match outcome {
        Ok(()) => 0,
        Err(e) => {
            set_op_err(session, "venc_write", e.as_str());
            -1
        },
    }
}

/// Begins the call that closes a writer; without one it is over, with the
/// code `-1`.
pub fn chuks_ffmpeg_venc_close(session: &mut Session, writer: Option<VideoWriter>) -> (r: Result<
    VideoWriter,
    i64,
>)
    ensures
        writer is None ==> r == Err::<VideoWriter, i64>(-1i64) && final(session)@ == old(session)@.failed_with("venc_close: null writer"@),
        writer matches Some(w) ==> r == Ok::<VideoWriter, i64>(w.at(WriterTask::SendEof))
            && final(session)@ == old(session)@,
{
    match writer {
        Some(w) => Ok(w.to(WriterTask::SendEof)),
        None => {
            set_err(session, "venc_close: null writer");
            Err(-1)
        },
    }
}

/// What the call that closed a writer reports: how many frames were written,
/// or `-1` for an error, which is remembered.
pub fn finish_venc_close(session: &mut Session, outcome: Result<i64, String>) -> (n: i64)
    ensures
        outcome matches Ok(count) ==> n == count && final(session)@ == old(session)@,
        outcome matches Err(e) ==> n == -1 && final(session)@ == old(session)@.failed_with(
            crate::session::prefixed("venc_close"@, e@),
        ),
{
    match outcome {
        Ok(count) => count,
        Err(e) => {
            set_op_err(session, "venc_close", e.as_str());
            -1
        },
    }
}

/// `dst` with `src` written over it from position `at` on.
pub open spec fn overlay(dst: Seq<u8>, at: int, src: Seq<u8>) -> Seq<u8> {
    Seq::new(
        dst.len(),
        |i: int|
            if at <= i < at + src.len() {
                src[i - at]
            } else {
                dst[i]
            },
    )
}

/// `dst` after the first `rows` rows of `data` were copied into it, each of
/// `row` bytes, from one stride to another.
pub open spec fn copied(
    dst: Seq<u8>,
    dst_stride: nat,
    data: Seq<u8>,
    stride: nat,
    row: nat,
    rows: nat,
) -> Seq<u8>
    decreases rows,
{
    if rows == 0 {
        dst
    } else {
        let y = (rows - 1) as nat;
        overlay(
            copied(dst, dst_stride, data, stride, row, y),
            (y * dst_stride) as int,
            data.subrange((y * stride) as int, (y * stride + row) as int),
        )
    }
}

/// Whether so many rows of that length and stride lie within `len` bytes.
pub open spec fn rows_fit(len: nat, stride: nat, row: nat, rows: nat) -> bool {
    rows > 0 ==> (rows - 1) * stride + row <= len
}

proof fn lemma_row_fits(len: nat, stride: nat, row: nat, rows: nat, y: nat)
    requires
        rows_fit(len, stride, row, rows),
        y < rows,
    ensures
        y * stride + row <= len,
{
    assert(y * stride <= (rows - 1) * stride) by (nonlinear_arith)
        requires
            y <= rows - 1,
    ;
}

/// Copies a frame of packed RGB, row by row, into a buffer whose rows may lie
/// further apart than those of the frame.
pub fn video_writer_write(dst: &mut [u8], dst_stride: usize, data: &[u8], frame: FrameBytes)
    requires
        rows_fit(old(dst)@.len(), dst_stride as nat, frame.row as nat, frame.height as nat),
        rows_fit(data@.len(), frame.stride as nat, frame.row as nat, frame.height as nat),
    ensures
        final(dst)@ == copied(
            old(dst)@,
            dst_stride as nat,
            data@,
            frame.stride as nat,
            frame.row as nat,
            frame.height as nat,
        ),
{
    let row: usize = frame.row;
    let mut y: usize = 0;
    while y < frame.height
        invariant
            y <= frame.height,
            row == frame.row,
            dst@.len() == old(dst)@.len(),
            rows_fit(old(dst)@.len(), dst_stride as nat, row as nat, frame.height as nat),
            rows_fit(data@.len(), frame.stride as nat, row as nat, frame.height as nat),
            dst@ == copied(
                old(dst)@,
                dst_stride as nat,
                data@,
                frame.stride as nat,
                row as nat,
                y as nat,
            ),
        decreases frame.height - y,
    {
        proof {
            lemma_row_fits(
                dst@.len(),
                dst_stride as nat,
                row as nat,
                frame.height as nat,
                y as nat,
            );
            lemma_row_fits(
                data@.len(),
                frame.stride as nat,
                row as nat,
                frame.height as nat,
                y as nat,
            );
            assert(dst.len() == dst@.len() && data.len() == data@.len());
            assert(y * dst_stride >= 0 && y * frame.stride >= 0) by (nonlinear_arith);
        }
        let to: usize = y * dst_stride;
        let from: usize = y * frame.stride;
        let ghost before = dst@;
        let mut x: usize = 0;
        while x < row
            invariant
                x <= row,
                to + row <= dst@.len() <= usize::MAX,
                from + row <= data@.len() <= usize::MAX,
                dst@ == overlay(before, to as int, data@.subrange(from as int, from + x)),
                dst@.len() == before.len(),
            decreases row - x,
        {
            dst[to + x] = data[from + x];
            assert(dst@ =~= overlay(before, to as int, data@.subrange(from as int, from + x + 1)));
            x += 1;
        }
        y += 1;
    }
}

} // verus!
