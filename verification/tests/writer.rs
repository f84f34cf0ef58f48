use chuks_ffmpeg::media::{Failure, PacketStamp, PixelFormat, Rational, ScalePlan};
use chuks_ffmpeg::session::{chuks_ffmpeg_last_error, Session};
use chuks_ffmpeg::transcode::VideoEncoderConfig;
use chuks_ffmpeg::writer::{
    chuks_ffmpeg_venc_close, chuks_ffmpeg_venc_open, chuks_ffmpeg_venc_write, finish_venc_close,
    finish_venc_open, finish_venc_write, video_writer_write, FrameBytes, VideoWriter, WriterReply,
    WriterTask,
};

fn answer(w: &mut VideoWriter, task: WriterTask, reply: WriterReply) {
    assert_eq!(w.task, task);
    w.advance(reply);
}

fn open(width: u32, height: u32) -> VideoWriter {
    let mut w = VideoWriter::new(width, height, 24, 1);
    answer(&mut w, WriterTask::OpenOutput, WriterReply::Output(true));
    answer(&mut w, WriterTask::FindEncoder, WriterReply::Got(true));
    answer(&mut w, WriterTask::OpenEncoder, WriterReply::Encoder(Rational::new(1, 24)));
    answer(&mut w, WriterTask::AddStream, WriterReply::Stream(0));
    answer(&mut w, WriterTask::WriteHeader, WriterReply::Header(Rational::new(1, 12288)));
    answer(&mut w, WriterTask::OpenScaler, WriterReply::Done);
    assert_eq!(w.task, WriterTask::Ready);
    w
}

fn push(w: &mut VideoWriter) {
    let mut s = Session::new();
    let size = (w.width * w.height * 3) as i32;
    assert!(chuks_ffmpeg_venc_write(&mut s, Some(w), true, size, 0).is_ok());
}

fn message(s: &Session) -> String {
    chuks_ffmpeg_last_error(s).unwrap_or_default()
}

#[test]
fn writer_needs_a_path_and_a_size() {
    let mut s = Session::new();
    assert!(chuks_ffmpeg_venc_open(&mut s, None, 0, 0, 30, 1, None).is_none());
    assert_eq!(message(&s), "venc_open: null path");
    assert!(chuks_ffmpeg_venc_open(&mut s, Some(b"o.mp4"), 0, 360, 30, 1, None).is_none());
    assert_eq!(message(&s), "venc_open: width/height must be > 0");
    let mut s = Session::new();
    assert!(chuks_ffmpeg_venc_open(&mut s, Some(b"o.mp4"), 640, -1, 30, 1, None).is_none());
    assert_eq!(message(&s), "venc_open: width/height must be > 0");
}

#[test]
fn writer_defaults_to_h264_at_thirty_frames() {
    let mut s = Session::new();
    match chuks_ffmpeg_venc_open(&mut s, Some(b"o.mp4"), 640, 360, 0, 1, None) {
        Some(q) => {
            assert_eq!(q.path, "o.mp4");
            assert_eq!(q.family, "h264");
            assert_eq!(q.writer.rate, Rational::new(30, 1));
            assert_eq!(q.writer, VideoWriter::new(640, 360, 30, 1));
        }
        None => panic!("refused"),
    }
    match chuks_ffmpeg_venc_open(&mut s, Some(b"o.mp4"), 640, 360, 24000, 1001, Some(b"mjpeg")) {
        Some(q) => {
            assert_eq!(q.family, "mjpeg");
            assert_eq!(q.writer.rate, Rational::new(24000, 1001));
        }
        None => panic!("refused"),
    }
}

#[test]
fn missing_encoder_fails_the_opening() {
    let mut w = VideoWriter::new(2, 2, 30, 1);
    answer(&mut w, WriterTask::OpenOutput, WriterReply::Output(false));
    answer(&mut w, WriterTask::FindEncoder, WriterReply::Got(false));
    assert_eq!(w.task, WriterTask::Failed(Failure::EncoderNotFound));
}

#[test]
fn opening_reports_its_error() {
    let mut s = Session::new();
    assert_eq!(finish_venc_open(&mut s, Err("Encoder not found".to_string())), None);
    assert_eq!(message(&s), "venc_open: Encoder not found");
    let w = VideoWriter::new(2, 2, 30, 1);
    assert_eq!(finish_venc_open(&mut s, Ok(w)), Some(w));
}

#[test]
fn writer_configures_encoder_and_packets() {
    let w = open(640, 360);
    assert_eq!(
        w.encoder_config(),
        VideoEncoderConfig {
            width: 640,
            height: 360,
            pixel_format: PixelFormat::Yuv420p,
            time_base: Rational::new(1, 24),
            frame_rate: Rational::new(24, 1),
            global_header: true,
        }
    );
    assert_eq!(
        w.scale_plan(),
        ScalePlan {
            width: 640,
            height: 360,
            from: Some(PixelFormat::Rgb24),
            to: PixelFormat::Yuv420p,
        }
    );
    assert_eq!(
        w.packet_stamp(),
        PacketStamp {
            stream: 0,
            duration: Some(1),
            from: Rational::new(1, 24),
            to: Rational::new(1, 12288),
            forget_position: false,
        }
    );
}

#[test]
fn null_writer_or_data_is_refused() {
    let mut s = Session::new();
    assert_eq!(chuks_ffmpeg_venc_write(&mut s, None, true, 100, 0), Err(-1));
    assert_eq!(message(&s), "venc_write: null writer/data");
    let mut s = Session::new();
    let mut w = open(2, 2);
    assert_eq!(chuks_ffmpeg_venc_write(&mut s, Some(&mut w), false, 100, 0), Err(-1));
    assert_eq!(message(&s), "venc_write: null writer/data");
    assert_eq!(w.task, WriterTask::Ready);
}

#[test]
fn short_rows_are_refused() {
    let mut s = Session::new();
    let mut w = open(640, 360);
    assert_eq!(chuks_ffmpeg_venc_write(&mut s, Some(&mut w), true, i32::MAX, 1919), Err(-1));
    assert_eq!(message(&s), "venc_write: stride 1919 < width*3 1920");
}

#[test]
fn short_buffers_are_refused() {
    let mut s = Session::new();
    let mut w = open(4, 2);
    assert_eq!(chuks_ffmpeg_venc_write(&mut s, Some(&mut w), true, 23, 0), Err(-1));
    assert_eq!(message(&s), "venc_write: need 24 bytes for 4x2 RGB24 (stride 12), got 23");
    assert_eq!(chuks_ffmpeg_venc_write(&mut s, Some(&mut w), true, 24, 16), Err(-1));
    assert_eq!(message(&s), "venc_write: need 32 bytes for 4x2 RGB24 (stride 16), got 24");
    assert_eq!(chuks_ffmpeg_venc_write(&mut s, Some(&mut w), true, -1, -5), Err(-1));
    assert_eq!(message(&s), "venc_write: need 24 bytes for 4x2 RGB24 (stride 12), got -1");
}

#[test]
fn huge_frames_do_not_overflow_the_check() {
    let mut s = Session::new();
    let mut w = VideoWriter::new(i32::MAX as u32, i32::MAX as u32, 30, 1);
    assert_eq!(chuks_ffmpeg_venc_write(&mut s, Some(&mut w), true, i32::MAX, 0), Err(-1));
    assert_eq!(
        message(&s),
        format!(
            "venc_write: need {} bytes for 2147483647x2147483647 RGB24 (stride 6442450941), got 2147483647",
            6442450941u64 * 2147483647
        )
    );
}

#[test]
fn padded_and_packed_frames_are_accepted() {
    let mut s = Session::new();
    let mut w = open(4, 2);
    assert_eq!(
        chuks_ffmpeg_venc_write(&mut s, Some(&mut w), true, 40, 16),
        Ok(FrameBytes { row: 12, stride: 16, height: 2, len: 32 })
    );
    assert_eq!(w.task, WriterTask::Scale);
    let mut w = open(4, 2);
    assert_eq!(
        chuks_ffmpeg_venc_write(&mut s, Some(&mut w), true, 24, 0),
        Ok(FrameBytes { row: 12, stride: 12, height: 2, len: 24 })
    );
    assert_eq!(message(&s), "");
}

#[test]
fn rows_move_between_strides() {
    let frame = FrameBytes { row: 3, stride: 4, height: 2, len: 8 };
    let data: Vec<u8> = vec![1, 2, 3, 99, 4, 5, 6, 99];
    let mut dst: Vec<u8> = vec![0; 10];
    video_writer_write(&mut dst, 5, &data, frame);
    assert_eq!(dst, [1, 2, 3, 0, 0, 4, 5, 6, 0, 0]);
}

#[test]
fn last_row_needs_no_padding() {
    let frame = FrameBytes { row: 3, stride: 4, height: 2, len: 8 };
    let data: Vec<u8> = vec![1, 2, 3, 99, 4, 5, 6];
    let mut dst: Vec<u8> = vec![7; 8];
    video_writer_write(&mut dst, 5, &data, frame);
    assert_eq!(dst, [1, 2, 3, 7, 7, 4, 5, 6]);
}

#[test]
fn overlapping_rows_keep_the_later_one() {
    let frame = FrameBytes { row: 3, stride: 3, height: 2, len: 6 };
    let data: Vec<u8> = vec![1, 2, 3, 4, 5, 6];
    let mut dst: Vec<u8> = vec![0; 5];
    video_writer_write(&mut dst, 2, &data, frame);
    assert_eq!(dst, [1, 2, 4, 5, 6]);
}

#[test]
fn written_frames_are_numbered() {
    let mut w = open(2, 2);
    push(&mut w);
    answer(&mut w, WriterTask::Scale, WriterReply::Done);
    answer(&mut w, WriterTask::EncodeFrame(0), WriterReply::Done);
    answer(&mut w, WriterTask::Receive, WriterReply::Got(false));
    assert_eq!(w.task, WriterTask::Ready);
    push(&mut w);
    answer(&mut w, WriterTask::Scale, WriterReply::Done);
    answer(&mut w, WriterTask::EncodeFrame(1), WriterReply::Done);
    answer(&mut w, WriterTask::Receive, WriterReply::Got(true));
    answer(&mut w, WriterTask::WritePacket, WriterReply::Done);
    answer(&mut w, WriterTask::Receive, WriterReply::Got(false));
    assert_eq!(w.count, 2);
    let mut s = Session::new();
    let mut w = match chuks_ffmpeg_venc_close(&mut s, Some(w)) {
        Ok(w) => w,
        Err(_) => panic!("refused"),
    };
    answer(&mut w, WriterTask::SendEof, WriterReply::Done);
    answer(&mut w, WriterTask::Receive, WriterReply::Got(true));
    answer(&mut w, WriterTask::WritePacket, WriterReply::Done);
    answer(&mut w, WriterTask::Receive, WriterReply::Got(false));
    answer(&mut w, WriterTask::WriteTrailer, WriterReply::Done);
    assert_eq!(w.task, WriterTask::Closed(2));
}

#[test]
fn failed_scaling_uses_up_no_number() {
    let mut w = open(2, 2);
    push(&mut w);
    answer(&mut w, WriterTask::Scale, WriterReply::Failed);
    assert_eq!(w.task, WriterTask::Failed(Failure::Engine));
    assert_eq!(w.count, 0);
    push(&mut w);
    answer(&mut w, WriterTask::Scale, WriterReply::Done);
    assert_eq!(w.task, WriterTask::EncodeFrame(0));
}

fn close(w: VideoWriter) -> VideoWriter {
    let mut s = Session::new();
    let mut w = match chuks_ffmpeg_venc_close(&mut s, Some(w)) {
        Ok(w) => w,
        Err(_) => panic!("refused"),
    };
    answer(&mut w, WriterTask::SendEof, WriterReply::Done);
    answer(&mut w, WriterTask::Receive, WriterReply::Got(false));
    answer(&mut w, WriterTask::WriteTrailer, WriterReply::Done);
    w
}

#[test]
fn refused_frame_uses_up_its_number_and_is_not_counted() {
    let mut w = open(2, 2);
    push(&mut w);
    answer(&mut w, WriterTask::Scale, WriterReply::Done);
    answer(&mut w, WriterTask::EncodeFrame(0), WriterReply::Failed);
    assert_eq!(w.task, WriterTask::Failed(Failure::Engine));
    assert_eq!(w.count, 0);
    push(&mut w);
    answer(&mut w, WriterTask::Scale, WriterReply::Done);
    answer(&mut w, WriterTask::EncodeFrame(1), WriterReply::Done);
    assert_eq!(w.count, 0);
    answer(&mut w, WriterTask::Receive, WriterReply::Got(false));
    assert_eq!(w.count, 1);
    assert_eq!(close(w).task, WriterTask::Closed(1));
}

#[test]
fn frame_whose_packet_is_refused_is_not_counted() {
    let mut w = open(2, 2);
    push(&mut w);
    answer(&mut w, WriterTask::Scale, WriterReply::Done);
    answer(&mut w, WriterTask::EncodeFrame(0), WriterReply::Done);
    answer(&mut w, WriterTask::Receive, WriterReply::Got(true));
    answer(&mut w, WriterTask::WritePacket, WriterReply::Failed);
    assert_eq!(w.task, WriterTask::Failed(Failure::Engine));
    assert_eq!(close(w).task, WriterTask::Closed(0));
}

#[test]
fn answer_out_of_turn_ends_the_call() {
    let mut w = open(2, 2);
    push(&mut w);
    answer(&mut w, WriterTask::Scale, WriterReply::Got(true));
    assert_eq!(w.task, WriterTask::Failed(Failure::Protocol));
}

#[test]
fn write_and_close_report_their_outcome() {
    let mut s = Session::new();
    assert_eq!(finish_venc_write(&mut s, Ok(())), 0);
    assert_eq!(finish_venc_close(&mut s, Ok(90)), 90);
    assert_eq!(message(&s), "");
    assert_eq!(finish_venc_write(&mut s, Err("Invalid argument".to_string())), -1);
    assert_eq!(message(&s), "venc_write: Invalid argument");
    assert_eq!(finish_venc_close(&mut s, Err("Input/output error".to_string())), -1);
    assert_eq!(message(&s), "venc_close: Input/output error");
    assert_eq!(chuks_ffmpeg_venc_close(&mut s, None), Err(-1));
    assert_eq!(message(&s), "venc_close: null writer");
}
