use chuks_ffmpeg::media::{Failure, PixelFormat, Rational, ScalePlan, VideoPick};
use chuks_ffmpeg::reader::{
    chuks_ffmpeg_video_duration, chuks_ffmpeg_video_height, chuks_ffmpeg_video_next,
    chuks_ffmpeg_video_open, chuks_ffmpeg_video_ptr, chuks_ffmpeg_video_pts,
    chuks_ffmpeg_video_seek, chuks_ffmpeg_video_stride, chuks_ffmpeg_video_width,
    finish_video_next, finish_video_open, known_duration, video_open_inner, FrameShape, FrameTime,
    ReaderReply, ReaderTask, VideoReader,
};
use chuks_ffmpeg::session::{chuks_ffmpeg_last_error, Session};

const SHAPE: FrameShape = FrameShape { width: 640, height: 360, stride: 1920 };

fn reader(filter: &str) -> VideoReader {
    let pick = VideoPick {
        index: 2,
        time_base: Rational::new(1, 1000),
        rate: Rational::new(0, 0),
    };
    match video_open_inner(filter.to_string(), Some(pick)) {
        Ok(r) => r,
        Err(_) => panic!("no reader"),
    }
}

fn filtered(pts: i64) -> ReaderReply {
    let frame = FrameTime { pts: Some(pts), time_base: Rational::new(1, 1000) };
    ReaderReply::Filtered(frame, SHAPE)
}

fn begin(r: &mut VideoReader) {
    let mut s = Session::new();
    assert_eq!(chuks_ffmpeg_video_next(&mut s, Some(r)), Ok(()));
}

fn answer(r: &mut VideoReader, task: ReaderTask, reply: ReaderReply) {
    assert_eq!(r.state.task, task);
    r.state.advance(reply);
}

fn seek(r: &mut VideoReader, target: i64) {
    let mut s = Session::new();
    assert_eq!(chuks_ffmpeg_video_seek(&mut s, Some(r), Ok(()), target), 0);
}

#[test]
fn open_needs_a_path_but_no_filter() {
    let mut s = Session::new();
    assert!(chuks_ffmpeg_video_open(&mut s, None, Some(b"hflip")).is_none());
    assert_eq!(chuks_ffmpeg_last_error(&s), Some("video_open: null/invalid path".to_string()));
    match chuks_ffmpeg_video_open(&mut s, Some(b"in.mp4"), None) {
        Some(q) => {
            assert_eq!(q.path, "in.mp4");
            assert_eq!(q.filter, "");
        }
        None => panic!("refused"),
    }
    match chuks_ffmpeg_video_open(&mut s, Some(b"in.mp4"), Some(b"fps=15")) {
        Some(q) => assert_eq!(q.filter, "fps=15"),
        None => panic!("refused"),
    }
}

#[test]
fn open_needs_a_video_stream() {
    match video_open_inner(String::new(), None) {
        Err(f) => assert_eq!(f, Failure::StreamNotFound),
        Ok(_) => panic!("opened"),
    }
}

#[test]
fn open_reader_has_a_usable_rate_and_no_frame() {
    let r = reader("");
    assert_eq!(r.state.frame_rate, Rational::new(30, 1));
    assert_eq!(r.state.stream_index, 2);
    assert!(!r.state.filtering);
    assert!(!chuks_ffmpeg_video_ptr(Some(&r)));
    assert_eq!(chuks_ffmpeg_video_width(Some(&r)), 0);
    assert_eq!(chuks_ffmpeg_video_height(Some(&r)), 0);
    assert_eq!(chuks_ffmpeg_video_pts(Some(&r)), None);
}

#[test]
fn open_reports_its_error() {
    let mut s = Session::new();
    assert!(finish_video_open(&mut s, Err("No such file or directory".to_string())).is_none());
    assert_eq!(
        chuks_ffmpeg_last_error(&s),
        Some("video_open: No such file or directory".to_string())
    );
    assert!(finish_video_open(&mut s, Ok(reader("hflip"))).is_some());
}

#[test]
fn plain_reading_decodes_and_scales() {
    let mut r = reader("");
    begin(&mut r);
    answer(&mut r, ReaderTask::Decode, ReaderReply::Nothing);
    answer(&mut r, ReaderTask::Read, ReaderReply::Packet(0));
    answer(&mut r, ReaderTask::Decode, ReaderReply::Nothing);
    answer(&mut r, ReaderTask::Read, ReaderReply::Packet(2));
    answer(&mut r, ReaderTask::SendPacket, ReaderReply::Done);
    answer(&mut r, ReaderTask::Decode, ReaderReply::Decoded(Some(40)));
    answer(&mut r, ReaderTask::OpenScaler, ReaderReply::Done);
    answer(&mut r, ReaderTask::Scale, ReaderReply::Scaled(SHAPE));
    assert_eq!(r.state.task, ReaderTask::Ended(true));
    assert!(chuks_ffmpeg_video_ptr(Some(&r)));
    assert_eq!(chuks_ffmpeg_video_pts(Some(&r)), Some((40, Rational::new(1, 1000))));
    assert_eq!(chuks_ffmpeg_video_width(Some(&r)), 640);
    assert_eq!(chuks_ffmpeg_video_height(Some(&r)), 360);
    assert_eq!(chuks_ffmpeg_video_stride(Some(&r)), 1920);
    begin(&mut r);
    answer(&mut r, ReaderTask::Decode, ReaderReply::Decoded(Some(80)));
    answer(&mut r, ReaderTask::Scale, ReaderReply::Scaled(SHAPE));
    assert_eq!(r.state.task, ReaderTask::Ended(true));
}

#[test]
fn end_of_stream_drains_the_decoder() {
    let mut r = reader("");
    begin(&mut r);
    answer(&mut r, ReaderTask::Decode, ReaderReply::Nothing);
    answer(&mut r, ReaderTask::Read, ReaderReply::End);
    answer(&mut r, ReaderTask::SendEof, ReaderReply::Done);
    answer(&mut r, ReaderTask::Decode, ReaderReply::Decoded(Some(120)));
    answer(&mut r, ReaderTask::OpenScaler, ReaderReply::Done);
    answer(&mut r, ReaderTask::Scale, ReaderReply::Scaled(SHAPE));
    assert_eq!(r.state.task, ReaderTask::Ended(true));
    begin(&mut r);
    answer(&mut r, ReaderTask::Decode, ReaderReply::Nothing);
    assert_eq!(r.state.task, ReaderTask::Ended(false));
    assert!(!chuks_ffmpeg_video_ptr(Some(&r)));
    assert_eq!(chuks_ffmpeg_video_pts(Some(&r)), None);
}

#[test]
fn graph_is_pulled_before_it_is_fed() {
    let mut r = reader("fps=60");
    begin(&mut r);
    answer(&mut r, ReaderTask::Decode, ReaderReply::Decoded(Some(0)));
    answer(&mut r, ReaderTask::BuildGraph, ReaderReply::Done);
    answer(&mut r, ReaderTask::Feed, ReaderReply::Done);
    answer(&mut r, ReaderTask::Pull, filtered(0));
    assert_eq!(r.state.task, ReaderTask::Ended(true));
    begin(&mut r);
    answer(&mut r, ReaderTask::Pull, filtered(1));
    assert_eq!(r.state.task, ReaderTask::Ended(true));
    assert_eq!(r.state.cur_pts, Some(1));
    begin(&mut r);
    answer(&mut r, ReaderTask::Pull, ReaderReply::Nothing);
    answer(&mut r, ReaderTask::Decode, ReaderReply::Decoded(Some(33)));
    assert_eq!(r.state.task, ReaderTask::Feed);
}

#[test]
fn graph_is_flushed_once() {
    let mut r = reader("hflip");
    begin(&mut r);
    answer(&mut r, ReaderTask::Decode, ReaderReply::Decoded(Some(0)));
    answer(&mut r, ReaderTask::BuildGraph, ReaderReply::Done);
    answer(&mut r, ReaderTask::Feed, ReaderReply::Done);
    answer(&mut r, ReaderTask::Pull, ReaderReply::Nothing);
    answer(&mut r, ReaderTask::Decode, ReaderReply::Nothing);
    answer(&mut r, ReaderTask::Read, ReaderReply::End);
    answer(&mut r, ReaderTask::SendEof, ReaderReply::Done);
    answer(&mut r, ReaderTask::Pull, ReaderReply::Nothing);
    answer(&mut r, ReaderTask::Decode, ReaderReply::Nothing);
    answer(&mut r, ReaderTask::Flush, ReaderReply::Done);
    answer(&mut r, ReaderTask::Pull, filtered(0));
    assert_eq!(r.state.task, ReaderTask::Ended(true));
    begin(&mut r);
    answer(&mut r, ReaderTask::Pull, ReaderReply::Nothing);
    answer(&mut r, ReaderTask::Decode, ReaderReply::Nothing);
    assert_eq!(r.state.task, ReaderTask::Ended(false));
}

#[test]
fn empty_file_with_filter_ends_without_a_graph() {
    let mut r = reader("hflip");
    begin(&mut r);
    answer(&mut r, ReaderTask::Decode, ReaderReply::Nothing);
    answer(&mut r, ReaderTask::Read, ReaderReply::End);
    answer(&mut r, ReaderTask::SendEof, ReaderReply::Done);
    answer(&mut r, ReaderTask::Decode, ReaderReply::Nothing);
    assert_eq!(r.state.task, ReaderTask::Ended(false));
    assert!(r.state.filter_flushed);
}

#[test]
fn seek_lands_on_the_target() {
    let mut r = reader("");
    seek(&mut r, 500);
    assert_eq!(r.state.skip_until, Some(500));
    begin(&mut r);
    answer(&mut r, ReaderTask::Decode, ReaderReply::Decoded(Some(420)));
    answer(&mut r, ReaderTask::Decode, ReaderReply::Decoded(None));
    answer(&mut r, ReaderTask::Decode, ReaderReply::Decoded(Some(499)));
    answer(&mut r, ReaderTask::Decode, ReaderReply::Decoded(Some(500)));
    answer(&mut r, ReaderTask::OpenScaler, ReaderReply::Done);
    answer(&mut r, ReaderTask::Scale, ReaderReply::Scaled(SHAPE));
    assert_eq!(r.state.cur_pts, Some(500));
    assert_eq!(r.state.skip_until, None);
    begin(&mut r);
    answer(&mut r, ReaderTask::Decode, ReaderReply::Decoded(Some(10)));
    assert_eq!(r.state.task, ReaderTask::Scale);
}

#[test]
fn seek_discards_filtered_frames_too() {
    let mut r = reader("hflip");
    seek(&mut r, 100);
    begin(&mut r);
    answer(&mut r, ReaderTask::Decode, ReaderReply::Decoded(Some(90)));
    answer(&mut r, ReaderTask::BuildGraph, ReaderReply::Done);
    answer(&mut r, ReaderTask::Feed, ReaderReply::Done);
    answer(&mut r, ReaderTask::Pull, filtered(90));
    answer(&mut r, ReaderTask::Pull, filtered(130));
    assert_eq!(r.state.task, ReaderTask::Ended(true));
    assert_eq!(r.state.cur_pts, Some(130));
}

#[test]
fn seek_forgets_the_old_place() {
    let mut r = reader("hflip");
    begin(&mut r);
    answer(&mut r, ReaderTask::Decode, ReaderReply::Decoded(Some(0)));
    answer(&mut r, ReaderTask::BuildGraph, ReaderReply::Done);
    answer(&mut r, ReaderTask::Feed, ReaderReply::Done);
    answer(&mut r, ReaderTask::Pull, filtered(0));
    seek(&mut r, 7);
    assert!(!r.state.graph_ready);
    assert!(!chuks_ffmpeg_video_ptr(Some(&r)));
    assert_eq!(chuks_ffmpeg_video_pts(Some(&r)), None);
    assert_eq!(chuks_ffmpeg_video_width(Some(&r)), 640);
    begin(&mut r);
    assert_eq!(r.state.task, ReaderTask::Decode);
}

#[test]
fn seek_without_time_base_skips_nothing() {
    let pick = VideoPick {
        index: 0,
        time_base: Rational::new(0, 1),
        rate: Rational::new(25, 1),
    };
    let mut r = match video_open_inner(String::new(), Some(pick)) {
        Ok(r) => r,
        Err(_) => panic!("no reader"),
    };
    seek(&mut r, 100);
    assert_eq!(r.state.skip_until, None);
}

#[test]
fn failed_seek_leaves_the_reader_alone() {
    let mut s = Session::new();
    let mut r = reader("");
    seek(&mut r, 5);
    let before = r.state;
    let moved = Err("Operation not permitted".to_string());
    assert_eq!(chuks_ffmpeg_video_seek(&mut s, Some(&mut r), moved, 9), -1);
    assert_eq!(r.state, before);
    assert_eq!(
        chuks_ffmpeg_last_error(&s),
        Some("video_seek: Operation not permitted".to_string())
    );
}

#[test]
fn null_reader_codes() {
    let mut s = Session::new();
    assert_eq!(chuks_ffmpeg_video_next(&mut s, None), Err(-1));
    assert_eq!(chuks_ffmpeg_last_error(&s), Some("video_next: null reader".to_string()));
    assert_eq!(chuks_ffmpeg_video_seek(&mut s, None, Ok(()), 0), -1);
    assert_eq!(chuks_ffmpeg_last_error(&s), Some("video_seek: null reader".to_string()));
    assert_eq!(chuks_ffmpeg_video_width(None), -1);
    assert_eq!(chuks_ffmpeg_video_height(None), -1);
    assert_eq!(chuks_ffmpeg_video_stride(None), -1);
    assert!(!chuks_ffmpeg_video_ptr(None));
    assert_eq!(chuks_ffmpeg_video_pts(None), None);
    assert_eq!(chuks_ffmpeg_video_duration(None), None);
}

#[test]
fn next_reports_frame_end_and_error() {
    let mut s = Session::new();
    assert_eq!(finish_video_next(&mut s, Ok(true)), 1);
    assert_eq!(finish_video_next(&mut s, Ok(false)), 0);
    assert_eq!(chuks_ffmpeg_last_error(&s), Some(String::new()));
    assert_eq!(finish_video_next(&mut s, Err("Invalid data found".to_string())), -1);
    assert_eq!(chuks_ffmpeg_last_error(&s), Some("video_next: Invalid data found".to_string()));
}

#[test]
fn failed_call_ends_and_can_be_repeated() {
    let mut r = reader("");
    begin(&mut r);
    answer(&mut r, ReaderTask::Decode, ReaderReply::Nothing);
    answer(&mut r, ReaderTask::Read, ReaderReply::Packet(2));
    answer(&mut r, ReaderTask::SendPacket, ReaderReply::Failed);
    assert_eq!(r.state.task, ReaderTask::Failed(Failure::Engine));
    begin(&mut r);
    answer(&mut r, ReaderTask::Decode, ReaderReply::Done);
    assert_eq!(r.state.task, ReaderTask::Failed(Failure::Protocol));
}

#[test]
fn only_positive_durations_are_known() {
    assert_eq!(known_duration(1), Some(1));
    assert_eq!(known_duration(0), None);
    assert_eq!(known_duration(i64::MIN), None);
    assert_eq!(chuks_ffmpeg_video_duration(Some(2_500_000)), Some(2_500_000));
    assert_eq!(chuks_ffmpeg_video_duration(Some(-1)), None);
}

#[test]
fn seek_composes_with_a_filter_that_has_its_own_ticks() {
    let pick = VideoPick {
        index: 0,
        time_base: Rational::new(1, 15360),
        rate: Rational::new(30, 1),
    };
    let mut r = match video_open_inner("fps=5".to_string(), Some(pick)) {
        Ok(r) => r,
        Err(_) => panic!("no reader"),
    };
    let fifth = |pts: i64| {
        let frame = FrameTime { pts: Some(pts), time_base: Rational::new(1, 5) };
        ReaderReply::Filtered(frame, SHAPE)
    };
    seek(&mut r, 30 * 15360);
    begin(&mut r);
    answer(&mut r, ReaderTask::Decode, ReaderReply::Decoded(Some(29 * 15360)));
    answer(&mut r, ReaderTask::BuildGraph, ReaderReply::Done);
    answer(&mut r, ReaderTask::Feed, ReaderReply::Done);
    answer(&mut r, ReaderTask::Pull, fifth(149));
    answer(&mut r, ReaderTask::Pull, fifth(150));
    assert_eq!(r.state.task, ReaderTask::Ended(true));
    assert_eq!(chuks_ffmpeg_video_pts(Some(&r)), Some((150, Rational::new(1, 5))));
}

#[test]
fn times_in_different_ticks_are_compared_exactly() {
    let frame = |pts: Option<i64>, num: i32, den: i32| FrameTime {
        pts,
        time_base: Rational::new(num, den),
    };
    let base = Rational::new(1, 90000);
    assert!(frame(Some(1001), 1, 30000).is_not_before(3003, base));
    assert!(!frame(Some(1001), 1, 30000).is_not_before(3004, base));
    assert!(frame(Some(7), 1, 90000).is_not_before(7, base));
    assert!(!frame(None, 1, 5).is_not_before(0, base));
    assert!(frame(Some(i64::MAX), i32::MAX, 1).is_not_before(i64::MAX, base));
}

#[test]
fn frames_become_packed_rgb() {
    let r = reader("scale=1280:720");
    let g = r.graph_plan(1920, 1080, Some("yuv420p"));
    assert_eq!(g.chain, "scale=1280:720,format=rgb24");
    assert_eq!(
        g.source,
        "width=1920:height=1080:pix_fmt=yuv420p:time_base=1/1000:pixel_aspect=1/1:frame_rate=30/1"
    );
    assert_eq!(
        reader("").scale_to_rgb(640, 360),
        ScalePlan { width: 640, height: 360, from: None, to: PixelFormat::Rgb24 }
    );
}

#[test]
fn rows_too_short_for_their_pixels_end_the_call() {
    let short = FrameShape { width: 640, height: 360, stride: 1919 };
    let mut r = reader("");
    begin(&mut r);
    answer(&mut r, ReaderTask::Decode, ReaderReply::Decoded(Some(0)));
    answer(&mut r, ReaderTask::OpenScaler, ReaderReply::Done);
    answer(&mut r, ReaderTask::Scale, ReaderReply::Scaled(short));
    assert_eq!(r.state.task, ReaderTask::Failed(Failure::Protocol));
    assert!(!chuks_ffmpeg_video_ptr(Some(&r)));
}

#[test]
fn calls_show_each_frame_once_and_then_none() {
    let mut r = reader("");
    let stamps = [0, 33, 66];
    for (k, pts) in stamps.iter().enumerate() {
        begin(&mut r);
        if k == 0 {
            answer(&mut r, ReaderTask::Decode, ReaderReply::Nothing);
            answer(&mut r, ReaderTask::Read, ReaderReply::Packet(2));
            answer(&mut r, ReaderTask::SendPacket, ReaderReply::Done);
        }
        if k == 2 {
            answer(&mut r, ReaderTask::Decode, ReaderReply::Nothing);
            answer(&mut r, ReaderTask::Read, ReaderReply::End);
            answer(&mut r, ReaderTask::SendEof, ReaderReply::Done);
        }
        answer(&mut r, ReaderTask::Decode, ReaderReply::Decoded(Some(*pts)));
        if k == 0 {
            answer(&mut r, ReaderTask::OpenScaler, ReaderReply::Done);
        }
        answer(&mut r, ReaderTask::Scale, ReaderReply::Scaled(SHAPE));
        assert_eq!(r.state.task, ReaderTask::Ended(true));
        assert_eq!(chuks_ffmpeg_video_pts(Some(&r)), Some((*pts, Rational::new(1, 1000))));
    }
    for _ in 0..3 {
        begin(&mut r);
        answer(&mut r, ReaderTask::Decode, ReaderReply::Nothing);
        assert_eq!(r.state.task, ReaderTask::Ended(false));
        assert!(!chuks_ffmpeg_video_ptr(Some(&r)));
    }
}

#[test]
fn filtered_reading_drains_the_graph_and_then_shows_nothing() {
    let mut r = reader("fps=60");
    begin(&mut r);
    answer(&mut r, ReaderTask::Decode, ReaderReply::Decoded(Some(0)));
    answer(&mut r, ReaderTask::BuildGraph, ReaderReply::Done);
    answer(&mut r, ReaderTask::Feed, ReaderReply::Done);
    answer(&mut r, ReaderTask::Pull, filtered(0));
    assert_eq!(r.state.task, ReaderTask::Ended(true));
    begin(&mut r);
    answer(&mut r, ReaderTask::Pull, ReaderReply::Nothing);
    answer(&mut r, ReaderTask::Decode, ReaderReply::Nothing);
    answer(&mut r, ReaderTask::Read, ReaderReply::End);
    answer(&mut r, ReaderTask::SendEof, ReaderReply::Done);
    answer(&mut r, ReaderTask::Pull, ReaderReply::Nothing);
    answer(&mut r, ReaderTask::Decode, ReaderReply::Nothing);
    answer(&mut r, ReaderTask::Flush, ReaderReply::Done);
    answer(&mut r, ReaderTask::Pull, filtered(16));
    assert_eq!(r.state.cur_pts, Some(16));
    for _ in 0..2 {
        begin(&mut r);
        answer(&mut r, ReaderTask::Pull, ReaderReply::Nothing);
        answer(&mut r, ReaderTask::Decode, ReaderReply::Nothing);
        assert_eq!(r.state.task, ReaderTask::Ended(false));
        assert!(!chuks_ffmpeg_video_ptr(Some(&r)));
    }
}

#[test]
fn reading_goes_on_after_a_seek_from_the_end() {
    let mut r = reader("");
    begin(&mut r);
    answer(&mut r, ReaderTask::Decode, ReaderReply::Nothing);
    answer(&mut r, ReaderTask::Read, ReaderReply::End);
    answer(&mut r, ReaderTask::SendEof, ReaderReply::Done);
    answer(&mut r, ReaderTask::Decode, ReaderReply::Nothing);
    assert_eq!(r.state.task, ReaderTask::Ended(false));
    seek(&mut r, 40);
    begin(&mut r);
    answer(&mut r, ReaderTask::Decode, ReaderReply::Nothing);
    answer(&mut r, ReaderTask::Read, ReaderReply::Packet(2));
    answer(&mut r, ReaderTask::SendPacket, ReaderReply::Done);
    answer(&mut r, ReaderTask::Decode, ReaderReply::Decoded(Some(0)));
    answer(&mut r, ReaderTask::Decode, ReaderReply::Decoded(Some(40)));
    answer(&mut r, ReaderTask::OpenScaler, ReaderReply::Done);
    answer(&mut r, ReaderTask::Scale, ReaderReply::Scaled(SHAPE));
    assert_eq!(r.state.task, ReaderTask::Ended(true));
    begin(&mut r);
    answer(&mut r, ReaderTask::Decode, ReaderReply::Decoded(Some(20)));
    answer(&mut r, ReaderTask::Scale, ReaderReply::Scaled(SHAPE));
    assert_eq!(r.state.cur_pts, Some(20));
}
