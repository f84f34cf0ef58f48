use chuks_ffmpeg::audio::{
    append_samples, chuks_ffmpeg_audio_decode, chuks_ffmpeg_audio_format, chuks_ffmpeg_audio_ptr,
    chuks_ffmpeg_audio_samples, finish_audio_decode, normalize_format, AudioBuf, AudioTap,
    PcmPlane, PcmRef, TapReply, TapTask,
};
use chuks_ffmpeg::media::Failure;
use chuks_ffmpeg::session::{chuks_ffmpeg_last_error, Session};

fn singles(values: &[f32]) -> PcmPlane {
    PcmPlane {
        samples: values.len(),
        singles: values.iter().map(|v| v.to_bits()).collect(),
        doubles: Vec::new(),
    }
}

fn doubles(values: &[f64]) -> PcmPlane {
    PcmPlane {
        samples: values.len(),
        singles: Vec::new(),
        doubles: values.iter().map(|v| v.to_bits()).collect(),
    }
}

fn opened(fmt: i32) -> AudioTap {
    let mut tap = AudioTap::new(fmt);
    tap.advance(TapReply::Done);
    tap.advance(TapReply::Picked(Some(1)));
    tap.advance(TapReply::Done);
    tap.advance(TapReply::Done);
    assert_eq!(tap.state.task, TapTask::Read);
    tap
}

#[test]
fn unexpected_format_means_single() {
    assert_eq!(normalize_format(0), 0);
    assert_eq!(normalize_format(1), 1);
    assert_eq!(normalize_format(2), 0);
    assert_eq!(normalize_format(-1), 0);
}

#[test]
fn samples_are_appended_in_the_format_of_the_buffer() {
    let mut b = AudioBuf::new(1);
    append_samples(&mut b, &doubles(&[0.5, -0.25]));
    append_samples(&mut b, &doubles(&[1.0]));
    assert_eq!(b.len(), 3);
    let expected: Vec<u64> = [0.5f64, -0.25, 1.0].iter().map(|v| v.to_bits()).collect();
    assert_eq!(b.doubles, expected);
    assert!(b.singles.is_empty());
}

#[test]
fn frame_that_counts_nothing_adds_nothing() {
    let mut b = AudioBuf::new(0);
    let mut plane = singles(&[0.5]);
    plane.samples = 0;
    append_samples(&mut b, &plane);
    assert_eq!(b.len(), 0);
}

#[test]
fn tap_drains_decoder_and_graph() {
    let mut tap = opened(0);
    tap.advance(TapReply::Packet(0));
    assert_eq!(tap.state.task, TapTask::Read);
    tap.advance(TapReply::Packet(1));
    assert_eq!(tap.state.task, TapTask::SendPacket);
    tap.advance(TapReply::Done);
    tap.advance(TapReply::Got(true));
    assert_eq!(tap.state.task, TapTask::Feed);
    tap.advance(TapReply::Done);
    tap.advance(TapReply::Frame(singles(&[0.125, 0.25])));
    assert_eq!(tap.state.task, TapTask::Pull);
    tap.advance(TapReply::Nothing);
    assert_eq!(tap.state.task, TapTask::Receive);
    tap.advance(TapReply::Got(false));
    tap.advance(TapReply::End);
    assert_eq!(tap.state.task, TapTask::SendEof);
    tap.advance(TapReply::Done);
    tap.advance(TapReply::Got(false));
    assert_eq!(tap.state.task, TapTask::Flush);
    tap.advance(TapReply::Done);
    tap.advance(TapReply::Frame(singles(&[0.5])));
    tap.advance(TapReply::Nothing);
    assert_eq!(tap.state.task, TapTask::Finished);
    let expected: Vec<u32> = [0.125f32, 0.25, 0.5].iter().map(|v| v.to_bits()).collect();
    assert_eq!(tap.buf.singles, expected);
    assert!(tap.buf.doubles.is_empty());
}

#[test]
fn tap_without_audio_stream_fails() {
    let mut tap = AudioTap::new(0);
    tap.advance(TapReply::Done);
    tap.advance(TapReply::Picked(None));
    assert_eq!(tap.state.task, TapTask::Failed(Failure::StreamNotFound));
}

#[test]
fn tap_ends_at_the_first_failed_call() {
    let mut tap = AudioTap::new(0);
    tap.advance(TapReply::Failed);
    assert_eq!(tap.state.task, TapTask::Failed(Failure::Engine));
    tap.advance(TapReply::Done);
    assert_eq!(tap.state.task, TapTask::Failed(Failure::Engine));
    let mut tap = opened(1);
    tap.advance(TapReply::Got(true));
    assert_eq!(tap.state.task, TapTask::Failed(Failure::Protocol));
}

#[test]
fn frame_out_of_turn_is_not_collected() {
    let mut tap = opened(0);
    tap.advance(TapReply::Frame(singles(&[1.0])));
    assert_eq!(tap.state.task, TapTask::Failed(Failure::Protocol));
    assert_eq!(tap.buf.len(), 0);
}

#[test]
fn decode_needs_a_path() {
    let mut s = Session::new();
    assert!(chuks_ffmpeg_audio_decode(&mut s, None, 0).is_none());
    assert_eq!(chuks_ffmpeg_last_error(&s), Some("audio_decode: null/invalid path".to_string()));
    let q = chuks_ffmpeg_audio_decode(&mut s, Some(b"talk.m4a"), 1);
    match q {
        Some(q) => {
            assert_eq!(q.path, "talk.m4a");
            assert_eq!(q.tap.buf.fmt, 1);
        }
        None => panic!("refused"),
    }
}

#[test]
fn decode_reports_its_error() {
    let mut s = Session::new();
    assert!(finish_audio_decode(&mut s, Err("End of file".to_string())).is_none());
    assert_eq!(chuks_ffmpeg_last_error(&s), Some("audio_decode: End of file".to_string()));
    let b = finish_audio_decode(&mut s, Ok(AudioBuf::new(1)));
    assert_eq!(chuks_ffmpeg_audio_format(b.as_ref()), 1);
    assert_eq!(chuks_ffmpeg_last_error(&s), Some("audio_decode: End of file".to_string()));
}

#[test]
fn handle_accessors_know_a_null_handle() {
    assert_eq!(chuks_ffmpeg_audio_samples(None), -1);
    assert_eq!(chuks_ffmpeg_audio_format(None), -1);
    assert!(chuks_ffmpeg_audio_ptr(None).is_none());
}

#[test]
fn borrowed_samples_are_those_in_use() {
    let mut b = AudioBuf::new(0);
    append_samples(&mut b, &singles(&[2.0, 4.0]));
    assert_eq!(chuks_ffmpeg_audio_samples(Some(&b)), 2);
    match chuks_ffmpeg_audio_ptr(Some(&b)) {
        Some(PcmRef::Singles(p)) => assert_eq!(p, [2.0f32.to_bits(), 4.0f32.to_bits()]),
        _ => panic!("wrong buffer"),
    }
    let mut b = AudioBuf::new(1);
    append_samples(&mut b, &doubles(&[8.0]));
    match chuks_ffmpeg_audio_ptr(Some(&b)) {
        Some(PcmRef::Doubles(p)) => assert_eq!(p, [8.0f64.to_bits()]),
        _ => panic!("wrong buffer"),
    }
}

#[test]
fn length_is_the_same_in_both_formats() {
    let lengths = [3usize, 0, 5];
    let mut single = AudioBuf::new(0);
    let mut double = AudioBuf::new(1);
    for n in lengths {
        append_samples(&mut single, &singles(&vec![0.5; n]));
        append_samples(&mut double, &doubles(&vec![0.5; n]));
    }
    assert_eq!(single.len(), 8);
    assert_eq!(double.len(), 8);
}
