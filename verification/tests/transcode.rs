use chuks_ffmpeg::media::{Failure, PacketStamp, PixelFormat, Rational, StreamPick, VideoPick};
use chuks_ffmpeg::session::{chuks_ffmpeg_last_error, Session};
use chuks_ffmpeg::transcode::{
    chuks_ffmpeg_transcode, finish_transcode, wants_reencode, AudioEncoderConfig, AudioFacts,
    Reply, Task, Transcode, VideoEncoderConfig,
};

fn answer(job: &mut Transcode, task: Task, reply: Reply) {
    assert_eq!(job.task, task);
    job.advance(reply);
}

fn pick() -> Reply {
    Reply::Video(Some(VideoPick {
        index: 0,
        time_base: Rational::new(1, 12800),
        rate: Rational::new(25, 1),
    }))
}

fn audio_pick() -> Reply {
    Reply::Audio(Some(StreamPick { index: 1, time_base: Rational::new(1, 44100) }))
}

fn up_to_audio(audio: &str) -> Transcode {
    let mut job = Transcode::new(audio);
    answer(&mut job, Task::OpenInput, Reply::Done);
    answer(&mut job, Task::PickVideo, pick());
    answer(&mut job, Task::OpenVideoDecoder, Reply::Done);
    answer(&mut job, Task::OpenOutput, Reply::Output(true));
    answer(&mut job, Task::FindVideoEncoder, Reply::Got(true));
    answer(&mut job, Task::AddVideoStream, Reply::Stream(0));
    job
}

fn copying() -> Transcode {
    let mut job = up_to_audio("copy");
    answer(&mut job, Task::PickAudio, audio_pick());
    answer(&mut job, Task::AddCopyStream, Reply::Stream(1));
    job
}

fn reencoding() -> Transcode {
    let mut job = up_to_audio("aac");
    answer(&mut job, Task::PickAudio, audio_pick());
    let facts = AudioFacts { rate: 44100, channels: 2, bit_rate: 0 };
    answer(&mut job, Task::OpenAudioDecoder, Reply::AudioDecoder(facts));
    answer(&mut job, Task::FindAudioEncoder, Reply::Got(true));
    answer(&mut job, Task::AddAudioStream, Reply::Stream(1));
    answer(&mut job, Task::PickSampleFormat, Reply::Got(true));
    answer(&mut job, Task::OpenAudioEncoder, Reply::Encoder(Rational::new(1, 44100)));
    answer(&mut job, Task::BuildAudioGraph, Reply::Done);
    job
}

fn first_frame(job: &mut Transcode) {
    answer(job, Task::Demux, Reply::Packet(0));
    answer(job, Task::SendVideo, Reply::Done);
    answer(job, Task::ReceiveVideo, Reply::Got(true));
    answer(job, Task::BuildVideoGraph, Reply::Done);
    answer(job, Task::FeedVideo, Reply::Done);
    answer(job, Task::PullVideo, Reply::Got(true));
    answer(job, Task::OpenVideoEncoder, Reply::Encoder(Rational::new(1, 25)));
    answer(
        job,
        Task::WriteHeader,
        Reply::Header(Rational::new(1, 12800), Rational::new(1, 90000)),
    );
}

#[test]
fn empty_and_copy_keep_the_audio() {
    assert!(!wants_reencode(""));
    assert!(!wants_reencode("copy"));
    assert!(wants_reencode("aac"));
    assert!(wants_reencode("Copy"));
}

#[test]
fn frames_are_numbered_and_counted() {
    let mut job = up_to_audio("");
    answer(&mut job, Task::PickAudio, Reply::Audio(None));
    first_frame(&mut job);
    answer(&mut job, Task::EncodeFrame(0), Reply::Done);
    answer(&mut job, Task::ReceiveVideoPacket, Reply::Got(true));
    answer(&mut job, Task::WriteVideo, Reply::Done);
    answer(&mut job, Task::ReceiveVideoPacket, Reply::Got(false));
    answer(&mut job, Task::PullVideo, Reply::Got(true));
    answer(&mut job, Task::EncodeFrame(1), Reply::Done);
    answer(&mut job, Task::ReceiveVideoPacket, Reply::Got(false));
    answer(&mut job, Task::PullVideo, Reply::Got(false));
    answer(&mut job, Task::ReceiveVideo, Reply::Got(false));
    answer(&mut job, Task::Demux, Reply::Packet(7));
    answer(&mut job, Task::Demux, Reply::End);
    answer(&mut job, Task::SendVideoEof, Reply::Done);
    answer(&mut job, Task::ReceiveVideo, Reply::Got(true));
    answer(&mut job, Task::FeedVideo, Reply::Done);
    answer(&mut job, Task::PullVideo, Reply::Got(false));
    answer(&mut job, Task::ReceiveVideo, Reply::Got(false));
    answer(&mut job, Task::FlushVideo, Reply::Done);
    answer(&mut job, Task::PullVideo, Reply::Got(true));
    answer(&mut job, Task::EncodeFrame(2), Reply::Done);
    answer(&mut job, Task::ReceiveVideoPacket, Reply::Got(false));
    answer(&mut job, Task::PullVideo, Reply::Got(false));
    answer(&mut job, Task::SendEncoderEof, Reply::Done);
    answer(&mut job, Task::ReceiveVideoPacket, Reply::Got(true));
    answer(&mut job, Task::WriteVideo, Reply::Done);
    answer(&mut job, Task::ReceiveVideoPacket, Reply::Got(false));
    answer(&mut job, Task::WriteTrailer, Reply::Done);
    assert_eq!(job.task, Task::Finished(3));
    job.advance(Reply::Done);
    assert_eq!(job.task, Task::Finished(3));
}

#[test]
fn early_audio_waits_for_the_header() {
    let mut job = copying();
    answer(&mut job, Task::Demux, Reply::Packet(1));
    answer(&mut job, Task::BufferAudio(0), Reply::Done);
    answer(&mut job, Task::Demux, Reply::Packet(1));
    answer(&mut job, Task::BufferAudio(1), Reply::Done);
    first_frame(&mut job);
    answer(&mut job, Task::WriteBuffered(0), Reply::Done);
    answer(&mut job, Task::WriteBuffered(1), Reply::Done);
    answer(&mut job, Task::EncodeFrame(0), Reply::Done);
    answer(&mut job, Task::ReceiveVideoPacket, Reply::Got(false));
    answer(&mut job, Task::PullVideo, Reply::Got(false));
    answer(&mut job, Task::ReceiveVideo, Reply::Got(false));
    answer(&mut job, Task::Demux, Reply::Packet(1));
    answer(&mut job, Task::WriteAudio(2), Reply::Done);
    assert_eq!(job.task, Task::Demux);
}

#[test]
fn reencoded_audio_is_drained_after_the_video() {
    let mut job = reencoding();
    answer(&mut job, Task::Demux, Reply::Packet(1));
    answer(&mut job, Task::SendAudio, Reply::Done);
    answer(&mut job, Task::ReceiveAudio, Reply::Got(true));
    answer(&mut job, Task::FeedAudio, Reply::Done);
    answer(&mut job, Task::PullAudio, Reply::Got(true));
    answer(&mut job, Task::EncodeAudio, Reply::Done);
    answer(&mut job, Task::ReceiveAudioPacket, Reply::Got(true));
    answer(&mut job, Task::BufferAudio(0), Reply::Done);
    answer(&mut job, Task::ReceiveAudioPacket, Reply::Got(false));
    answer(&mut job, Task::PullAudio, Reply::Got(false));
    answer(&mut job, Task::ReceiveAudio, Reply::Got(false));
    first_frame(&mut job);
    answer(&mut job, Task::WriteBuffered(0), Reply::Done);
    answer(&mut job, Task::EncodeFrame(0), Reply::Done);
    answer(&mut job, Task::ReceiveVideoPacket, Reply::Got(false));
    answer(&mut job, Task::PullVideo, Reply::Got(false));
    answer(&mut job, Task::ReceiveVideo, Reply::Got(false));
    answer(&mut job, Task::Demux, Reply::End);
    answer(&mut job, Task::SendVideoEof, Reply::Done);
    answer(&mut job, Task::ReceiveVideo, Reply::Got(false));
    answer(&mut job, Task::FlushVideo, Reply::Done);
    answer(&mut job, Task::PullVideo, Reply::Got(false));
    answer(&mut job, Task::SendEncoderEof, Reply::Done);
    answer(&mut job, Task::ReceiveVideoPacket, Reply::Got(false));
    answer(&mut job, Task::SendAudioEof, Reply::Done);
    answer(&mut job, Task::ReceiveAudio, Reply::Got(false));
    answer(&mut job, Task::FlushAudio, Reply::Done);
    answer(&mut job, Task::PullAudio, Reply::Got(true));
    answer(&mut job, Task::EncodeAudio, Reply::Done);
    answer(&mut job, Task::ReceiveAudioPacket, Reply::Got(false));
    answer(&mut job, Task::PullAudio, Reply::Got(false));
    answer(&mut job, Task::SendAudioEncoderEof, Reply::Done);
    answer(&mut job, Task::ReceiveAudioPacket, Reply::Got(true));
    answer(&mut job, Task::WriteAudio(1), Reply::Done);
    answer(&mut job, Task::ReceiveAudioPacket, Reply::Got(false));
    answer(&mut job, Task::WriteTrailer, Reply::Done);
    assert_eq!(job.task, Task::Finished(1));
}

#[test]
fn input_without_frames_writes_nothing() {
    let mut job = copying();
    answer(&mut job, Task::Demux, Reply::Packet(1));
    answer(&mut job, Task::BufferAudio(0), Reply::Done);
    answer(&mut job, Task::Demux, Reply::End);
    answer(&mut job, Task::SendVideoEof, Reply::Done);
    answer(&mut job, Task::ReceiveVideo, Reply::Got(false));
    assert_eq!(job.task, Task::Finished(0));
}

#[test]
fn frames_swallowed_by_the_graph_write_nothing() {
    let mut job = copying();
    answer(&mut job, Task::Demux, Reply::Packet(0));
    answer(&mut job, Task::SendVideo, Reply::Done);
    answer(&mut job, Task::ReceiveVideo, Reply::Got(true));
    answer(&mut job, Task::BuildVideoGraph, Reply::Done);
    answer(&mut job, Task::FeedVideo, Reply::Done);
    answer(&mut job, Task::PullVideo, Reply::Got(false));
    answer(&mut job, Task::ReceiveVideo, Reply::Got(false));
    answer(&mut job, Task::Demux, Reply::End);
    answer(&mut job, Task::SendVideoEof, Reply::Done);
    answer(&mut job, Task::ReceiveVideo, Reply::Got(false));
    answer(&mut job, Task::FlushVideo, Reply::Done);
    answer(&mut job, Task::PullVideo, Reply::Got(false));
    assert_eq!(job.task, Task::Finished(0));
}

#[test]
fn missing_stream_and_encoders_are_told_apart() {
    let mut job = Transcode::new("");
    answer(&mut job, Task::OpenInput, Reply::Done);
    answer(&mut job, Task::PickVideo, Reply::Video(None));
    assert_eq!(job.task, Task::Failed(Failure::StreamNotFound));

    let mut job = Transcode::new("");
    answer(&mut job, Task::OpenInput, Reply::Done);
    answer(&mut job, Task::PickVideo, pick());
    answer(&mut job, Task::OpenVideoDecoder, Reply::Done);
    answer(&mut job, Task::OpenOutput, Reply::Output(false));
    answer(&mut job, Task::FindVideoEncoder, Reply::Got(false));
    assert_eq!(job.task, Task::Failed(Failure::EncoderNotFound));

    let mut job = up_to_audio("mp3");
    answer(&mut job, Task::PickAudio, audio_pick());
    let facts = AudioFacts { rate: 8000, channels: 1, bit_rate: 64000 };
    answer(&mut job, Task::OpenAudioDecoder, Reply::AudioDecoder(facts));
    answer(&mut job, Task::FindAudioEncoder, Reply::Got(false));
    assert_eq!(job.task, Task::Failed(Failure::EncoderNotFound));

    let mut job = Transcode::new("");
    answer(&mut job, Task::OpenInput, Reply::Failed);
    assert_eq!(job.task, Task::Failed(Failure::Engine));

    let mut job = Transcode::new("");
    answer(&mut job, Task::OpenInput, Reply::End);
    assert_eq!(job.task, Task::Failed(Failure::Protocol));
}

#[test]
fn encoders_follow_the_source() {
    let job = reencoding();
    assert_eq!(
        job.audio_encoder_config(),
        AudioEncoderConfig {
            rate: 44100,
            channels: 2,
            bit_rate: 128_000,
            time_base: Rational::new(1, 44100),
            global_header: true,
        }
    );
    assert_eq!(
        job.video_encoder_config(1280, 720),
        VideoEncoderConfig {
            width: 1280,
            height: 720,
            pixel_format: PixelFormat::Yuv420p,
            time_base: Rational::new(1, 25),
            frame_rate: Rational::new(25, 1),
            global_header: true,
        }
    );
}

#[test]
fn audio_bit_rate_is_kept_where_known() {
    let mut job = up_to_audio("aac");
    answer(&mut job, Task::PickAudio, audio_pick());
    let facts = AudioFacts { rate: 48000, channels: 6, bit_rate: 384_000 };
    answer(&mut job, Task::OpenAudioDecoder, Reply::AudioDecoder(facts));
    assert_eq!(job.audio_encoder_config().bit_rate, 384_000);
    assert_eq!(job.audio_encoder_config().channels, 6);
}

#[test]
fn packets_are_stamped_for_their_streams() {
    let mut job = copying();
    first_frame(&mut job);
    assert_eq!(
        job.video_stamp(),
        PacketStamp {
            stream: 0,
            duration: Some(1),
            from: Rational::new(1, 25),
            to: Rational::new(1, 12800),
            forget_position: false,
        }
    );
    assert_eq!(
        job.audio_stamp(),
        PacketStamp {
            stream: 1,
            duration: None,
            from: Rational::new(1, 44100),
            to: Rational::new(1, 90000),
            forget_position: true,
        }
    );
}

#[test]
fn request_names_what_is_missing() {
    let mut s = Session::new();
    let a: Option<&[u8]> = Some(b"a.mov");
    let b: Option<&[u8]> = Some(b"b.mp4");
    let e: Option<&[u8]> = Some(b"h264");
    assert!(matches!(chuks_ffmpeg_transcode(&mut s, None, None, None, None, None), Err(-1)));
    assert_eq!(chuks_ffmpeg_last_error(&s), Some("transcode: null in_path".to_string()));
    assert!(matches!(chuks_ffmpeg_transcode(&mut s, a, None, e, None, None), Err(-1)));
    assert_eq!(chuks_ffmpeg_last_error(&s), Some("transcode: null out_path".to_string()));
    assert!(matches!(chuks_ffmpeg_transcode(&mut s, a, b, None, None, None), Err(-1)));
    assert_eq!(chuks_ffmpeg_last_error(&s), Some("transcode: null encoder".to_string()));
    match chuks_ffmpeg_transcode(&mut s, a, b, e, None, Some(b"aac")) {
        Ok(q) => {
            assert_eq!(q.input, "a.mov");
            assert_eq!(q.output, "b.mp4");
            assert_eq!(q.encoder, "h264");
            assert_eq!(q.filter, "");
            assert_eq!(q.audio, "aac");
            assert_eq!(q.job, Transcode::new("aac"));
        }
        Err(_) => panic!("refused"),
    }
}

#[test]
fn transcode_reports_frames_or_error() {
    let mut s = Session::new();
    assert_eq!(finish_transcode(&mut s, Ok(90)), 90);
    assert_eq!(chuks_ffmpeg_last_error(&s), Some(String::new()));
    assert_eq!(finish_transcode(&mut s, Err("Encoder not found".to_string())), -1);
    assert_eq!(chuks_ffmpeg_last_error(&s), Some("transcode: Encoder not found".to_string()));
}

#[test]
fn every_frame_is_converted_for_the_encoder() {
    let job = copying();
    let g = job.video_graph(1920, 1080, Some("nv12"), "hflip");
    assert_eq!(
        g.source,
        "width=1920:height=1080:pix_fmt=nv12:time_base=1/12800:pixel_aspect=1/1:frame_rate=25/1"
    );
    assert_eq!(g.chain, "hflip,format=yuv420p");
    assert_eq!(job.video_graph(64, 48, None, "").chain, "format=yuv420p");
}
