use chuks_ffmpeg::media::Rational;
use chuks_ffmpeg::probe::{
    chuks_ffmpeg_probe, chuks_ffmpeg_probe_audio_codec, chuks_ffmpeg_probe_bit_rate,
    chuks_ffmpeg_probe_channels, chuks_ffmpeg_probe_duration, chuks_ffmpeg_probe_fps,
    chuks_ffmpeg_probe_has_audio, chuks_ffmpeg_probe_has_video, chuks_ffmpeg_probe_height,
    chuks_ffmpeg_probe_nb_frames, chuks_ffmpeg_probe_sample_rate, chuks_ffmpeg_probe_video_codec,
    chuks_ffmpeg_probe_width, finish_probe, probe_open, AudioStreamFacts, Probe, VideoFacts,
};
use chuks_ffmpeg::session::{chuks_ffmpeg_last_error, Session};

fn clip() -> Probe {
    probe_open(
        1_200_000,
        3_040_000,
        Some(VideoFacts {
            codec: "h264".to_string(),
            average_rate: Rational::new(30000, 1001),
            frames: 91,
            width: 1920,
            height: 1080,
        }),
        Some(AudioStreamFacts { codec: "aac".to_string(), sample_rate: 48000, channels: 2 }),
    )
}

#[test]
fn probe_tells_what_the_file_holds() {
    let p = clip();
    assert_eq!(chuks_ffmpeg_probe_width(Some(&p)), 1920);
    assert_eq!(chuks_ffmpeg_probe_height(Some(&p)), 1080);
    assert_eq!(chuks_ffmpeg_probe_duration(Some(&p)), Some(3_040_000));
    assert_eq!(chuks_ffmpeg_probe_fps(Some(&p)), Some(Rational::new(30000, 1001)));
    assert_eq!(chuks_ffmpeg_probe_sample_rate(Some(&p)), 48000);
    assert_eq!(chuks_ffmpeg_probe_channels(Some(&p)), 2);
    assert_eq!(chuks_ffmpeg_probe_bit_rate(Some(&p)), 1_200_000);
    assert_eq!(chuks_ffmpeg_probe_nb_frames(Some(&p)), 91);
    assert_eq!(chuks_ffmpeg_probe_has_video(Some(&p)), 1);
    assert_eq!(chuks_ffmpeg_probe_has_audio(Some(&p)), 1);
    assert_eq!(chuks_ffmpeg_probe_video_codec(Some(&p)), Some("h264".to_string()));
    assert_eq!(chuks_ffmpeg_probe_audio_codec(Some(&p)), Some("aac".to_string()));
}

#[test]
fn absent_streams_leave_zeros() {
    let p = probe_open(0, 0, None, None);
    assert_eq!(chuks_ffmpeg_probe_width(Some(&p)), 0);
    assert_eq!(chuks_ffmpeg_probe_height(Some(&p)), 0);
    assert_eq!(chuks_ffmpeg_probe_duration(Some(&p)), None);
    assert_eq!(chuks_ffmpeg_probe_fps(Some(&p)), None);
    assert_eq!(chuks_ffmpeg_probe_sample_rate(Some(&p)), 0);
    assert_eq!(chuks_ffmpeg_probe_channels(Some(&p)), 0);
    assert_eq!(chuks_ffmpeg_probe_nb_frames(Some(&p)), 0);
    assert_eq!(chuks_ffmpeg_probe_has_video(Some(&p)), 0);
    assert_eq!(chuks_ffmpeg_probe_has_audio(Some(&p)), 0);
    assert_eq!(chuks_ffmpeg_probe_video_codec(Some(&p)), Some(String::new()));
    assert_eq!(chuks_ffmpeg_probe_audio_codec(Some(&p)), Some(String::new()));
}

#[test]
fn unknown_rates_and_durations_are_absent() {
    let p = probe_open(
        5,
        -9,
        Some(VideoFacts {
            codec: "av1".to_string(),
            average_rate: Rational::new(25, 0),
            frames: 0,
            width: 640,
            height: 360,
        }),
        Some(AudioStreamFacts { codec: "opus".to_string(), sample_rate: 0, channels: 0 }),
    );
    assert_eq!(chuks_ffmpeg_probe_has_video(Some(&p)), 1);
    assert_eq!(chuks_ffmpeg_probe_video_codec(Some(&p)), Some("av1".to_string()));
    assert_eq!(chuks_ffmpeg_probe_width(Some(&p)), 640);
    assert_eq!(chuks_ffmpeg_probe_height(Some(&p)), 360);
    assert_eq!(chuks_ffmpeg_probe_fps(Some(&p)), None);
    assert_eq!(chuks_ffmpeg_probe_duration(Some(&p)), None);
    assert_eq!(chuks_ffmpeg_probe_audio_codec(Some(&p)), Some("opus".to_string()));
    assert_eq!(chuks_ffmpeg_probe_sample_rate(Some(&p)), 0);
}

#[test]
fn null_probe_has_defaults() {
    assert_eq!(chuks_ffmpeg_probe_width(None), 0);
    assert_eq!(chuks_ffmpeg_probe_height(None), 0);
    assert_eq!(chuks_ffmpeg_probe_duration(None), None);
    assert_eq!(chuks_ffmpeg_probe_fps(None), None);
    assert_eq!(chuks_ffmpeg_probe_sample_rate(None), 0);
    assert_eq!(chuks_ffmpeg_probe_channels(None), 0);
    assert_eq!(chuks_ffmpeg_probe_bit_rate(None), 0);
    assert_eq!(chuks_ffmpeg_probe_nb_frames(None), 0);
    assert_eq!(chuks_ffmpeg_probe_has_video(None), 0);
    assert_eq!(chuks_ffmpeg_probe_has_audio(None), 0);
    assert_eq!(chuks_ffmpeg_probe_video_codec(None), Some(String::new()));
    assert_eq!(chuks_ffmpeg_probe_audio_codec(None), Some(String::new()));
}

#[test]
fn probe_needs_a_path() {
    let mut s = Session::new();
    assert_eq!(chuks_ffmpeg_probe(&mut s, None), None);
    assert_eq!(chuks_ffmpeg_last_error(&s), Some("probe: null path".to_string()));
    assert_eq!(chuks_ffmpeg_probe(&mut s, Some(b"a.mkv")), Some("a.mkv".to_string()));
}

#[test]
fn probe_reports_its_error() {
    let mut s = Session::new();
    assert!(finish_probe(&mut s, Ok(clip())).is_some());
    assert!(finish_probe(&mut s, Err("Invalid data found".to_string())).is_none());
    assert_eq!(chuks_ffmpeg_last_error(&s), Some("probe: Invalid data found".to_string()));
}
