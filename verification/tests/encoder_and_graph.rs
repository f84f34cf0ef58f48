use chuks_ffmpeg::encoder::{chuks_ffmpeg_has_encoder, resolve_video_encoder};
use chuks_ffmpeg::graph::{build_audio_filter, build_tap_filter, build_video_filter};
use chuks_ffmpeg::media::{frame_rate_or_default, PixelFormat, Rational};
use chuks_ffmpeg::session::{chuks_ffmpeg_last_video_encoder, Session};
use chuks_ffmpeg::transcode::chuks_ffmpeg_transcode;
use chuks_ffmpeg::writer::chuks_ffmpeg_venc_open;

fn search(session: &mut Session, family: &str, built_in: &[&str]) -> (Option<String>, Vec<String>) {
    let mut asked = Vec::new();
    let mut search = resolve_video_encoder(family, true);
    while let Some(name) = search.wanted() {
        asked.push(name.clone());
        search.advance(session, built_in.contains(&name.as_str()));
    }
    (search.chosen(), asked)
}

#[test]
fn hardware_comes_before_software() {
    let mut s = Session::new();
    let (chosen, asked) = search(&mut s, "h264", &["libx264", "h264_vaapi", "h264"]);
    assert_eq!(chosen, Some("h264_vaapi".to_string()));
    assert_eq!(asked, ["h264_videotoolbox", "h264_nvenc", "h264_vaapi"]);
    assert_eq!(chuks_ffmpeg_last_video_encoder(&s), Some("h264_vaapi".to_string()));
}

#[test]
fn every_encoder_of_a_family_is_tried_in_order() {
    let mut s = Session::new();
    let (chosen, asked) = search(&mut s, "h264", &[]);
    assert_eq!(chosen, None);
    assert_eq!(
        asked,
        [
            "h264_videotoolbox",
            "h264_nvenc",
            "h264_vaapi",
            "h264_qsv",
            "h264_amf",
            "libx264",
            "libopenh264",
            "h264"
        ]
    );
    assert_eq!(chuks_ffmpeg_last_video_encoder(&s), Some(String::new()));
    let (_, asked) = search(&mut s, "hevc", &[]);
    assert_eq!(
        asked,
        [
            "hevc_videotoolbox",
            "hevc_nvenc",
            "hevc_vaapi",
            "hevc_qsv",
            "hevc_amf",
            "libx265",
            "hevc"
        ]
    );
}

#[test]
fn portable_families_have_one_encoder() {
    let mut s = Session::new();
    assert_eq!(search(&mut s, "mpeg4", &["mpeg4"]).0, Some("mpeg4".to_string()));
    assert_eq!(search(&mut s, "mjpeg", &["mjpeg"]).0, Some("mjpeg".to_string()));
    assert_eq!(search(&mut s, "mpeg4", &[]).1, ["mpeg4", "mpeg4"]);
}

#[test]
fn encoder_can_be_named_outright() {
    let mut s = Session::new();
    let (chosen, asked) = search(&mut s, "libsvtav1", &["libsvtav1"]);
    assert_eq!(chosen, Some("libsvtav1".to_string()));
    assert_eq!(asked, ["libsvtav1"]);
    assert_eq!(chuks_ffmpeg_last_video_encoder(&s), Some("libsvtav1".to_string()));
}

#[test]
fn failed_search_keeps_the_last_choice() {
    let mut s = Session::new();
    search(&mut s, "mpeg4", &["mpeg4"]);
    assert_eq!(search(&mut s, "hevc", &[]).0, None);
    assert_eq!(chuks_ffmpeg_last_video_encoder(&s), Some("mpeg4".to_string()));
}

#[test]
fn finished_search_takes_no_more_answers() {
    let mut s = Session::new();
    let mut search = resolve_video_encoder("mjpeg", true);
    search.advance(&mut s, true);
    search.advance(&mut s, false);
    assert_eq!(search.chosen(), Some("mjpeg".to_string()));
    assert_eq!(search.wanted(), None);
}

#[test]
fn has_encoder_is_one_or_zero() {
    assert_eq!(chuks_ffmpeg_has_encoder(Some(b"h264_vaapi"), true), 1);
    assert_eq!(chuks_ffmpeg_has_encoder(Some(b"h264_vaapi"), false), 0);
    assert_eq!(chuks_ffmpeg_has_encoder(None, true), 0);
    assert_eq!(chuks_ffmpeg_has_encoder(Some(&[0xff]), true), 0);
}

#[test]
fn tap_graph_gives_mono_at_the_target_rate() {
    let g = build_tap_filter(44100, "fltp", 2, 0);
    assert_eq!(
        g.source,
        "time_base=1/44100:sample_rate=44100:sample_fmt=fltp:channel_layout=stereo"
    );
    assert_eq!(g.chain, "aresample=16000,aformat=sample_fmts=flt:channel_layouts=mono");
    let g = build_tap_filter(8000, "s16", 1, 1);
    assert_eq!(g.source, "time_base=1/8000:sample_rate=8000:sample_fmt=s16:channel_layout=mono");
    assert_eq!(g.chain, "aresample=16000,aformat=sample_fmts=dbl:channel_layouts=mono");
}

#[test]
fn audio_graph_names_the_layout() {
    let g = build_audio_filter(
        Rational::new(1, 48000),
        48000,
        "s16p",
        6,
        "fltp",
        2,
        44100,
        false,
        1024,
    );
    assert_eq!(
        g.source,
        "time_base=1/48000:sample_rate=48000:sample_fmt=s16p:channel_layout=6c"
    );
    assert_eq!(g.chain, "anull");
    assert_eq!(g.sink_format, "fltp");
    assert_eq!(g.sink_channels, 2);
    assert_eq!(g.sink_rate, 44100);
    assert_eq!(g.frame_size, Some(1024));
    let g = build_audio_filter(
        Rational::new(1, 1000),
        48000,
        "s16p",
        0,
        "s16",
        1,
        48000,
        true,
        1024,
    );
    assert_eq!(
        g.source,
        "time_base=1/1000:sample_rate=48000:sample_fmt=s16p:channel_layout=0c"
    );
    assert_eq!(g.frame_size, None);
}

#[test]
fn video_graph_ends_in_the_output_format() {
    let g = build_video_filter(
        1920,
        1080,
        Some("nv12"),
        "scale=1280:720",
        PixelFormat::Rgb24,
        Rational::new(1, 15360),
        Rational::new(30000, 1001),
    );
    assert_eq!(
        g.source,
        "width=1920:height=1080:pix_fmt=nv12:time_base=1/15360:pixel_aspect=1/1:frame_rate=30000/1001"
    );
    assert_eq!(g.chain, "scale=1280:720,format=rgb24");
}

#[test]
fn video_graph_without_filter_only_converts() {
    let g = build_video_filter(
        64,
        48,
        None,
        "",
        PixelFormat::Yuv420p,
        Rational::new(0, -1),
        Rational::new(30, 1),
    );
    assert_eq!(
        g.source,
        "width=64:height=48:pix_fmt=yuv420p:time_base=0/-1:pixel_aspect=1/1:frame_rate=30/1"
    );
    assert_eq!(g.chain, "format=yuv420p");
}

#[test]
fn unusable_rate_becomes_thirty() {
    assert_eq!(frame_rate_or_default(Rational::new(24000, 1001)), Rational::new(24000, 1001));
    assert_eq!(frame_rate_or_default(Rational::new(0, 1)), Rational::new(30, 1));
    assert_eq!(frame_rate_or_default(Rational::new(25, 0)), Rational::new(30, 1));
    assert_eq!(frame_rate_or_default(Rational::new(-25, -1)), Rational::new(30, 1));
    assert_eq!(Rational::new(30000, 1001).invert(), Rational::new(1001, 30000));
}

#[test]
fn search_without_record_leaves_the_last_choice() {
    let mut s = Session::new();
    search(&mut s, "mpeg4", &["mpeg4"]);
    let mut quiet = resolve_video_encoder("hevc", false);
    quiet.advance(&mut s, true);
    assert_eq!(quiet.chosen(), Some("hevc_videotoolbox".to_string()));
    assert_eq!(chuks_ffmpeg_last_video_encoder(&s), Some("mpeg4".to_string()));
}

#[test]
fn pixel_formats_have_names() {
    assert_eq!(PixelFormat::Rgb24.name(), "rgb24");
    assert_eq!(PixelFormat::Yuv420p.name(), "yuv420p");
}

#[test]
fn opening_a_writer_keeps_the_encoder_of_the_last_transcode() {
    let mut s = Session::new();
    let request = match chuks_ffmpeg_transcode(
        &mut s,
        Some(b"a.mov"),
        Some(b"b.mp4"),
        Some(b"mpeg4"),
        None,
        None,
    ) {
        Ok(q) => q,
        Err(_) => panic!("refused"),
    };
    let mut search = request.encoder_search();
    search.advance(&mut s, true);
    let request = match chuks_ffmpeg_venc_open(&mut s, Some(b"c.mp4"), 2, 2, 30, 1, Some(b"hevc")) {
        Some(q) => q,
        None => panic!("refused"),
    };
    let mut search = request.encoder_search();
    search.advance(&mut s, true);
    assert_eq!(search.chosen(), Some("hevc_videotoolbox".to_string()));
    assert_eq!(chuks_ffmpeg_last_video_encoder(&s), Some("mpeg4".to_string()));
}
