use chuks_ffmpeg::session::{
    chuks_ffmpeg_last_error, chuks_ffmpeg_last_video_encoder, chuks_ffmpeg_version, set_err,
    set_op_err, set_video_encoder, Session,
};
use chuks_ffmpeg::text::{cstr, into_cstring, push_decimal, push_signed};

#[test]
fn null_pointer_is_no_text() {
    assert_eq!(cstr(None), None);
}

#[test]
fn utf8_bytes_become_text() {
    assert_eq!(cstr(Some("clip.mp4".as_bytes())), Some("clip.mp4".to_string()));
    assert_eq!(cstr(Some("été.mov".as_bytes())), Some("été.mov".to_string()));
    assert_eq!(cstr(Some(&[])), Some(String::new()));
}

#[test]
fn invalid_utf8_is_no_text() {
    assert_eq!(cstr(Some(&[0x63, 0xff, 0x70])), None);
    assert_eq!(cstr(Some(&[0xc3])), None);
    assert_eq!(cstr(Some(&[0xed, 0xa0, 0x80])), None);
}

#[test]
fn text_with_nul_is_no_c_string() {
    assert_eq!(into_cstring("h264".to_string()), Some("h264".to_string()));
    assert_eq!(into_cstring(String::new()), Some(String::new()));
    assert_eq!(into_cstring("a\0b".to_string()), None);
}

#[test]
fn decimals_have_no_leading_zeros() {
    let mut s = String::new();
    push_decimal(&mut s, 0);
    s.push(' ');
    push_decimal(&mut s, 7);
    s.push(' ');
    push_decimal(&mut s, 1024);
    s.push(' ');
    push_decimal(&mut s, u64::MAX);
    assert_eq!(s, format!("0 7 1024 {}", u64::MAX));
}

#[test]
fn signed_decimals_carry_their_sign() {
    let mut s = String::from("t=");
    push_signed(&mut s, -30);
    s.push(' ');
    push_signed(&mut s, i64::MIN);
    s.push(' ');
    push_signed(&mut s, i64::MAX);
    assert_eq!(s, format!("t=-30 {} {}", i64::MIN, i64::MAX));
}

#[test]
fn new_session_remembers_nothing() {
    let s = Session::new();
    assert_eq!(chuks_ffmpeg_last_error(&s), Some(String::new()));
    assert_eq!(chuks_ffmpeg_last_video_encoder(&s), Some(String::new()));
}

#[test]
fn last_error_is_the_latest_one() {
    let mut s = Session::new();
    set_err(&mut s, "probe: null path");
    set_op_err(&mut s, "mux", "Stream not found");
    assert_eq!(chuks_ffmpeg_last_error(&s), Some("mux: Stream not found".to_string()));
    assert_eq!(chuks_ffmpeg_last_video_encoder(&s), Some(String::new()));
}

#[test]
fn error_with_nul_is_not_handed_out() {
    let mut s = Session::new();
    set_err(&mut s, "bad\0text");
    assert_eq!(chuks_ffmpeg_last_error(&s), None);
}

#[test]
fn chosen_encoder_is_kept_beside_the_error() {
    let mut s = Session::new();
    set_video_encoder(&mut s, "libx264");
    set_err(&mut s, "transcode: null encoder");
    assert_eq!(chuks_ffmpeg_last_video_encoder(&s), Some("libx264".to_string()));
}

#[test]
fn version_is_passed_on_or_unknown() {
    assert_eq!(chuks_ffmpeg_version(None), Some("unknown".to_string()));
    assert_eq!(chuks_ffmpeg_version(Some("n8.1".to_string())), Some("n8.1".to_string()));
    assert_eq!(chuks_ffmpeg_version(Some("n8\0".to_string())), None);
}
