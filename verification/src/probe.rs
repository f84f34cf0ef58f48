//! What is known of a file without decoding it.
use crate::media::Rational;
use crate::reader::known_duration;
use crate::session::{set_err, set_op_err, Session};
use crate::text::{cstr, into_cstring};
use vstd::prelude::*;

verus! {

/// What a container says of the best video stream.
pub struct VideoFacts {
    pub codec: String,
    pub average_rate: Rational,
    /// How many frames the container records.
    pub frames: i64,
    /// The size of its frames in pixels, as the parameters of the stream give
    /// it.
    pub width: i32,
    pub height: i32,
}

/// What a container says of the best audio stream.
pub struct AudioStreamFacts {
    pub codec: String,
    /// The sample rate in hertz and the number of channels, as the parameters
    /// of the stream give them.
    pub sample_rate: i32,
    pub channels: i32,
}

/// What is known of a file.
pub struct Probe {
    pub width: i32,
    pub height: i32,
    /// The duration in microseconds, where it is known.
    pub duration: Option<i64>,
    /// The average frame rate, where there is one.
    pub fps: Option<Rational>,
    pub has_video: bool,
    pub has_audio: bool,
    pub video_codec: String,
    pub audio_codec: String,
    pub sample_rate: i32,
    pub channels: i32,
    pub bit_rate: i64,
    pub nb_frames: i64,
}

/// Whether the video part of `p` says what `facts` say.
pub open spec fn describes_video(p: Probe, facts: Option<VideoFacts>) -> bool {
    match facts {
        Some(v) => {
            &&& p.has_video
            &&& p.video_codec@ == v.codec@
            &&& p.fps == (if v.average_rate.den != 0 {
                Some(v.average_rate)
            } else {
                None
            })
            &&& p.nb_frames == v.frames
            &&& p.width == v.width
            &&& p.height == v.height
        },
        None => {
            &&& !p.has_video
            &&& p.video_codec@ == Seq::<char>::empty()
            &&& p.fps is None
            &&& p.nb_frames == 0
            &&& p.width == 0
            &&& p.height == 0
        },
    }
}

/// Whether the audio part of `p` says what `facts` say.
pub open spec fn describes_audio(p: Probe, facts: Option<AudioStreamFacts>) -> bool {
    match facts {
        Some(a) => {
            &&& p.has_audio
            &&& p.audio_codec@ == a.codec@
            &&& p.sample_rate == a.sample_rate
            &&& p.channels == a.channels
        },
        None => {
            &&& !p.has_audio
            &&& p.audio_codec@ == Seq::<char>::empty()
            &&& p.sample_rate == 0
            &&& p.channels == 0
        },
    }
}

/// Puts together what is known of a file. What is not known is left at zero,
/// empty or absent.
pub fn probe_open(
    bit_rate: i64,
    duration: i64,
    video: Option<VideoFacts>,
    audio: Option<AudioStreamFacts>,
) -> (p: Probe)
    ensures
        p.bit_rate == bit_rate,
        p.duration == (if duration > 0 {
            Some(duration)
        } else {
            None
        }),
        describes_video(p, video),
        describes_audio(p, audio),
{
    let mut p: Probe = Probe {
        width: 0,
        height: 0,
        duration: known_duration(duration),
        fps: None,
        has_video: false,
        has_audio: false,
        video_codec: String::new(),
        audio_codec: String::new(),
        sample_rate: 0,
        channels: 0,
        bit_rate,
        nb_frames: 0,
    };
    if let Some(v) = video {
        p.has_video = true;
        p.video_codec = v.codec;
        if v.average_rate.den != 0 {
            p.fps = Some(v.average_rate);
        }
        p.nb_frames = v.frames;
        p.width = v.width;
        p.height = v.height;
    }
    if let Some(a) = audio {
        p.has_audio = true;
        p.audio_codec = a.codec;
        p.sample_rate = a.sample_rate;
        p.channels = a.channels;
    }
    p
}

/// Asks what is known of the file `path`. Without a path the request is
/// refused.
pub fn chuks_ffmpeg_probe(session: &mut Session, path: Option<&[u8]>) -> (r: Option<String>)
    ensures
        crate::text::text_of(r) == crate::text::arg(path),
        final(session)@ == (if crate::text::arg(path) is Some {
            old(session)@
        } else {
            old(session)@.failed_with("probe: null path"@)
        }),
{
    match cstr(path) {
        Some(path) => Some(path),
        None => {
            set_err(session, "probe: null path");
            None
        },
    }
}

/// The outcome of probing: what is known, or nothing and the error
/// remembered.
pub fn finish_probe(session: &mut Session, outcome: Result<Probe, String>) -> (r: Option<Probe>)
    ensures
        outcome matches Ok(p) ==> r == Some(p) && final(session)@ == old(session)@,
        outcome matches Err(e) ==> r is None && final(session)@ == old(session)@.failed_with(
            crate::session::prefixed("probe"@, e@),
        ),
{
    match outcome {
        Ok(p) => Some(p),
        Err(e) => {
            set_op_err(session, "probe", e.as_str());
            None
        },
    }
}

/// The width of the video in pixels, `0` where there is none.
pub fn chuks_ffmpeg_probe_width(p: Option<&Probe>) -> (n: i32)
    ensures
        n == (match p {
            Some(p) => p.width,
            None => 0,
        }),
{
    match p {
        Some(p) => p.width,
        None => 0,
    }
}

/// The height of the video in pixels, `0` where there is none.
pub fn chuks_ffmpeg_probe_height(p: Option<&Probe>) -> (n: i32)
    ensures
        n == (match p {
            Some(p) => p.height,
            None => 0,
        }),
{
    match p {
        Some(p) => p.height,
        None => 0,
    }
}

/// The duration in microseconds, where it is known.
pub fn chuks_ffmpeg_probe_duration(p: Option<&Probe>) -> (d: Option<i64>)
    ensures
        d == (match p {
            Some(p) => p.duration,
            None => None,
        }),
{
    match p {
        Some(p) => p.duration,
        None => None,
    }
}

/// The average frame rate, where there is one.
pub fn chuks_ffmpeg_probe_fps(p: Option<&Probe>) -> (r: Option<Rational>)
    ensures
        r == (match p {
            Some(p) => p.fps,
            None => None,
        }),
{
    match p {
        Some(p) => p.fps,
        None => None,
    }
}

/// The sample rate of the audio in hertz, `0` where there is none.
pub fn chuks_ffmpeg_probe_sample_rate(p: Option<&Probe>) -> (n: i32)
    ensures
        n == (match p {
            Some(p) => p.sample_rate,
            None => 0,
        }),
{
    match p {
        Some(p) => p.sample_rate,
        None => 0,
    }
}

/// The number of audio channels, `0` where there is no audio.
pub fn chuks_ffmpeg_probe_channels(p: Option<&Probe>) -> (n: i32)
    ensures
        n == (match p {
            Some(p) => p.channels,
            None => 0,
        }),
{
    match p {
        Some(p) => p.channels,
        None => 0,
    }
}

/// The bit rate of the whole file, as the container gives it.
pub fn chuks_ffmpeg_probe_bit_rate(p: Option<&Probe>) -> (n: i64)
    ensures
        n == (match p {
            Some(p) => p.bit_rate,
            None => 0,
        }),
{
    match p {
        Some(p) => p.bit_rate,
        None => 0,
    }
}

/// The number of video frames that the container records.
pub fn chuks_ffmpeg_probe_nb_frames(p: Option<&Probe>) -> (n: i64)
    ensures
        n == (match p {
            Some(p) => p.nb_frames,
            None => 0,
        }),
{
    match p {
        Some(p) => p.nb_frames,
        None => 0,
    }
}

/// `1` where there is video, else `0`.
pub fn chuks_ffmpeg_probe_has_video(p: Option<&Probe>) -> (n: i32)
    ensures
        n == (if p matches Some(p) && p.has_video {
            1i32
        } else {
            0i32
        }),
{
    match p {
        Some(p) => {
            if p.has_video {
                1
            } else {
                0
            }
        },
        None => 0,
    }
}

/// `1` where there is audio, else `0`.
pub fn chuks_ffmpeg_probe_has_audio(p: Option<&Probe>) -> (n: i32)
    ensures
        n == (if p matches Some(p) && p.has_audio {
            1i32
        } else {
            0i32
        }),
{
    match p {
        Some(p) => {
            if p.has_audio {
                1
            } else {
                0
            }
        },
        None => 0,
    }
}

/// The name of the video codec, empty where there is no video; `None` where
/// it cannot be a C string.
pub fn chuks_ffmpeg_probe_video_codec(p: Option<&Probe>) -> (r: Option<String>)
    ensures
        p is None ==> r is Some && r->0@ == Seq::<char>::empty(),
        p matches Some(p) ==> (r is Some <==> !p.video_codec@.contains('\0')),
        p matches Some(p) ==> (r is Some ==> r->0@ == p.video_codec@),
{
    match p {
        Some(p) => into_cstring(p.video_codec.clone()),
        None => into_cstring(String::new()),
    }
}

/// The name of the audio codec, empty where there is no audio; `None` where
/// it cannot be a C string.
pub fn chuks_ffmpeg_probe_audio_codec(p: Option<&Probe>) -> (r: Option<String>)
    ensures
        p is None ==> r is Some && r->0@ == Seq::<char>::empty(),
        p matches Some(p) ==> (r is Some <==> !p.audio_codec@.contains('\0')),
        p matches Some(p) ==> (r is Some ==> r->0@ == p.audio_codec@),
{
    match p {
        Some(p) => into_cstring(p.audio_codec.clone()),
        None => into_cstring(String::new()),
    }
}

} // verus!
