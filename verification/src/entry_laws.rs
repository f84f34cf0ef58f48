//! Which requests are refused, with which message, and what the accepted ones
//! ask for.
use crate::concat::ConcatBuilder;
use crate::probe::{AudioStreamFacts, Probe, VideoFacts};
use vstd::prelude::*;

verus! {

/// A request to transcode is accepted exactly where both paths and the encoder
/// are there; else the message names the first of them that is not.
pub proof fn law_transcode_needs_paths_and_encoder(
    input: Option<Seq<char>>,
    output: Option<Seq<char>>,
    encoder: Option<Seq<char>>,
)
    ensures
        ({
            let refusal = crate::transcode::transcode_refusal(input, output, encoder);
            &&& refusal is None <==> input is Some && output is Some && encoder is Some
            &&& input is None ==> refusal == Some("transcode: null in_path"@)
            &&& input is Some && output is None ==> refusal == Some("transcode: null out_path"@)
            &&& input is Some && output is Some && encoder is None ==> refusal == Some(
                "transcode: null encoder"@,
            )
        }),
{
}

/// Audio is encoded again for every codec that is named, but for none and for
/// `copy`.
pub proof fn law_audio_is_copied_unless_a_codec_is_named(codec: Seq<char>)
    ensures
        codec.len() == 0 ==> !crate::transcode::asks_reencode(codec),
        codec == seq!['c', 'o', 'p', 'y'] ==> !crate::transcode::asks_reencode(codec),
        codec.len() > 0 && codec != seq!['c', 'o', 'p', 'y'] ==> crate::transcode::asks_reencode(
            codec,
        ),
{
    reveal_strlit("copy");
    assert("copy"@ =~= seq!['c', 'o', 'p', 'y']);
}

/// A request to mux is accepted exactly where all three paths are there; else
/// the message names the first of them that is not.
pub proof fn law_mux_needs_three_paths(
    video: Option<Seq<char>>,
    audio: Option<Seq<char>>,
    output: Option<Seq<char>>,
)
    ensures
        ({
            let refusal = crate::mux::mux_refusal(video, audio, output);
            &&& refusal is None <==> video is Some && audio is Some && output is Some
            &&& video is None ==> refusal == Some("mux: null video path"@)
            &&& video is Some && audio is None ==> refusal == Some("mux: null audio path"@)
            &&& video is Some && audio is Some && output is None ==> refusal == Some(
                "mux: null out path"@,
            )
        }),
{
}

/// A request to join files is accepted exactly where there is a job with at
/// least one file, and a path for the output; else the message tells what is
/// missing.
pub proof fn law_concat_needs_files_and_a_path(
    b: Option<ConcatBuilder>,
    output: Option<Seq<char>>,
)
    ensures
        ({
            let refusal = crate::concat::concat_refusal(b, output);
            &&& refusal is None <==> b is Some && output is Some && b->0.inputs@.len() > 0
            &&& b is None ==> refusal == Some("concat_run: null builder"@)
            &&& b is Some && output is None ==> refusal == Some("concat_run: null out path"@)
            &&& b is Some && output is Some && b->0.inputs@.len() == 0 ==> refusal == Some(
                "concat_run: no input files added"@,
            )
            &&& b matches Some(job) ==> job@.len() == job.inputs@.len() && forall|i: int|
                0 <= i < job@.len() ==> #[trigger] job@[i] == job.inputs@[i]@
        }),
{
}

/// A frame is accepted exactly where there is data, each row of the given
/// stride holds the pixels of a row, three bytes each, and the bytes cover all
/// rows; a stride that is not positive means rows without padding. Else the
/// message tells why, with the numbers.
pub proof fn law_frame_must_cover_its_rows(
    width: u32,
    height: u32,
    has_data: bool,
    byte_len: i32,
    stride: i32,
)
    ensures
        ({
            let refusal = crate::writer::refusal(width, height, has_data, byte_len, stride);
            let row: int = 3 * width;
            let step: int = if stride > 0 {
                stride as int
            } else {
                row
            };
            &&& refusal is None <==> has_data && step >= row && byte_len >= step * height
            &&& !has_data ==> refusal == Some("venc_write: null writer/data"@)
            &&& has_data && step < row ==> refusal == Some(
                "venc_write: stride "@ + crate::text::decimal(step as nat) + " < width*3 "@
                    + crate::text::decimal(row as nat),
            )
            &&& has_data && step >= row && byte_len < step * height ==> refusal == Some(
                "venc_write: need "@ + crate::text::decimal((step * height) as nat)
                    + " bytes for "@ + crate::text::decimal(width as nat) + "x"@
                    + crate::text::decimal(height as nat) + " RGB24 (stride "@
                    + crate::text::decimal(step as nat) + "), got "@
                    + crate::text::signed_decimal(byte_len as int),
            )
            &&& crate::writer::row_bytes(width) == row
            &&& crate::writer::input_stride(width, stride) == step
        }),
{
    assert(3 * width >= 0);
}

/// An encoder family is used as it is named, and without one it is `h264`.
pub proof fn law_encoder_family_defaults_to_h264(encoder: Option<Seq<char>>)
    ensures
        encoder matches Some(f) ==> crate::writer::family_of(encoder) == f,
        encoder is None ==> crate::writer::family_of(encoder) == seq!['h', '2', '6', '4'],
{
    reveal_strlit("h264");
    assert("h264"@ =~= seq!['h', '2', '6', '4']);
}

/// What is known of a file is what its streams say: size, codec, frames and
/// rate of the video, and codec, rate and channels of the audio, each passed
/// on unchanged; a rate with the denominator zero is none.
pub proof fn law_probe_passes_on_what_streams_say(
    p: Probe,
    video: Option<VideoFacts>,
    audio: Option<AudioStreamFacts>,
)
    requires
        crate::probe::describes_video(p, video),
        crate::probe::describes_audio(p, audio),
    ensures
        p.has_video <==> video is Some,
        p.has_audio <==> audio is Some,
        video matches Some(v) ==> p.width == v.width && p.height == v.height && p.nb_frames
            == v.frames && p.video_codec@ == v.codec@,
        video matches Some(v) ==> (v.average_rate.den != 0 ==> p.fps == Some(v.average_rate)),
        video matches Some(v) ==> (v.average_rate.den == 0 ==> p.fps is None),
        audio matches Some(a) ==> p.sample_rate == a.sample_rate && p.channels == a.channels
            && p.audio_codec@ == a.codec@,
        video is None ==> p.width == 0 && p.height == 0 && p.nb_frames == 0 && p.fps is None
            && p.video_codec@.len() == 0,
        audio is None ==> p.sample_rate == 0 && p.channels == 0 && p.audio_codec@.len() == 0,
{
}

} // verus!
