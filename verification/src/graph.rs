//! How filter graphs are described to the media libraries. Formats and
//! channel layouts are given by name.
use crate::audio::{CHUKS_FMT_DOUBLE, TARGET_RATE};
use crate::media::{PixelFormat, Rational};
use crate::text::{push_decimal, push_signed};
use vstd::prelude::*;

verus! {

/// The name of a channel layout: mono, stereo, or the number of channels.
pub open spec fn layout_name(channels: u16) -> Seq<char> {
    if channels == 1 {
        "mono"@
    } else if channels == 2 {
        "stereo"@
    } else {
        crate::text::decimal(channels as nat) + "c"@
    }
}

/// The text of a ratio.
pub open spec fn ratio(r: Rational) -> Seq<char> {
    crate::text::signed_decimal(r.num as int) + "/"@ + crate::text::signed_decimal(r.den as int)
}

/// The arguments of an audio source whose time base has the text `time_base`.
pub open spec fn audio_source(
    time_base: Seq<char>,
    rate: u32,
    format: Seq<char>,
    channels: u16,
) -> Seq<char> {
    "time_base="@ + time_base + ":sample_rate="@ + crate::text::decimal(rate as nat)
        + ":sample_fmt="@ + format + ":channel_layout="@ + layout_name(channels)
}

/// The name of the packed sample format of that code.
pub open spec fn sample_format_name(fmt: i32) -> Seq<char> {
    if fmt == CHUKS_FMT_DOUBLE {
        "dbl"@
    } else {
        "flt"@
    }
}

/// The arguments of a video source.
pub open spec fn video_source(
    width: u32,
    height: u32,
    pixel_format: Seq<char>,
    time_base: Rational,
    rate: Rational,
) -> Seq<char> {
    "width="@ + crate::text::decimal(width as nat) + ":height="@ + crate::text::decimal(
        height as nat,
    ) + ":pix_fmt="@ + pixel_format + ":time_base="@ + ratio(time_base)
        + ":pixel_aspect=1/1:frame_rate="@ + ratio(rate)
}

/// The filters of a video graph: those that are asked for, and then the
/// conversion to the pixel format of the output.
pub open spec fn video_chain(spec: Seq<char>, out_pix: Seq<char>) -> Seq<char> {
    if spec.len() == 0 {
        "format="@ + out_pix
    } else {
        spec + ",format="@ + out_pix
    }
}

/// A graph from one source to one sink.
pub struct GraphPlan {
    /// The arguments of the source.
    pub source: String,
    /// The filters between source and sink.
    pub chain: String,
}

/// A graph from one audio source to one sink that gives what an encoder takes.
pub struct AudioGraphPlan {
    /// The arguments of the source.
    pub source: String,
    /// The filters between source and sink.
    pub chain: String,
    /// The sample format that the sink is bound to.
    pub sink_format: String,
    /// The channels of the layout that the sink is bound to.
    pub sink_channels: u16,
    /// The sample rate that the sink is bound to.
    pub sink_rate: u32,
    /// How many samples each frame of the sink holds, where that is fixed.
    pub frame_size: Option<u32>,
}

fn push_ratio(out: &mut String, r: Rational)
    ensures
        final(out)@ == old(out)@ + ratio(r),
{
    push_signed(out, r.num as i64);
    out.append("/");
    push_signed(out, r.den as i64);
    assert(out@ =~= old(out)@ + ratio(r));
}

fn push_layout(out: &mut String, channels: u16)
    ensures
        final(out)@ == old(out)@ + layout_name(channels),
{
    if channels == 1 {
        out.append("mono");
    } else if channels == 2 {
        out.append("stereo");
    } else {
        push_decimal(out, channels as u64);
        out.append("c");
        assert(out@ =~= old(out)@ + layout_name(channels));
    }
}

/// Appends what follows the time base in the arguments of an audio source.
fn push_audio_format(out: &mut String, rate: u32, format: &str, channels: u16)
    ensures
        final(out)@ == old(out)@ + ":sample_rate="@ + crate::text::decimal(rate as nat)
            + ":sample_fmt="@ + format@ + ":channel_layout="@ + layout_name(channels),
{
    out.append(":sample_rate=");
    push_decimal(out, rate as u64);
    out.append(":sample_fmt=");
    out.append(format);
    out.append(":channel_layout=");
    push_layout(out, channels);
}

/// The graph of the audio tap, for a decoder of that rate, sample format and
/// number of channels: one tick for each sample at its source, and packed
/// mono samples at the target rate, in the format of code `fmt`, at its sink.
pub fn build_tap_filter(rate: u32, format: &str, channels: u16, fmt: i32) -> (g: GraphPlan)
    ensures
        g.source@ == audio_source(
            "1/"@ + crate::text::decimal(rate as nat),
            rate,
            format@,
            channels,
        ),
        g.chain@ == "aresample="@ + crate::text::decimal(TARGET_RATE as nat)
            + ",aformat=sample_fmts="@ + sample_format_name(fmt) + ":channel_layouts=mono"@,
{
    let mut source: String = "time_base=".to_string();
    source.append("1/");
    push_decimal(&mut source, rate as u64);
    push_audio_format(&mut source, rate, format, channels);
    assert(source@ =~= audio_source(
        "1/"@ + crate::text::decimal(rate as nat),
        rate,
        format@,
        channels,
    ));
    let mut chain: String = "aresample=".to_string();
    push_decimal(&mut chain, TARGET_RATE as u64);
    chain.append(",aformat=sample_fmts=");
    if fmt == CHUKS_FMT_DOUBLE {
        chain.append("dbl");
    } else {
        chain.append("flt");
    }
    chain.append(":channel_layouts=mono");
    GraphPlan { source, chain }
}

/// The graph between an audio decoder, whose stream has that time base, and
/// an audio encoder. The sink is bound to the sample format, the layout and
/// the rate of the encoder, and gives frames of the encoder's size, unless it
/// takes frames of any size.
pub fn build_audio_filter(
    in_tb: Rational,
    rate: u32,
    format: &str,
    channels: u16,
    enc_format: &str,
    enc_channels: u16,
    enc_rate: u32,
    variable_frame_size: bool,
    encoder_frame_size: u32,
) -> (g: AudioGraphPlan)
    ensures
        g.source@ == audio_source(ratio(in_tb), rate, format@, channels),
        g.chain@ == "anull"@,
        g.sink_format@ == enc_format@,
        g.sink_channels == enc_channels,
        g.sink_rate == enc_rate,
        g.frame_size == (if variable_frame_size {
            None
        } else {
            Some(encoder_frame_size)
        }),
{
    let mut source: String = "time_base=".to_string();
    push_ratio(&mut source, in_tb);
    push_audio_format(&mut source, rate, format, channels);
    AudioGraphPlan {
        source,
        chain: "anull".to_string(),
        sink_format: enc_format.to_string(),
        sink_channels: enc_channels,
        sink_rate: enc_rate,
        frame_size: if variable_frame_size {
            None
        } else {
            Some(encoder_frame_size)
        },
    }
}

/// The graph for decoded frames of that size and pixel format: the filters of
/// `spec`, if any, and then the conversion to `out_pix`. A pixel format
/// without a name is taken for `yuv420p`.
pub fn build_video_filter(
    width: u32,
    height: u32,
    pixel_format: Option<&str>,
    spec: &str,
    out_pix: PixelFormat,
    time_base: Rational,
    frame_rate: Rational,
) -> (g: GraphPlan)
    ensures
        g.source@ == video_source(
            width,
            height,
            match pixel_format {
                Some(p) => p@,
                None => "yuv420p"@,
            },
            time_base,
            frame_rate,
        ),
        g.chain@ == video_chain(spec@, out_pix.text()),
{
    let pix: &str = match pixel_format {
        Some(p) => p,
        None => "yuv420p",
    };
    let mut source: String = "width=".to_string();
    push_decimal(&mut source, width as u64);
    source.append(":height=");
    push_decimal(&mut source, height as u64);
    source.append(":pix_fmt=");
    source.append(pix);
    source.append(":time_base=");
    push_ratio(&mut source, time_base);
    source.append(":pixel_aspect=1/1:frame_rate=");
    push_ratio(&mut source, frame_rate);
    let mut chain: String = String::new();
    if spec.is_empty() {
        chain.append("format=");
        chain.append(out_pix.name());
        assert(chain@ =~= video_chain(spec@, out_pix.text()));
    } else {
        chain.append(spec);
        chain.append(",format=");
        chain.append(out_pix.name());
        assert(chain@ =~= video_chain(spec@, out_pix.text()));
    }
    GraphPlan { source, chain }
}

} // verus!
