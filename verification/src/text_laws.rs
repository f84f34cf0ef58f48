//! What texts, rates and messages mean, in terms of what went into them.
use crate::media::{PixelFormat, Rational};
use crate::session::SessionView;
use vstd::prelude::*;
use vstd::utf8::*;

verus! {

/// The number that a text of decimal digits stands for.
pub open spec fn number(text: Seq<char>) -> int
    decreases text.len(),
{
    if text.len() == 0 {
        0
    } else {
        number(text.drop_last()) * 10 + (text.last() as int - '0' as int)
    }
}

/// Whether a text holds nothing but digits.
pub open spec fn all_digits(text: Seq<char>) -> bool {
    forall|i: int| 0 <= i < text.len() ==> '0' <= #[trigger] text[i] <= '9'
}

proof fn lemma_digit(d: nat)
    requires
        d < 10,
    ensures
        crate::text::digit(d).len() == 1,
        crate::text::digit(d)[0] as int == '0' as int + d,
        '0' <= crate::text::digit(d)[0] <= '9',
{
    reveal_strlit("0");
    reveal_strlit("1");
    reveal_strlit("2");
    reveal_strlit("3");
    reveal_strlit("4");
    reveal_strlit("5");
    reveal_strlit("6");
    reveal_strlit("7");
    reveal_strlit("8");
    reveal_strlit("9");
}

/// A decimal reads back as the number that it was made of; it holds digits
/// only, and none of them is a leading zero.
pub proof fn law_decimal_reads_back(n: nat)
    ensures
        number(crate::text::decimal(n)) == n,
        all_digits(crate::text::decimal(n)),
        crate::text::decimal(n).len() > 0,
        n > 0 ==> crate::text::decimal(n)[0] != '0',
        n < 10 ==> crate::text::decimal(n).len() == 1,
    decreases n,
{
    lemma_digit(n % 10);
    let d = crate::text::digit(n % 10);
    if n < 10 {
        assert(d.drop_last() =~= Seq::<char>::empty());
        assert(number(d.drop_last()) == 0);
        assert(n % 10 == n);
    } else {
        law_decimal_reads_back(n / 10);
        let front = crate::text::decimal(n / 10);
        assert((front + d).drop_last() =~= front);
        assert((front + d).last() == d[0]);
    }
}

/// A signed decimal is the decimal of its absolute value, behind a minus sign
/// where it is negative.
pub proof fn law_signed_decimal_reads_back(n: int)
    ensures
        n >= 0 ==> number(crate::text::signed_decimal(n)) == n && all_digits(
            crate::text::signed_decimal(n),
        ),
        n < 0 ==> crate::text::signed_decimal(n)[0] == '-' && number(
            crate::text::signed_decimal(n).skip(1),
        ) == -n && all_digits(crate::text::signed_decimal(n).skip(1)),
{
    if n < 0 {
        reveal_strlit("-");
        law_decimal_reads_back((-n) as nat);
        let digits = crate::text::decimal((-n) as nat);
        assert(("-"@ + digits).skip(1) =~= digits);
    } else {
        law_decimal_reads_back(n as nat);
    }
}

/// An argument is present exactly where there is a pointer to UTF-8, and then
/// is the text that the bytes encode.
pub proof fn law_argument_is_its_text(p: Option<&[u8]>)
    ensures
        p is None ==> crate::text::arg(p) is None,
        p matches Some(b) ==> (crate::text::arg(p) is Some <==> valid_utf8(b@)),
        p matches Some(b) ==> (valid_utf8(b@) ==> crate::text::arg(p)->0 == decode_utf8(b@)),
{
}

/// An optional string is present with its text, and an optional text counts
/// as empty where it is absent.
pub proof fn law_optional_texts(s: Option<String>, t: Option<Seq<char>>)
    ensures
        crate::text::text_of(s) is Some <==> s is Some,
        s matches Some(x) ==> crate::text::text_of(s) == Some(x@),
        t matches Some(x) ==> crate::reader::or_empty(t) == x,
        t is None ==> crate::reader::or_empty(t).len() == 0,
{
}

/// An error replaces the last error alone, and a choice of encoder the last
/// encoder alone.
pub proof fn law_session_remembers_one_thing_at_a_time(s: SessionView, text: Seq<char>)
    ensures
        s.failed_with(text).last_err == text,
        s.failed_with(text).last_venc == s.last_venc,
        s.chose(text).last_venc == text,
        s.chose(text).last_err == s.last_err,
{
}

/// The message of a failed operation is its name, a colon, a blank and the
/// error.
pub proof fn law_message_names_its_operation(op: Seq<char>, e: Seq<char>)
    ensures
        ({
            let m = crate::session::prefixed(op, e);
            &&& m.len() == op.len() + 2 + e.len()
            &&& m.take(op.len() as int) == op
            &&& m[op.len() as int] == ':'
            &&& m[op.len() + 1int] == ' '
            &&& m.skip(op.len() + 2int) == e
        }),
{
    reveal_strlit(": ");
    let m = crate::session::prefixed(op, e);
    assert(m.take(op.len() as int) =~= op);
    assert(m.skip(op.len() + 2int) =~= e);
}

/// A frame rate of positive parts is used as it is, and any other counts as
/// thirty frames a second.
pub proof fn law_usable_rate_is_kept(r: Rational)
    ensures
        r.num > 0 && r.den > 0 ==> r.usable_rate() == r,
        r.num <= 0 || r.den <= 0 ==> r.usable_rate().num == 30 && r.usable_rate().den == 1,
        r.usable_rate().num > 0 && r.usable_rate().den > 0,
        r.is_positive() <==> r.num > 0 && r.den > 0,
{
}

/// A reciprocal has the parts of a ratio the other way round: their product
/// is one.
pub proof fn law_reciprocal_undoes_itself(r: Rational)
    ensures
        r.inverse().num == r.den,
        r.inverse().den == r.num,
        r.inverse().inverse() == r,
{
}

/// The pixel formats go by different names.
pub proof fn law_pixel_formats_are_named()
    ensures
        PixelFormat::Rgb24.text() == seq!['r', 'g', 'b', '2', '4'],
        PixelFormat::Yuv420p.text() == seq!['y', 'u', 'v', '4', '2', '0', 'p'],
{
    reveal_strlit("rgb24");
    reveal_strlit("yuv420p");
    assert("rgb24"@ =~= seq!['r', 'g', 'b', '2', '4']);
    assert("yuv420p"@ =~= seq!['y', 'u', 'v', '4', '2', '0', 'p']);
}

/// A layout of one or two channels goes by its name, and any other by the
/// number of its channels.
pub proof fn law_layout_tells_its_channels(channels: u16)
    ensures
        ({
            let name = crate::graph::layout_name(channels);
            &&& channels == 1 ==> name == "mono"@
            &&& channels == 2 ==> name == "stereo"@
            &&& channels != 1 && channels != 2 ==> {
                &&& name.last() == 'c'
                &&& all_digits(name.drop_last())
                &&& number(name.drop_last()) == channels
            }
        }),
{
    reveal_strlit("c");
    law_decimal_reads_back(channels as nat);
    let digits = crate::text::decimal(channels as nat);
    assert((digits + "c"@).drop_last() =~= digits);
}

/// A ratio is written as its numerator, a slash and its denominator.
pub proof fn law_ratio_shows_both_parts(r: Rational)
    ensures
        ({
            let num = crate::text::signed_decimal(r.num as int);
            let text = crate::graph::ratio(r);
            &&& text.take(num.len() as int) == num
            &&& text[num.len() as int] == '/'
            &&& text.skip(num.len() + 1int) == crate::text::signed_decimal(r.den as int)
        }),
{
    reveal_strlit("/");
    let num = crate::text::signed_decimal(r.num as int);
    let den = crate::text::signed_decimal(r.den as int);
    let text = crate::graph::ratio(r);
    assert(text.take(num.len() as int) =~= num);
    assert(text.skip(num.len() + 1int) =~= den);
}

/// An audio source is told the time base, the rate, the sample format and the
/// layout, each behind its key.
pub proof fn law_audio_source_tells_everything(
    time_base: Seq<char>,
    rate: u32,
    format: Seq<char>,
    channels: u16,
)
    ensures
        ({
            let text = crate::graph::audio_source(time_base, rate, format, channels);
            let head = "time_base="@ + time_base + ":sample_rate="@;
            let digits = crate::text::decimal(rate as nat);
            let tail = ":sample_fmt="@ + format + ":channel_layout="@ + crate::graph::layout_name(
                channels,
            );
            text == head + digits + tail
        }),
{
    let text = crate::graph::audio_source(time_base, rate, format, channels);
    let head = "time_base="@ + time_base + ":sample_rate="@;
    let digits = crate::text::decimal(rate as nat);
    let tail = ":sample_fmt="@ + format + ":channel_layout="@ + crate::graph::layout_name(
        channels,
    );
    assert(text =~= head + digits + tail);
}

/// A video source is told the size, the pixel format, the time base and the
/// frame rate, each behind its key, and square pixels.
pub proof fn law_video_source_tells_everything(
    width: u32,
    height: u32,
    format: Seq<char>,
    time_base: Rational,
    rate: Rational,
)
    ensures
        ({
            let text = crate::graph::video_source(width, height, format, time_base, rate);
            let size = "width="@ + crate::text::decimal(width as nat) + ":height="@
                + crate::text::decimal(height as nat);
            let times = ":time_base="@ + crate::graph::ratio(time_base)
                + ":pixel_aspect=1/1:frame_rate="@ + crate::graph::ratio(rate);
            text == size + (":pix_fmt="@ + format) + times
        }),
{
    let text = crate::graph::video_source(width, height, format, time_base, rate);
    let size = "width="@ + crate::text::decimal(width as nat) + ":height="@ + crate::text::decimal(
        height as nat,
    );
    let times = ":time_base="@ + crate::graph::ratio(time_base) + ":pixel_aspect=1/1:frame_rate="@
        + crate::graph::ratio(rate);
    assert(text =~= size + (":pix_fmt="@ + format) + times);
}

/// A video graph ends in the conversion to the pixel format of the output,
/// and what comes before it is what was asked for, with a comma behind it.
pub proof fn law_video_graph_ends_in_the_output_format(spec: Seq<char>, out: Seq<char>)
    ensures
        ({
            let text = crate::graph::video_chain(spec, out);
            let last = "format="@ + out;
            let before = text.len() - last.len();
            &&& before >= 0
            &&& text.skip(before) == last
            &&& spec.len() == 0 ==> before == 0
            &&& spec.len() > 0 ==> text.take(before) == spec.push(',')
        }),
{
    reveal_strlit("format=");
    reveal_strlit(",format=");
    let text = crate::graph::video_chain(spec, out);
    let last = "format="@ + out;
    let before = text.len() - last.len();
    assert(text.skip(before) =~= last);
    if spec.len() > 0 {
        assert(text.take(before) =~= spec.push(','));
    }
}

/// The packed sample formats are `dbl` for the code one and `flt` for every
/// other.
pub proof fn law_sample_format_follows_the_code(fmt: i32)
    ensures
        fmt == 1 ==> crate::graph::sample_format_name(fmt) == "dbl"@,
        fmt != 1 ==> crate::graph::sample_format_name(fmt) == "flt"@,
        crate::audio::format_of(fmt) == (if fmt == 1 {
            1i32
        } else {
            0i32
        }),
        crate::audio::TARGET_RATE == 16000,
{
}

} // verus!
