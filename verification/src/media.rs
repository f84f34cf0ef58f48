//! The plain values that stand for what the media libraries report: time
//! bases, frame rates, failures, and how a packet is prepared for a muxer.
use vstd::prelude::*;

verus! {

/// A ratio of two integers: a time base in seconds, or a rate per second.
#[derive(Clone, Copy, Debug, PartialEq, Eq, Structural)]
pub struct Rational {
    pub num: i32,
    pub den: i32,
}

impl Rational {
    /// Whether both parts are positive.
    pub open spec fn is_positive(self) -> bool {
        self.num > 0 && self.den > 0
    }

    /// The ratio itself where it is a usable frame rate, and thirty frames a
    /// second where not.
    pub open spec fn usable_rate(self) -> Rational {
        if self.is_positive() {
            self
        } else {
            Rational { num: 30, den: 1 }
        }
    }

    /// The reciprocal.
    pub open spec fn inverse(self) -> Rational {
        Rational { num: self.den, den: self.num }
    }

    /// The ratio of `num` to `den`.
    pub fn new(num: i32, den: i32) -> (r: Rational)
        ensures
            r == (Rational { num, den }),
    {
        Rational { num, den }
    }

    /// The reciprocal.
    pub fn invert(&self) -> (r: Rational)
        ensures
            r == self.inverse(),
    {
        Rational { num: self.den, den: self.num }
    }
}

/// `r` where both of its parts are positive, else thirty frames a second.
pub fn frame_rate_or_default(r: Rational) -> (rate: Rational)
    ensures
        rate == r.usable_rate(),
{
    if r.num > 0 && r.den > 0 {
        r
    } else {
        Rational { num: 30, den: 1 }
    }
}

/// How the pixels of a frame are laid out.
#[derive(Clone, Copy, Debug, PartialEq, Eq, Structural)]
pub enum PixelFormat {
    /// Packed red, green and blue, three bytes for each pixel.
    Rgb24,
    /// Planar luma with chroma at half the size.
    Yuv420p,
}

impl PixelFormat {
    /// The name that the media libraries know the format by.
    pub open spec fn text(self) -> Seq<char> {
        match self {
            PixelFormat::Rgb24 => "rgb24"@,
            PixelFormat::Yuv420p => "yuv420p"@,
        }
    }

    /// The name that the media libraries know the format by.
    pub fn name(&self) -> (s: &'static str)
        ensures
            s@ == self.text(),
    {
        match self {
            PixelFormat::Rgb24 => "rgb24",
            PixelFormat::Yuv420p => "yuv420p",
        }
    }
}

/// A conversion of frames from one pixel format to another, which keeps their
/// size. Without a source format it takes that of the frame.
#[derive(Clone, Copy, Debug, PartialEq, Eq, Structural)]
pub struct ScalePlan {
    pub width: u32,
    pub height: u32,
    pub from: Option<PixelFormat>,
    pub to: PixelFormat,
}

/// Why a job ended without a result.
#[derive(Clone, Copy, Debug, PartialEq, Eq, Structural)]
pub enum Failure {
    /// The input holds no stream of the wanted kind.
    StreamNotFound,
    /// No encoder of that name, or none with a sample format, is built in.
    EncoderNotFound,
    /// A call into the media libraries failed.
    Engine,
    /// The caller answered a task with something that is no answer to it.
    Protocol,
}

/// What the container says of a video stream.
#[derive(Clone, Copy, Debug, PartialEq, Eq, Structural)]
pub struct VideoPick {
    pub index: usize,
    pub time_base: Rational,
    pub rate: Rational,
}

/// What the container says of a stream of any other kind.
#[derive(Clone, Copy, Debug, PartialEq, Eq, Structural)]
pub struct StreamPick {
    pub index: usize,
    pub time_base: Rational,
}

/// How a packet is prepared before it is handed to the muxer: its stream, its
/// duration where it is set, the time bases that its timestamps are rescaled
/// between, and whether its byte position in the source is forgotten.
#[derive(Clone, Copy, Debug, PartialEq, Eq, Structural)]
pub struct PacketStamp {
    pub stream: usize,
    pub duration: Option<i64>,
    pub from: Rational,
    pub to: Rational,
    pub forget_position: bool,
}

} // verus!
