//! The audio tap: decoding the best audio stream of a file to one packed
//! buffer of 16 kHz mono samples.
//!
//! Samples are floating-point numbers to the caller and bits here: a buffer
//! holds the bits of 32-bit or of 64-bit floats, and nothing looks inside.
use crate::media::Failure;
use crate::session::{set_err, set_op_err, Session};
use crate::text::cstr;
use vstd::prelude::*;

verus! {

/// The format code of 32-bit samples.
pub const CHUKS_FMT_SINGLE: i32 = 0;

/// The format code of 64-bit samples.
pub const CHUKS_FMT_DOUBLE: i32 = 1;

/// The rate of the decoded samples, in hertz.
pub const TARGET_RATE: u32 = 16000;

/// The decoded samples. The format tells which of the two buffers is in use.
pub struct AudioBuf {
    pub fmt: i32,
    pub singles: Vec<u32>,
    pub doubles: Vec<u64>,
}

/// What an [`AudioBuf`] holds.
#[verifier::ext_equal]
pub struct AudioBufView {
    pub fmt: i32,
    pub singles: Seq<u32>,
    pub doubles: Seq<u64>,
}

impl View for AudioBuf {
    type V = AudioBufView;

    open spec fn view(&self) -> AudioBufView {
        AudioBufView { fmt: self.fmt, singles: self.singles@, doubles: self.doubles@ }
    }
}

/// The first plane of an audio frame: how many samples the frame counts, and
/// the bits of the plane, read as the format of the buffer asks for.
pub struct PcmPlane {
    pub samples: usize,
    pub singles: Vec<u32>,
    pub doubles: Vec<u64>,
}

/// The samples of a buffer, borrowed.
pub enum PcmRef<'a> {
    Singles(&'a [u32]),
    Doubles(&'a [u64]),
}

/// The format that a format code stands for: any unexpected code stands for
/// 32-bit samples.
pub open spec fn format_of(fmt: i32) -> i32 {
    if fmt == CHUKS_FMT_DOUBLE {
        CHUKS_FMT_DOUBLE
    } else {
        CHUKS_FMT_SINGLE
    }
}

impl AudioBufView {
    /// A buffer without samples.
    pub open spec fn empty(fmt: i32) -> AudioBufView {
        AudioBufView { fmt, singles: Seq::empty(), doubles: Seq::empty() }
    }

    /// The number of samples in the buffer that is in use.
    pub open spec fn count(self) -> nat {
        if self.fmt == CHUKS_FMT_DOUBLE {
            self.doubles.len()
        } else {
            self.singles.len()
        }
    }

    /// The same buffer, with the samples of a plane behind its own.
    pub open spec fn appended(self, plane: PcmPlane) -> AudioBufView {
        if plane.samples == 0 {
            self
        } else if self.fmt == CHUKS_FMT_DOUBLE {
            AudioBufView { doubles: self.doubles + plane.doubles@, ..self }
        } else {
            AudioBufView { singles: self.singles + plane.singles@, ..self }
        }
    }
}

/// The format that a format code stands for.
pub fn normalize_format(fmt: i32) -> (f: i32)
    ensures
        f == format_of(fmt),
{
    if fmt == CHUKS_FMT_DOUBLE {
        CHUKS_FMT_DOUBLE
    } else {
        CHUKS_FMT_SINGLE
    }
}

impl AudioBuf {
    /// A buffer without samples.
    pub fn new(fmt: i32) -> (b: AudioBuf)
        ensures
            b@ == AudioBufView::empty(fmt),
    {
        AudioBuf { fmt, singles: Vec::new(), doubles: Vec::new() }
    }

    /// The number of samples.
    pub fn len(&self) -> (n: i64)
        ensures
            n == self@.count() as i64,
    {
        if self.fmt == CHUKS_FMT_DOUBLE {
            #[verifier::truncate]
            (self.doubles.len() as i64)
        } else {
            #[verifier::truncate]
            (self.singles.len() as i64)
        }
    }
}

/// Appends the samples of a plane in the format of the buffer. A frame that
/// counts no samples adds none.
pub fn append_samples(out: &mut AudioBuf, plane: &PcmPlane)
    ensures
        final(out)@ == old(out)@.appended(*plane),
{
    if plane.samples == 0 {
        return;
    }
    if out.fmt == CHUKS_FMT_DOUBLE {
        out.doubles.extend_from_slice(plane.doubles.as_slice());
        assert(out.doubles@ =~= old(out).doubles@ + plane.doubles@);
    } else {
        out.singles.extend_from_slice(plane.singles.as_slice());
        assert(out.singles@ =~= old(out).singles@ + plane.singles@);
    }
}

/// The work that a tap waits for.
#[derive(Clone, Copy, Debug, PartialEq, Eq, Structural)]
pub enum TapTask {
    /// Open the input file.
    OpenInput,
    /// Name the best audio stream.
    PickStream,
    /// Open a decoder for it.
    OpenDecoder,
    /// Build the graph that resamples what the decoder gives.
    BuildGraph,
    /// Read the next packet of the input.
    Read,
    /// Send the packet that was read to the decoder.
    SendPacket,
    /// Tell the decoder that the input has ended.
    SendEof,
    /// Ask the decoder for a frame.
    Receive,
    /// Feed the decoded frame to the graph.
    Feed,
    /// Tell the graph that its input has ended.
    Flush,
    /// Ask the graph for a frame.
    Pull,
    /// The samples are complete.
    Finished,
    /// The tap is over, without samples.
    Failed(Failure),
}

/// The answer to a [`TapTask`].
pub enum TapReply {
    /// It was done.
    Done,
    /// The call failed.
    Failed,
    /// The number of the best stream, where there is one.
    Picked(Option<usize>),
    /// A packet of the stream of that number was read.
    Packet(usize),
    /// There are no more packets.
    End,
    /// Whether the decoder gave a frame.
    Got(bool),
    /// The graph gave a frame with this first plane.
    Frame(PcmPlane),
    /// The graph has no frame ready.
    Nothing,
}

/// What a tap knows between two tasks, besides the samples.
#[derive(Clone, Copy, Debug, PartialEq, Eq, Structural)]
pub struct TapState {
    pub task: TapTask,
    pub stream_index: usize,
    /// The decoder has been told of the end.
    pub eof: bool,
    /// The graph has been told of the end.
    pub flushed: bool,
}

impl TapState {
    /// A tap that has not begun.
    pub open spec fn fresh() -> TapState {
        TapState { task: TapTask::OpenInput, stream_index: 0, eof: false, flushed: false }
    }

    /// The same tap, waiting for another task.
    pub open spec fn at(self, task: TapTask) -> TapState {
        TapState { task, ..self }
    }

    /// The end of a tap whose task was answered with `reply` to no avail.
    pub open spec fn broken(self, reply: TapReply) -> TapState {
        self.at(
            TapTask::Failed(
                if reply is Failed {
                    Failure::Engine
                } else {
                    Failure::Protocol
                },
            ),
        )
    }

    /// What follows a task that either succeeds, and then leads to `next`, or
    /// fails.
    pub open spec fn either(self, reply: TapReply, next: TapState) -> TapState {
        if reply is Done {
            next
        } else {
            self.broken(reply)
        }
    }

    /// The tap after its task was answered with `reply`.
    pub open spec fn after(self, reply: TapReply) -> TapState {
        match self.task {
            TapTask::OpenInput => self.either(reply, self.at(TapTask::PickStream)),
            TapTask::PickStream => match reply {
                TapReply::Picked(Some(stream_index)) => TapState {
                    stream_index,
                    ..self
                }.at(TapTask::OpenDecoder),
                TapReply::Picked(None) => self.at(TapTask::Failed(Failure::StreamNotFound)),
                _ => self.broken(reply),
            },
            TapTask::OpenDecoder => self.either(reply, self.at(TapTask::BuildGraph)),
            TapTask::BuildGraph => self.either(reply, self.at(TapTask::Read)),
            TapTask::Read => match reply {
                TapReply::Packet(index) => if index == self.stream_index {
                    self.at(TapTask::SendPacket)
                } else {
                    self
                },
                TapReply::End => self.at(TapTask::SendEof),
                _ => self.broken(reply),
            },
            TapTask::SendPacket => self.either(reply, self.at(TapTask::Receive)),
            TapTask::SendEof => self.either(
                reply,
                TapState { eof: true, ..self }.at(TapTask::Receive),
            ),
            TapTask::Receive => match reply {
                TapReply::Got(true) => self.at(TapTask::Feed),
                TapReply::Got(false) => self.at(
                    if self.eof {
                        TapTask::Flush
                    } else {
                        TapTask::Read
                    },
                ),
                _ => self.broken(reply),
            },
            TapTask::Feed => self.either(reply, self.at(TapTask::Pull)),
            TapTask::Flush => self.either(
                reply,
                TapState { flushed: true, ..self }.at(TapTask::Pull),
            ),
            TapTask::Pull => match reply {
                TapReply::Frame(_) => self,
                TapReply::Nothing => self.at(
                    if self.flushed {
                        TapTask::Finished
                    } else {
                        TapTask::Receive
                    },
                ),
                _ => self.broken(reply),
            },
            TapTask::Finished => self,
            TapTask::Failed(_) => self,
        }
    }

    fn to(self, task: TapTask) -> (next: TapState)
        ensures
            next == self.at(task),
    {
        TapState { task, ..self }
    }

    fn fail(self, reply: &TapReply) -> (next: TapState)
        ensures
            next == self.broken(*reply),
    {
        match reply {
            TapReply::Failed => self.to(TapTask::Failed(Failure::Engine)),
            _ => self.to(TapTask::Failed(Failure::Protocol)),
        }
    }

    fn settle(self, reply: &TapReply, next: TapState) -> (r: TapState)
        ensures
            r == self.either(*reply, next),
    {
        match reply {
            TapReply::Done => next,
            _ => self.fail(reply),
        }
    }

    fn next(self, reply: &TapReply) -> (r: TapState)
        ensures
            r == self.after(*reply),
    {
        match self.task {
            TapTask::OpenInput => self.settle(reply, self.to(TapTask::PickStream)),
            TapTask::PickStream => match reply {
                TapReply::Picked(Some(stream_index)) => {
                    let picked: TapState = TapState { stream_index: *stream_index, ..self };
                    picked.to(TapTask::OpenDecoder)
                },
                TapReply::Picked(None) => self.to(TapTask::Failed(Failure::StreamNotFound)),
                _ => self.fail(reply),
            },
            TapTask::OpenDecoder => self.settle(reply, self.to(TapTask::BuildGraph)),
            TapTask::BuildGraph => self.settle(reply, self.to(TapTask::Read)),
            TapTask::Read => match reply {
                TapReply::Packet(index) => {
                    if *index == self.stream_index {
                        self.to(TapTask::SendPacket)
                    } else {
                        self
                    }
                },
                TapReply::End => self.to(TapTask::SendEof),
                _ => self.fail(reply),
            },
            TapTask::SendPacket => self.settle(reply, self.to(TapTask::Receive)),
            TapTask::SendEof => {
                self.settle(reply, TapState { eof: true, ..self }.to(TapTask::Receive))
            },
            TapTask::Receive => match reply {
                TapReply::Got(true) => self.to(TapTask::Feed),
                TapReply::Got(false) => {
                    if self.eof {
                        self.to(TapTask::Flush)
                    } else {
                        self.to(TapTask::Read)
                    }
                },
                _ => self.fail(reply),
            },
            TapTask::Feed => self.settle(reply, self.to(TapTask::Pull)),
            TapTask::Flush => {
                self.settle(reply, TapState { flushed: true, ..self }.to(TapTask::Pull))
            },
            TapTask::Pull => match reply {
                TapReply::Frame(_) => self,
                TapReply::Nothing => {
                    if self.flushed {
                        self.to(TapTask::Finished)
                    } else {
                        self.to(TapTask::Receive)
                    }
                },
                _ => self.fail(reply),
            },
            TapTask::Finished => self,
            TapTask::Failed(_) => self,
        }
    }
}

/// A tap, between two tasks.
pub struct AudioTap {
    pub state: TapState,
    pub buf: AudioBuf,
}

/// The samples of a tap after its task was answered: a frame that the graph
/// was asked for is appended, and nothing else touches them.
pub open spec fn collected(state: TapState, buf: AudioBufView, reply: TapReply) -> AudioBufView {
    match (state.task, reply) {
        (TapTask::Pull, TapReply::Frame(plane)) => buf.appended(plane),
        _ => buf,
    }
}

impl AudioTap {
    /// A tap for samples of that format.
    pub fn new(fmt: i32) -> (tap: AudioTap)
        ensures
            tap.state == TapState::fresh(),
            tap.buf@ == AudioBufView::empty(format_of(fmt)),
    {
        let state: TapState = TapState {
            task: TapTask::OpenInput,
            stream_index: 0,
            eof: false,
            flushed: false,
        };
        AudioTap { state, buf: AudioBuf::new(normalize_format(fmt)) }
    }

    /// Takes the answer to the pending task and decides on the next one. An
    /// answer that does not belong to the task ends the tap.
    pub fn advance(&mut self, reply: TapReply)
        ensures
            final(self).state == old(self).state.after(reply),
            final(self).buf@ == collected(old(self).state, old(self).buf@, reply),
    {
        match (self.state.task, &reply) {
            (TapTask::Pull, TapReply::Frame(plane)) => append_samples(&mut self.buf, plane),
            _ => {},
        }
        self.state = self.state.next(&reply);
    }
}

/// What an accepted request to decode audio asks for.
pub struct DecodeRequest {
    pub path: String,
    pub tap: AudioTap,
}

/// Asks for the audio of the file `path` in the format of code `fmt`. Without
/// a path the request is refused.
pub fn chuks_ffmpeg_audio_decode(session: &mut Session, path: Option<&[u8]>, fmt: i32) -> (r:
    Option<DecodeRequest>)
    ensures
        r is Some <==> crate::text::arg(path) is Some,
        r matches Some(q) ==> {
            &&& q.path@ == crate::text::arg(path)->0
            &&& q.tap.state == TapState::fresh()
            &&& q.tap.buf@ == AudioBufView::empty(format_of(fmt))
            &&& final(session)@ == old(session)@
        },
        r is None ==> final(session)@ == old(session)@.failed_with(
            "audio_decode: null/invalid path"@,
        ),
{
    match cstr(path) {
        Some(path) => Some(DecodeRequest { path, tap: AudioTap::new(fmt) }),
        None => {
            set_err(session, "audio_decode: null/invalid path");
            None
        },
    }
}

/// The outcome of decoding: the samples, or nothing and the error remembered.
pub fn finish_audio_decode(session: &mut Session, outcome: Result<AudioBuf, String>) -> (r: Option<
    AudioBuf,
>)
    ensures
        outcome matches Ok(buf) ==> r == Some(buf) && final(session)@ == old(session)@,
        outcome matches Err(e) ==> r is None && final(session)@ == old(session)@.failed_with(
            crate::session::prefixed("audio_decode"@, e@),
        ),
{
    match outcome {
        Ok(buf) => Some(buf),
        Err(e) => {
            set_op_err(session, "audio_decode", e.as_str());
            None
        },
    }
}

/// The number of samples, `-1` without a buffer.
pub fn chuks_ffmpeg_audio_samples(buf: Option<&AudioBuf>) -> (n: i64)
    ensures
        n == (match buf {
            None => -1i64,
            Some(b) => b@.count() as i64,
        }),
{
    match buf {
        None => -1,
        Some(b) => b.len(),
    }
}

/// The samples, to be borrowed for as long as the buffer lives.
pub fn chuks_ffmpeg_audio_ptr<'a>(buf: Option<&'a AudioBuf>) -> (r: Option<PcmRef<'a>>)
    ensures
        match buf {
            None => r is None,
            Some(b) => if b@.fmt == CHUKS_FMT_DOUBLE {
                r matches Some(PcmRef::Doubles(d)) && d@ == b@.doubles
            } else {
                r matches Some(PcmRef::Singles(s)) && s@ == b@.singles
            },
        },
{
    match buf {
        None => None,
        Some(b) => {
            if b.fmt == CHUKS_FMT_DOUBLE {
                Some(PcmRef::Doubles(b.doubles.as_slice()))
            } else {
                Some(PcmRef::Singles(b.singles.as_slice()))
            }
        },
    }
}

/// The format code of the samples, `-1` without a buffer.
pub fn chuks_ffmpeg_audio_format(buf: Option<&AudioBuf>) -> (f: i32)
    ensures
        f == (match buf {
            None => -1i32,
            Some(b) => b@.fmt,
        }),
{
    match buf {
        None => -1,
        Some(b) => b.fmt,
    }
}

} // verus!
