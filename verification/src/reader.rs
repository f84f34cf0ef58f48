//! Reading the video of a file frame by frame, as packed RGB.
//!
//! A [`VideoReader`] decides what each call does next. The caller performs
//! the task that [`ReaderState`] names and answers it, until the call ends.
use crate::graph::{build_video_filter, GraphPlan};
use crate::media::{
    frame_rate_or_default, Failure, PixelFormat, Rational, ScalePlan, VideoPick,
};
use crate::session::{set_err, set_op_err, Session};
use crate::text::cstr;
use vstd::prelude::*;

verus! {

/// The size of a frame and the bytes from one of its rows to the next.
#[derive(Clone, Copy, Debug, PartialEq, Eq, Structural)]
pub struct FrameShape {
    pub width: u32,
    pub height: u32,
    pub stride: usize,
}

impl FrameShape {
    /// Whether a row holds its pixels, of three bytes each.
    pub open spec fn sound(self) -> bool {
        self.stride >= self.width * 3
    }

    /// Whether a row holds its pixels, of three bytes each.
    pub fn is_sound(&self) -> (b: bool)
        ensures
            b == self.sound(),
    {
        self.stride as u64 >= self.width as u64 * 3
    }
}

/// The timestamp of a frame, and the length of the ticks that it is counted in.
#[derive(Clone, Copy, Debug, PartialEq, Eq, Structural)]
pub struct FrameTime {
    pub pts: Option<i64>,
    pub time_base: Rational,
}

/// The work that a call waits for.
#[derive(Clone, Copy, Debug, PartialEq, Eq, Structural)]
pub enum ReaderTask {
    /// Ask the graph for an RGB frame.
    Pull,
    /// Ask the decoder for a frame.
    Decode,
    /// Make a scaler for the decoded frame, as [`VideoReader::scale_to_rgb`]
    /// says.
    OpenScaler,
    /// Scale the decoded frame to RGB.
    Scale,
    /// Build the graph for the decoded frame, as [`VideoReader::graph_plan`]
    /// says.
    BuildGraph,
    /// Feed the decoded frame to the graph.
    Feed,
    /// Tell the graph that its input has ended.
    Flush,
    /// Read the next packet of the input.
    Read,
    /// Send the packet that was read to the decoder.
    SendPacket,
    /// Tell the decoder that the input has ended.
    SendEof,
    /// The call is over: whether there is a frame.
    Ended(bool),
    /// The call is over, in an error.
    Failed(Failure),
}

/// The answer to a [`ReaderTask`].
#[derive(Clone, Copy, Debug, PartialEq, Eq, Structural)]
pub enum ReaderReply {
    /// It was done.
    Done,
    /// The call failed.
    Failed,
    /// There is no frame to be had.
    Nothing,
    /// The graph gave an RGB frame, at that time in the ticks of its sink.
    Filtered(FrameTime, FrameShape),
    /// The decoder gave a frame, with that timestamp in the ticks of the stream.
    Decoded(Option<i64>),
    /// The decoded frame was scaled.
    Scaled(FrameShape),
    /// A packet of the stream of that number was read.
    Packet(usize),
    /// There are no more packets.
    End,
}

/// What a reader knows between two tasks.
#[derive(Clone, Copy, Debug, PartialEq, Eq, Structural)]
pub struct ReaderState {
    pub task: ReaderTask,
    /// Frames go through a graph.
    pub filtering: bool,
    pub stream_index: usize,
    pub time_base: Rational,
    pub frame_rate: Rational,
    /// The decoder has been told of the end.
    pub eof_sent: bool,
    /// There is a frame to borrow.
    pub has_frame: bool,
    /// The graph has been told of the end.
    pub filter_flushed: bool,
    pub graph_ready: bool,
    pub scaler_ready: bool,
    /// The timestamp of the frame that was last offered.
    pub cur_pts: Option<i64>,
    /// The length of the ticks of that timestamp.
    pub cur_tb: Rational,
    /// Frames before this timestamp, in ticks of the stream, are passed over.
    pub skip_until: Option<i64>,
    /// The shape of the RGB frame that was last made.
    pub shape: Option<FrameShape>,
}

/// Reads the video of one file.
pub struct VideoReader {
    /// The graph that frames go through, empty for none.
    pub filter_spec: String,
    pub state: ReaderState,
}

/// A timestamp to compare by: one that is missing comes before all others.
pub open spec fn pts_key(pts: Option<i64>) -> i64 {
    match pts {
        Some(p) => p,
        None => i64::MIN,
    }
}

impl FrameTime {
    /// Whether a frame is no earlier than `target`, which is counted in ticks
    /// of `base`. Ticks of different lengths are compared as the times that
    /// they stand for, both sides multiplied by both denominators.
    pub open spec fn not_before(self, target: i64, base: Rational) -> bool {
        if self.time_base == base {
            pts_key(self.pts) >= target
        } else {
            pts_key(self.pts) * self.time_base.num * base.den >= target * base.num
                * self.time_base.den
        }
    }

    /// Whether a frame is no earlier than `target`, which is counted in ticks
    /// of `base`.
    pub fn is_not_before(&self, target: i64, base: Rational) -> (b: bool)
        ensures
            b == self.not_before(target, base),
    {
        let key: i64 = match self.pts {
            Some(p) => p,
            None => i64::MIN,
        };
        if self.time_base == base {
            key >= target
        } else {
            product(key, self.time_base.num, base.den) >= product(
                target,
                base.num,
                self.time_base.den,
            )
        }
    }
}

/// The product of three numbers, which always fits.
fn product(a: i64, b: i32, c: i32) -> (r: i128)
    ensures
        r == a * b * c,
{
    assert(-0x8000_0000_0000_0000_0000_0000int <= a * b <= 0x8000_0000_0000_0000_0000_0000int)
        by (nonlinear_arith)
        requires
            -0x8000_0000_0000_0000int <= a <= 0x7fff_ffff_ffff_ffffint,
            -0x8000_0000int <= b <= 0x7fff_ffffint,
    ;
    let ab: i128 = a as i128 * b as i128;
    assert(-0x8000_0000_0000_0000_0000_0000_0000_0000int <= ab * c
        <= 0x7fff_ffff_ffff_ffff_ffff_ffff_ffff_ffffint) by (nonlinear_arith)
        requires
            -0x8000_0000_0000_0000_0000_0000int <= ab <= 0x8000_0000_0000_0000_0000_0000int,
            -0x8000_0000int <= c <= 0x7fff_ffffint,
    ;
    ab * c as i128
}

/// Whether a frame is to be shown, where frames before `target`, in ticks of
/// `base`, are passed over.
pub open spec fn reaches(frame: FrameTime, target: Option<i64>, base: Rational) -> bool {
    target matches Some(t) ==> frame.not_before(t, base)
}

impl ReaderState {
    /// The state of a reader that was just opened.
    pub open spec fn opened(filtering: bool, pick: VideoPick) -> ReaderState {
        ReaderState {
            task: ReaderTask::Ended(false),
            filtering,
            stream_index: pick.index,
            time_base: pick.time_base,
            frame_rate: pick.rate.usable_rate(),
            eof_sent: false,
            has_frame: false,
            filter_flushed: false,
            graph_ready: false,
            scaler_ready: false,
            cur_pts: None,
            cur_tb: pick.time_base,
            skip_until: None,
            shape: None,
        }
    }

    /// Whether the rows of the frame that was last made hold their pixels.
    pub open spec fn sound(self) -> bool {
        self.shape matches Some(shape) ==> shape.sound()
    }

    /// The time of a frame that the decoder gave with that timestamp.
    pub open spec fn decoded(self, pts: Option<i64>) -> FrameTime {
        FrameTime { pts, time_base: self.time_base }
    }

    /// Whether a frame is to be shown.
    pub open spec fn shows(self, frame: FrameTime) -> bool {
        reaches(frame, self.skip_until, self.time_base)
    }

    /// The same state, with another task.
    pub open spec fn at(self, task: ReaderTask) -> ReaderState {
        ReaderState { task, ..self }
    }

    /// Where a call looks first for a frame: in the graph, where there is
    /// one, for it may hold several.
    pub open spec fn top(self) -> ReaderState {
        self.at(
            if self.filtering && self.graph_ready {
                ReaderTask::Pull
            } else {
                ReaderTask::Decode
            },
        )
    }

    /// The end of a call whose task was answered with `reply` to no avail.
    pub open spec fn broken(self, reply: ReaderReply) -> ReaderState {
        self.at(
            ReaderTask::Failed(
                if reply is Failed {
                    Failure::Engine
                } else {
                    Failure::Protocol
                },
            ),
        )
    }

    /// What follows a task that either succeeds, and then leads to `next`, or
    /// fails.
    pub open spec fn either(self, reply: ReaderReply, next: ReaderState) -> ReaderState {
        if reply is Done {
            next
        } else {
            self.broken(reply)
        }
    }

    /// A frame is the current one; once the target of a seek is reached, there
    /// is none any more.
    pub open spec fn offered(self, frame: FrameTime) -> ReaderState {
        ReaderState {
            cur_pts: frame.pts,
            cur_tb: frame.time_base,
            skip_until: if self.shows(frame) {
                None
            } else {
                self.skip_until
            },
            ..self
        }
    }

    /// The current frame is shown.
    pub open spec fn shown(self, shape: FrameShape) -> ReaderState {
        ReaderState { has_frame: true, shape: Some(shape), ..self }.at(ReaderTask::Ended(true))
    }

    /// The state after its task was answered with `reply`.
    pub open spec fn after(self, reply: ReaderReply) -> ReaderState {
        match self.task {
            ReaderTask::Pull => match reply {
                ReaderReply::Filtered(frame, shape) => if !shape.sound() {
                    self.broken(reply)
                } else if self.shows(frame) {
                    self.offered(frame).shown(shape)
                } else {
                    ReaderState { shape: Some(shape), ..self.offered(frame) }.top()
                },
                ReaderReply::Nothing => self.at(ReaderTask::Decode),
                _ => self.broken(reply),
            },
            ReaderTask::Decode => match reply {
                ReaderReply::Decoded(pts) => if self.filtering {
                    self.at(
                        if self.graph_ready {
                            ReaderTask::Feed
                        } else {
                            ReaderTask::BuildGraph
                        },
                    )
                } else if self.shows(self.decoded(pts)) {
                    self.offered(self.decoded(pts)).at(
                        if self.scaler_ready {
                            ReaderTask::Scale
                        } else {
                            ReaderTask::OpenScaler
                        },
                    )
                } else {
                    self.offered(self.decoded(pts)).top()
                },
                ReaderReply::Nothing => if !self.eof_sent {
                    self.at(ReaderTask::Read)
                } else if self.filtering && !self.filter_flushed && self.graph_ready {
                    ReaderState { filter_flushed: true, ..self }.at(ReaderTask::Flush)
                } else {
                    ReaderState {
                        filter_flushed: self.filter_flushed || self.filtering,
                        has_frame: false,
                        ..self
                    }.at(ReaderTask::Ended(false))
                },
                _ => self.broken(reply),
            },
            ReaderTask::OpenScaler => self.either(
                reply,
                ReaderState { scaler_ready: true, ..self }.at(ReaderTask::Scale),
            ),
            ReaderTask::Scale => match reply {
                ReaderReply::Scaled(shape) => if shape.sound() {
                    self.shown(shape)
                } else {
                    self.broken(reply)
                },
                _ => self.broken(reply),
            },
            ReaderTask::BuildGraph => self.either(
                reply,
                ReaderState { graph_ready: true, ..self }.at(ReaderTask::Feed),
            ),
            ReaderTask::Feed => self.either(reply, self.top()),
            ReaderTask::Flush => self.either(reply, self.top()),
            ReaderTask::Read => match reply {
                ReaderReply::Packet(index) => if index == self.stream_index {
                    self.at(ReaderTask::SendPacket)
                } else {
                    self.top()
                },
                ReaderReply::End => self.at(ReaderTask::SendEof),
                _ => self.broken(reply),
            },
            ReaderTask::SendPacket => self.either(reply, self.top()),
            ReaderTask::SendEof => self.either(
                reply,
                ReaderState { eof_sent: true, ..self }.top(),
            ),
            ReaderTask::Ended(_) => self,
            ReaderTask::Failed(_) => self,
        }
    }

    /// The state after the input was moved to another place: everything that
    /// belongs to the old place is forgotten, and frames before `target` are
    /// passed over, where the time base is a usable one.
    pub open spec fn sought(self, target: i64) -> ReaderState {
        ReaderState {
            eof_sent: false,
            has_frame: false,
            filter_flushed: false,
            graph_ready: false,
            cur_pts: None,
            cur_tb: self.time_base,
            skip_until: if self.time_base.num > 0 {
                Some(target)
            } else {
                None
            },
            ..self
        }
    }

    fn to(self, task: ReaderTask) -> (next: ReaderState)
        ensures
            next == self.at(task),
    {
        ReaderState { task, ..self }
    }

    fn to_top(self) -> (next: ReaderState)
        ensures
            next == self.top(),
    {
        if self.filtering && self.graph_ready {
            self.to(ReaderTask::Pull)
        } else {
            self.to(ReaderTask::Decode)
        }
    }

    fn fail(self, reply: ReaderReply) -> (next: ReaderState)
        ensures
            next == self.broken(reply),
    {
        match reply {
            ReaderReply::Failed => self.to(ReaderTask::Failed(Failure::Engine)),
            _ => self.to(ReaderTask::Failed(Failure::Protocol)),
        }
    }

    fn settle(self, reply: ReaderReply, next: ReaderState) -> (r: ReaderState)
        ensures
            r == self.either(reply, next),
    {
        match reply {
            ReaderReply::Done => next,
            _ => self.fail(reply),
        }
    }

    /// Makes a frame the current one, and tells whether it is to be shown. The
    /// target of a seek is forgotten once reached, so that later frames flow
    /// normally.
    pub fn reached_target(&mut self, frame: FrameTime) -> (reached: bool)
        ensures
            reached == old(self).shows(frame),
            *final(self) == old(self).offered(frame),
    {
        self.cur_pts = frame.pts;
        self.cur_tb = frame.time_base;
        match self.skip_until {
            Some(target) => {
                if frame.is_not_before(target, self.time_base) {
                    self.skip_until = None;
                    true
                } else {
                    false
                }
            },
            None => true,
        }
    }

    fn next_pull(self, reply: ReaderReply) -> (next: ReaderState)
        requires
            self.task is Pull,
        ensures
            next == self.after(reply),
    {
        match reply {
            ReaderReply::Filtered(frame, shape) => {
                if !shape.is_sound() {
                    return self.fail(reply);
                }
                let mut s: ReaderState = self;
                let reached: bool = s.reached_target(frame);
                s.shape = Some(shape);
                if reached {
                    s.has_frame = true;
                    s.to(ReaderTask::Ended(true))
                } else {
                    s.to_top()
                }
            },
            ReaderReply::Nothing => self.to(ReaderTask::Decode),
            _ => self.fail(reply),
        }
    }

    fn next_decode(self, reply: ReaderReply) -> (next: ReaderState)
        requires
            self.task is Decode,
        ensures
            next == self.after(reply),
    {
        match reply {
            ReaderReply::Decoded(pts) => {
                if self.filtering {
                    if self.graph_ready {
                        self.to(ReaderTask::Feed)
                    } else {
                        self.to(ReaderTask::BuildGraph)
                    }
                } else {
                    let mut s: ReaderState = self;
                    if !s.reached_target(FrameTime { pts, time_base: self.time_base }) {
                        s.to_top()
                    } else if s.scaler_ready {
                        s.to(ReaderTask::Scale)
                    } else {
                        s.to(ReaderTask::OpenScaler)
                    }
                }
            },
            ReaderReply::Nothing => {
                if !self.eof_sent {
                    return self.to(ReaderTask::Read);
                }
                let mut s: ReaderState = self;
                if s.filtering && !s.filter_flushed {
                    s.filter_flushed = true;
                    if s.graph_ready {
                        return s.to(ReaderTask::Flush);
                    }
                }
                s.has_frame = false;
                s.to(ReaderTask::Ended(false))
            },
            _ => self.fail(reply),
        }
    }

    /// Takes the answer to the pending task and decides on the next one. An
    /// answer that does not belong to the task ends the call.
    pub fn advance(&mut self, reply: ReaderReply)
        ensures
            *final(self) == old(self).after(reply),
            old(self).sound() ==> final(self).sound(),
    {
        let s: ReaderState = *self;
        *self = match s.task {
            ReaderTask::Pull => s.next_pull(reply),
            ReaderTask::Decode => s.next_decode(reply),
            ReaderTask::OpenScaler => {
                s.settle(reply, ReaderState { scaler_ready: true, ..s }.to(ReaderTask::Scale))
            },
            ReaderTask::Scale => match reply {
                ReaderReply::Scaled(shape) => {
                    if !shape.is_sound() {
                        *self = s.fail(reply);
                        return;
                    }
                    let shown: ReaderState = ReaderState {
                        has_frame: true,
                        shape: Some(shape),
                        ..s
                    };
                    shown.to(ReaderTask::Ended(true))
                },
                _ => s.fail(reply),
            },
            ReaderTask::BuildGraph => {
                s.settle(reply, ReaderState { graph_ready: true, ..s }.to(ReaderTask::Feed))
            },
            ReaderTask::Feed => s.settle(reply, s.to_top()),
            ReaderTask::Flush => s.settle(reply, s.to_top()),
            ReaderTask::Read => match reply {
                ReaderReply::Packet(index) => {
                    if index == s.stream_index {
                        s.to(ReaderTask::SendPacket)
                    } else {
                        s.to_top()
                    }
                },
                ReaderReply::End => s.to(ReaderTask::SendEof),
                _ => s.fail(reply),
            },
            ReaderTask::SendPacket => s.settle(reply, s.to_top()),
            ReaderTask::SendEof => {
                s.settle(reply, ReaderState { eof_sent: true, ..s }.to_top())
            },
            ReaderTask::Ended(_) => s,
            ReaderTask::Failed(_) => s,
        };
    }
}

impl VideoReader {
    /// Whether the parts of a reader fit together.
    pub open spec fn wf(self) -> bool {
        self.state.filtering == (self.filter_spec@.len() != 0) && self.state.sound()
    }

    /// The graph for decoded frames of that size and pixel format: the filters
    /// that were asked for, and then the conversion to packed RGB.
    pub fn graph_plan(&self, width: u32, height: u32, pixel_format: Option<&str>) -> (g: GraphPlan)
        ensures
            g.source@ == crate::graph::video_source(
                width,
                height,
                match pixel_format {
                    Some(p) => p@,
                    None => "yuv420p"@,
                },
                self.state.time_base,
                self.state.frame_rate,
            ),
            g.chain@ == crate::graph::video_chain(self.filter_spec@, "rgb24"@),
    {
        build_video_filter(
            width,
            height,
            pixel_format,
            self.filter_spec.as_str(),
            PixelFormat::Rgb24,
            self.state.time_base,
            self.state.frame_rate,
        )
    }

    /// How decoded frames of that size become packed RGB where there is no
    /// graph.
    pub fn scale_to_rgb(&self, width: u32, height: u32) -> (p: ScalePlan)
        ensures
            p == (ScalePlan { width, height, from: None, to: PixelFormat::Rgb24 }),
    {
        ScalePlan { width, height, from: None, to: PixelFormat::Rgb24 }
    }
}

/// What an accepted request to open a reader asks for.
pub struct OpenRequest {
    pub path: String,
    /// The graph that frames go through, empty for none.
    pub filter: String,
}

/// The text of an optional argument, empty where it is absent.
pub open spec fn or_empty(t: Option<Seq<char>>) -> Seq<char> {
    match t {
        Some(t) => t,
        None => Seq::empty(),
    }
}

/// Asks for a reader of the file `path` whose frames go through `filter`;
/// without one they are only converted to RGB. Without a path the request is
/// refused.
pub fn chuks_ffmpeg_video_open(
    session: &mut Session,
    path: Option<&[u8]>,
    filter: Option<&[u8]>,
) -> (r: Option<OpenRequest>)
    ensures
        r is Some <==> crate::text::arg(path) is Some,
        r matches Some(q) ==> {
            &&& q.path@ == crate::text::arg(path)->0
            &&& q.filter@ == or_empty(crate::text::arg(filter))
            &&& final(session)@ == old(session)@
        },
        r is None ==> final(session)@ == old(session)@.failed_with(
            "video_open: null/invalid path"@,
        ),
{
    match cstr(path) {
        Some(path) => {
            let filter: String = match cstr(filter) {
                Some(f) => f,
                None => String::new(),
            };
            Some(OpenRequest { path, filter })
        },
        None => {
            set_err(session, "video_open: null/invalid path");
            None
        },
    }
}

/// A reader of the best video stream of an input, where it has one.
pub fn video_open_inner(filter_spec: String, best: Option<VideoPick>) -> (r: Result<
    VideoReader,
    Failure,
>)
    ensures
        best is None ==> r == Err::<VideoReader, Failure>(Failure::StreamNotFound),
        best matches Some(pick) ==> r matches Ok(reader) && reader.wf() && reader.filter_spec
            == filter_spec && reader.state == ReaderState::opened(filter_spec@.len() != 0, pick),
{
    match best {
        None => Err(Failure::StreamNotFound),
        Some(pick) => {
            let state: ReaderState = ReaderState {
                task: ReaderTask::Ended(false),
                filtering: !filter_spec.as_str().is_empty(),
                stream_index: pick.index,
                time_base: pick.time_base,
                frame_rate: frame_rate_or_default(pick.rate),
                eof_sent: false,
                has_frame: false,
                filter_flushed: false,
                graph_ready: false,
                scaler_ready: false,
                cur_pts: None,
                cur_tb: pick.time_base,
                skip_until: None,
                shape: None,
            };
            Ok(VideoReader { filter_spec, state })
        },
    }
}

/// The outcome of opening a reader: the reader, or nothing and the error
/// remembered.
pub fn finish_video_open(session: &mut Session, outcome: Result<VideoReader, String>) -> (r: Option<
    VideoReader,
>)
    ensures
        outcome matches Ok(reader) ==> r == Some(reader) && final(session)@ == old(session)@,
        outcome matches Err(e) ==> r is None && final(session)@ == old(session)@.failed_with(
            crate::session::prefixed("video_open"@, e@),
        ),
{
    match outcome {
        Ok(reader) => Some(reader),
        Err(e) => {
            set_op_err(session, "video_open", e.as_str());
            None
        },
    }
}

/// Begins a call that reads the next frame; without a reader it is over, with
/// the code `-1` and the error remembered.
pub fn chuks_ffmpeg_video_next(session: &mut Session, reader: Option<&mut VideoReader>) -> (r:
    Result<(), i32>)
    ensures
        reader is None ==> {
            &&& r == Err::<(), i32>(-1i32)
            &&& final(session)@ == old(session)@.failed_with("video_next: null reader"@)
        },
        reader is Some ==> r == Ok::<(), i32>(()) && final(reader->0).state
            == old(reader->0).state.top() && final(reader->0).filter_spec
            == old(reader->0).filter_spec && final(session)@ == old(session)@,
{
    match reader {
        None => {
            set_err(session, "video_next: null reader");
            Err(-1)
        },
        Some(reader) => {
            reader.state = reader.state.to_top();
            Ok(())
        },
    }
}

/// What a call that read the next frame reports: `1` for a frame, `0` for the
/// end of the stream, `-1` for an error, which is remembered.
pub fn finish_video_next(session: &mut Session, outcome: Result<bool, String>) -> (code: i32)
    ensures
        outcome == Ok::<bool, String>(true) ==> code == 1 && final(session)@ == old(session)@,
        outcome == Ok::<bool, String>(false) ==> code == 0 && final(session)@ == old(session)@,
        outcome matches Err(e) ==> code == -1 && final(session)@ == old(session)@.failed_with(
            crate::session::prefixed("video_next"@, e@),
        ),
{
    match outcome {
        Ok(true) => 1,
        Ok(false) => 0,
        Err(e) => {
            set_op_err(session, "video_next", e.as_str());
            -1
        },
    }
}

/// What a seek reports, once the input was moved or failed to be: `0`, with
/// the reader ready to read on from frame time `target`; or `-1`, with the
/// reader as it was and the error remembered. Without a reader it is `-1` too,
/// and that is remembered.
pub fn chuks_ffmpeg_video_seek(
    session: &mut Session,
    reader: Option<&mut VideoReader>,
    moved: Result<(), String>,
    target: i64,
) -> (code: i32)
    ensures
        reader is None ==> code == -1 && final(session)@ == old(session)@.failed_with(
            "video_seek: null reader"@,
        ),
        reader is Some && moved is Ok ==> {
            &&& code == 0
            &&& final(session)@ == old(session)@
            &&& final(reader->0).state == old(reader->0).state.sought(target)
            &&& final(reader->0).filter_spec == old(reader->0).filter_spec
        },
        reader is Some ==> (moved matches Err(e) ==> {
            &&& code == -1
            &&& *final(reader->0) == *old(reader->0)
            &&& final(session)@ == old(session)@.failed_with(
                crate::session::prefixed("video_seek"@, e@),
            )
        }),
{
    match reader {
        None => {
            set_err(session, "video_seek: null reader");
            -1
        },
        Some(reader) => match moved {
            Err(e) => {
                set_op_err(session, "video_seek", e.as_str());
                -1
            },
            Ok(()) => {
                let s: ReaderState = reader.state;
                let skip_until: Option<i64> = if s.time_base.num > 0 {
                    Some(target)
                } else {
                    None
                };
                reader.state = ReaderState {
                    eof_sent: false,
                    has_frame: false,
                    filter_flushed: false,
                    graph_ready: false,
                    cur_pts: None,
                    cur_tb: s.time_base,
                    skip_until,
                    ..s
                };
                0
            },
        },
    }
}

/// The width of the current frame in pixels, `-1` without a reader.
pub fn chuks_ffmpeg_video_width(reader: Option<&VideoReader>) -> (w: i32)
    ensures
        w == (match reader {
            None => -1i32,
            Some(r) => match r.state.shape {
                None => 0i32,
                Some(shape) => shape.width as i32,
            },
        }),
{
    match reader {
        None => -1,
        Some(r) => match r.state.shape {
            None => 0,
            Some(shape) => #[verifier::truncate] (shape.width as i32),
        },
    }
}

/// The height of the current frame in pixels, `-1` without a reader.
pub fn chuks_ffmpeg_video_height(reader: Option<&VideoReader>) -> (h: i32)
    ensures
        h == (match reader {
            None => -1i32,
            Some(r) => match r.state.shape {
                None => 0i32,
                Some(shape) => shape.height as i32,
            },
        }),
{
    match reader {
        None => -1,
        Some(r) => match r.state.shape {
            None => 0,
            Some(shape) => #[verifier::truncate] (shape.height as i32),
        },
    }
}

/// The bytes from one row of the current frame to the next, at least three for
/// each pixel of a row; `-1` without a reader. There must have been a frame.
pub fn chuks_ffmpeg_video_stride(reader: Option<&VideoReader>) -> (n: i32)
    requires
        reader matches Some(r) ==> r.state.shape is Some,
    ensures
        n == (match reader {
            None => -1i32,
            Some(r) => r.state.shape->0.stride as i32,
        }),
        reader matches Some(r) ==> (r.wf() && r.state.shape->0.stride <= i32::MAX ==> n
            >= r.state.shape->0.width * 3),
{
    match reader {
        None => -1,
        Some(r) => match r.state.shape {
            None => 0,
            Some(shape) => #[verifier::truncate] (shape.stride as i32),
        },
    }
}

/// Whether there is a frame whose bytes can be borrowed.
pub fn chuks_ffmpeg_video_ptr(reader: Option<&VideoReader>) -> (b: bool)
    ensures
        b == (reader matches Some(r) && r.state.has_frame),
{
    match reader {
        None => false,
        Some(r) => r.state.has_frame,
    }
}

/// The time of the current frame, as ticks and their length in seconds, where
/// there is a frame and it has a time.
pub fn chuks_ffmpeg_video_pts(reader: Option<&VideoReader>) -> (t: Option<(i64, Rational)>)
    ensures
        t == (match reader {
            None => None,
            Some(r) => match r.state.cur_pts {
                Some(p) if r.state.has_frame => Some((p, r.state.cur_tb)),
                _ => None,
            },
        }),
{
    match reader {
        None => None,
        Some(r) => {
            if !r.state.has_frame {
                return None;
            }
            match r.state.cur_pts {
                None => None,
                Some(p) => Some((p, r.state.cur_tb)),
            }
        },
    }
}

/// A duration in microseconds as the container gives it, where it knows one.
pub fn known_duration(us: i64) -> (d: Option<i64>)
    ensures
        d == (if us > 0 {
            Some(us)
        } else {
            None
        }),
{
    if us > 0 {
        Some(us)
    } else {
        None
    }
}

/// The duration of the media in microseconds, from what the container of a
/// reader reports, where there is a reader and it is known.
pub fn chuks_ffmpeg_video_duration(reported: Option<i64>) -> (d: Option<i64>)
    ensures
        d == (match reported {
            Some(us) => if us > 0 {
                Some(us)
            } else {
                None
            },
            None => None,
        }),
{
    match reported {
        Some(us) => known_duration(us),
        None => None,
    }
}

} // verus!
