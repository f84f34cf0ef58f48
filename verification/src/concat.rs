//! Joining files end to end by copying their packets.
use crate::media::Failure;
use crate::session::{set_err, set_op_err, Session};
use crate::text::cstr;
use vstd::prelude::*;

verus! {

/// The files of a job that is being put together.
pub struct ConcatBuilder {
    pub inputs: Vec<String>,
}

impl View for ConcatBuilder {
    type V = Seq<Seq<char>>;

    open spec fn view(&self) -> Seq<Seq<char>> {
        self.inputs@.map_values(|s: String| s@)
    }
}

/// A job without files.
pub fn chuks_ffmpeg_concat_new() -> (b: ConcatBuilder)
    ensures
        b@ == Seq::<Seq<char>>::empty(),
{
    let b: ConcatBuilder = ConcatBuilder { inputs: Vec::new() };
    assert(b@ =~= Seq::<Seq<char>>::empty());
    b
}

/// Adds a file at the end of a job: `0`, or `-1` without a job or a path.
pub fn chuks_ffmpeg_concat_add(
    session: &mut Session,
    b: Option<&mut ConcatBuilder>,
    path: Option<&[u8]>,
) -> (code: i32)
    ensures
        b is None ==> code == -1 && final(session)@ == old(session)@.failed_with(
            "concat_add: null builder"@,
        ),
        b is Some ==> match crate::text::arg(path) {
            Some(p) => {
                &&& code == 0
                &&& final(b->0)@ == old(b->0)@.push(p)
                &&& final(session)@ == old(session)@
            },
            None => {
                &&& code == -1
                &&& final(b->0)@ == old(b->0)@
                &&& final(session)@ == old(session)@.failed_with("concat_add: null path"@)
            },
        },
{
    match b {
        None => {
            set_err(session, "concat_add: null builder");
            -1
        },
        Some(b) => match cstr(path) {
            Some(s) => {
                let ghost before = b@;
                let ghost added = s@;
                b.inputs.push(s);
                assert(b@ =~= before.push(added));
                0
            },
            None => {
                set_err(session, "concat_add: null path");
                -1
            },
        },
    }
}

/// What an accepted request asks for.
pub struct ConcatRequest {
    pub inputs: Vec<String>,
    pub output: String,
    pub job: Concat,
}

/// Which message a request is refused with, where it is.
pub open spec fn concat_refusal(
    b: Option<ConcatBuilder>,
    output: Option<Seq<char>>,
) -> Option<Seq<char>> {
    match b {
        None => Some("concat_run: null builder"@),
        Some(b) => if output is None {
            Some("concat_run: null out path"@)
        } else if b@.len() == 0 {
            Some("concat_run: no input files added"@)
        } else {
            None
        },
    }
}

/// Asks for a job to be run. The request is refused, with the code `-1`,
/// without a job, without a path for the output, and without files.
pub fn chuks_ffmpeg_concat_run(
    session: &mut Session,
    b: Option<ConcatBuilder>,
    out_path: Option<&[u8]>,
) -> (r: Result<ConcatRequest, i64>)
    ensures
        match concat_refusal(b, crate::text::arg(out_path)) {
            Some(message) => {
                &&& r == Err::<ConcatRequest, i64>(-1i64)
                &&& final(session)@ == old(session)@.failed_with(message)
            },
            None => {
                &&& final(session)@ == old(session)@
                &&& r matches Ok(q)
                &&& q.inputs == b->0.inputs
                &&& q.output@ == crate::text::arg(out_path)->0
                &&& q.job == Concat::fresh(b->0@.len() as usize)
            },
        },
{
    let b: ConcatBuilder = match b {
        Some(b) => b,
        None => {
            set_err(session, "concat_run: null builder");
            return Err(-1);
        },
    };
    let output: String = match cstr(out_path) {
        Some(s) => s,
        None => {
            set_err(session, "concat_run: null out path");
            return Err(-1);
        },
    };
    let files: usize = b.inputs.len();
    if files == 0 {
        set_err(session, "concat_run: no input files added");
        return Err(-1);
    }
    Ok(ConcatRequest { inputs: b.inputs, output, job: Concat::new(files) })
}

/// What a job reports: the number of packets written, or `-1` for an error,
/// which is remembered.
pub fn finish_concat_run(session: &mut Session, outcome: Result<i64, String>) -> (n: i64)
    ensures
        outcome matches Ok(count) ==> n == count && final(session)@ == old(session)@,
        outcome matches Err(e) ==> n == -1 && final(session)@ == old(session)@.failed_with(
            crate::session::prefixed("concat"@, e@),
        ),
{
    match outcome {
        Ok(count) => count,
        Err(e) => {
            set_op_err(session, "concat", e.as_str());
            -1
        },
    }
}

/// The work that a job waits for.
#[derive(Clone, Copy, Debug, PartialEq, Eq, Structural)]
pub enum ConcatTask {
    /// Open the output file.
    OpenOutput,
    /// Open the first file, for its streams.
    OpenFirst,
    /// Add a stream with the parameters of that stream of the first file.
    AddStream(usize),
    /// Write the header of the output.
    WriteHeader,
    /// Open the file of that number.
    OpenInput(usize),
    /// Read the next packet of the open file.
    Read,
    /// Write the packet that was read to that stream.
    WritePacket(usize),
    /// Write the trailer of the output.
    WriteTrailer,
    /// The job is over; so many packets were written.
    Finished(i64),
    /// The job is over, without a result.
    Failed(Failure),
}

/// The times of a packet in its file, in microseconds, where it has any.
#[derive(Clone, Copy, Debug, PartialEq, Eq, Structural)]
pub struct PacketTimes {
    /// When it is decoded.
    pub dts: Option<i64>,
    /// When it ends.
    pub end: Option<i64>,
}

impl PacketTimes {
    /// The times of a packet that has none.
    pub open spec fn unknown() -> PacketTimes {
        PacketTimes { dts: None, end: None }
    }
}

/// The answer to a [`ConcatTask`].
#[derive(Clone, Copy, Debug, PartialEq, Eq, Structural)]
pub enum ConcatReply {
    /// It was done.
    Done,
    /// The call failed.
    Failed,
    /// The first file is open; how many streams it has.
    Streams(usize),
    /// The header is written; how many streams the output has.
    Header(usize),
    /// The file is open; its duration, as it reports it, and the time at which
    /// its own timestamps begin, where that is known, both in microseconds.
    Opened(i64, Option<i64>),
    /// A packet of the stream of that number was read, with these times.
    Packet(usize, PacketTimes),
    /// There are no more packets.
    End,
}

/// A job, between two tasks.
#[derive(Clone, Copy, Debug, PartialEq, Eq, Structural)]
pub struct Concat {
    pub task: ConcatTask,
    /// How many files there are.
    pub files: usize,
    /// How many files are done.
    pub current: usize,
    /// How many streams the first file, and then the output, has.
    pub nstreams: usize,
    /// The time in microseconds that the timestamps of the open file are moved
    /// by; between two files, the running duration.
    pub offset_us: i64,
    /// The duration of the open file.
    pub dur_us: i64,
    /// The last file reports its duration.
    pub reported: bool,
    /// The time at which the packets written of the last file end, in
    /// microseconds.
    pub end_us: Option<i64>,
    /// The latest decoding time of all packets written, in microseconds.
    pub dts_us: Option<i64>,
    /// The time at which the packet of that decoding time is over.
    pub next_us: Option<i64>,
    /// The times of the packet that was read.
    pub packet: PacketTimes,
    /// How many packets were written.
    pub count: i64,
}

/// The later of two times, where there are any.
pub open spec fn later(a: Option<int>, b: Option<int>) -> Option<int> {
    match (a, b) {
        (Some(x), Some(y)) => if x >= y {
            Some(x)
        } else {
            Some(y)
        },
        (Some(x), None) => Some(x),
        (None, _) => b,
    }
}

/// How far the packets that were written reach.
#[verifier::ext_equal]
pub struct Reach {
    /// When those of the last file end.
    pub end: Option<int>,
    /// The latest decoding time of all.
    pub dts: Option<int>,
    /// When the packet of that decoding time is over.
    pub next: Option<int>,
}

impl Reach {
    /// Nothing was written.
    pub open spec fn nothing() -> Reach {
        Reach { end: None, dts: None, next: None }
    }

    /// A file begins.
    pub open spec fn opened(self) -> Reach {
        Reach { end: None, ..self }
    }

    /// A packet was written that is decoded at `dts` and ends at `end`.
    pub open spec fn with(self, dts: Option<int>, end: Option<int>) -> Reach {
        let reach = Reach { end: later(self.end, end), ..self };
        match dts {
            Some(d) => if self.dts matches Some(last) && last > d {
                reach
            } else {
                Reach { dts, next: later(Some(d + 1), end), ..reach }
            },
            None => reach,
        }
    }

    /// Whether a decoding time that was written reaches `time`.
    pub open spec fn attains(self, time: int) -> bool {
        self.dts matches Some(d) && d >= time
    }

    /// The offset of a file whose own timestamps begin at `start`, where
    /// `running` is the running duration of the files before it and `reported`
    /// tells whether the last of them reports its duration.
    ///
    /// It is the running duration. Only where that cannot be right, because
    /// the last file reports no duration, or because a decoding time that was
    /// written reaches into the new file, the file begins where the packets
    /// end, if that is later.
    pub open spec fn begin(self, running: int, reported: bool, start: int) -> int {
        let reached = self.attains(running + start);
        let end = later(
            if reached || !reported {
                self.end
            } else {
                None
            },
            if reached {
                self.next
            } else {
                None
            },
        );
        match end {
            Some(e) => if e - start > running {
                e - start
            } else {
                running
            },
            None => running,
        }
    }
}

/// The time at which the timestamps of a file begin: zero where it is unknown.
pub open spec fn start_or_zero(start: Option<i64>) -> i64 {
    match start {
        Some(t) => t,
        None => 0,
    }
}

/// The later of two times, where there are any.
fn latest(a: Option<i64>, b: Option<i64>) -> (r: Option<i64>)
    ensures
        widened(r) == later(widened(a), widened(b)),
        r == narrowed(later(widened(a), widened(b))),
{
    match (a, b) {
        (Some(x), Some(y)) => {
            if x >= y {
                Some(x)
            } else {
                Some(y)
            }
        },
        (Some(x), None) => Some(x),
        (None, _) => b,
    }
}

/// A time without a bound.
pub open spec fn widened(t: Option<i64>) -> Option<int> {
    match t {
        Some(t) => Some(t as int),
        None => None,
    }
}

/// A time with the bound that it has to fit.
pub open spec fn narrowed(t: Option<int>) -> Option<i64> {
    match t {
        Some(t) => Some(t as i64),
        None => None,
    }
}

impl Concat {
    /// A job that has not begun.
    pub open spec fn fresh(files: usize) -> Concat {
        Concat {
            task: ConcatTask::OpenOutput,
            files,
            current: 0,
            nstreams: 0,
            offset_us: 0,
            dur_us: 0,
            reported: true,
            end_us: None,
            dts_us: None,
            next_us: None,
            packet: PacketTimes::unknown(),
            count: 0,
        }
    }

    /// The same job, waiting for another task.
    pub open spec fn at(self, task: ConcatTask) -> Concat {
        Concat { task, ..self }
    }

    /// The end of a job whose task was answered with `reply` to no avail.
    pub open spec fn broken(self, reply: ConcatReply) -> Concat {
        self.at(
            ConcatTask::Failed(
                if reply is Failed {
                    Failure::Engine
                } else {
                    Failure::Protocol
                },
            ),
        )
    }

    /// What follows a task that either succeeds, and then leads to `next`, or
    /// fails.
    pub open spec fn either(self, reply: ConcatReply, next: Concat) -> Concat {
        if reply is Done {
            next
        } else {
            self.broken(reply)
        }
    }

    /// The next stream to be added, or the header.
    pub open spec fn add_from(self, i: int) -> Concat {
        self.at(
            if i < self.nstreams {
                ConcatTask::AddStream(i as usize)
            } else {
                ConcatTask::WriteHeader
            },
        )
    }

    /// The next file, or the trailer.
    pub open spec fn next_file(self) -> Concat {
        self.at(
            if self.current < self.files {
                ConcatTask::OpenInput(self.current)
            } else {
                ConcatTask::WriteTrailer
            },
        )
    }

    /// The running duration after the open file: a duration that is not
    /// positive does not count.
    pub open spec fn next_offset(self) -> int {
        self.offset_us + (if self.dur_us > 0 {
            self.dur_us as int
        } else {
            0
        })
    }

    /// How far the packets that were written reach.
    pub open spec fn reach(self) -> Reach {
        Reach {
            end: widened(self.end_us),
            dts: widened(self.dts_us),
            next: widened(self.next_us),
        }
    }

    /// The same job, with packets that reach so far.
    pub open spec fn reaching(self, reach: Reach) -> Concat {
        Concat {
            end_us: narrowed(reach.end),
            dts_us: narrowed(reach.dts),
            next_us: narrowed(reach.next),
            ..self
        }
    }

    /// The offset of a file whose own timestamps begin at `start`.
    pub open spec fn offset_for(self, start: Option<i64>) -> int {
        self.reach().begin(
            self.offset_us as int,
            self.reported,
            start_or_zero(start) as int,
        )
    }

    /// How far the packets reach once the one that was read is written.
    pub open spec fn next_reach(self) -> Reach {
        self.reach().with(
            moved(self.packet.dts, self.offset_us),
            capped(moved(self.packet.end, self.offset_us)),
        )
    }

    /// Whether everything that the answer leads to can be counted.
    pub open spec fn has_room(self, reply: ConcatReply) -> bool {
        &&& self.count < i64::MAX
        &&& self.current < usize::MAX
        &&& self.next_offset() <= i64::MAX
        &&& can_move(self.packet.dts, self.offset_us)
        &&& moved(self.packet.dts, self.offset_us) matches Some(d) ==> d < i64::MAX
        &&& reply matches ConcatReply::Opened(_, start) ==> self.offset_for(start) <= i64::MAX
    }

    /// Whether everything that the answer leads to can be counted.
    pub fn can_take(&self, reply: ConcatReply) -> (b: bool)
        ensures
            b == self.has_room(reply),
    {
        let next: i128 = if self.dur_us > 0 {
            self.offset_us as i128 + self.dur_us as i128
        } else {
            self.offset_us as i128
        };
        let dts: i128 = match self.packet.dts {
            Some(d) => d as i128 + self.offset_us as i128,
            None => 0,
        };
        let offset: i128 = match reply {
            ConcatReply::Opened(_, start) => self.find_offset(start),
            _ => 0,
        };
        self.count < i64::MAX && self.current < usize::MAX && next <= i64::MAX as i128 && dts
            >= i64::MIN as i128 && dts < i64::MAX as i128 && offset <= i64::MAX as i128
    }

    /// The offset of a file whose own timestamps begin at `start`.
    fn find_offset(&self, start: Option<i64>) -> (offset: i128)
        ensures
            offset == self.offset_for(start),
    {
        let start: i128 = match start {
            Some(t) => t as i128,
            None => 0,
        };
        let running: i128 = self.offset_us as i128;
        let reached: bool = match self.dts_us {
            Some(d) => d as i128 >= running + start,
            None => false,
        };
        let end: Option<i64> = latest(
            if reached || !self.reported {
                self.end_us
            } else {
                None
            },
            if reached {
                self.next_us
            } else {
                None
            },
        );
        match end {
            Some(e) => {
                let needed: i128 = e as i128 - start;
                if needed > running {
                    needed
                } else {
                    running
                }
            },
            None => running,
        }
    }

    /// The same job, once the packet that was read is written.
    fn count_packet(self) -> (next: Concat)
        requires
            self.has_room(ConcatReply::Done),
        ensures
            next == (Concat {
                packet: PacketTimes::unknown(),
                count: (self.count + 1) as i64,
                ..self.reaching(self.next_reach())
            }),
    {
        let end: Option<i64> = match self.packet.end {
            Some(e) => Some(capped_sum(e, self.offset_us)),
            None => None,
        };
        let dts: Option<i64> = shift_timestamp(self.packet.dts, self.offset_us);
        let newest: bool = match (dts, self.dts_us) {
            (Some(d), Some(last)) => last <= d,
            (Some(_), None) => true,
            (None, _) => false,
        };
        let (dts_us, next_us): (Option<i64>, Option<i64>) = match dts {
            Some(d) if newest => (dts, latest(Some(d + 1), end)),
            _ => (self.dts_us, self.next_us),
        };
        Concat {
            end_us: latest(self.end_us, end),
            dts_us,
            next_us,
            packet: PacketTimes { dts: None, end: None },
            count: self.count + 1,
            ..self
        }
    }

    /// The job after its task was answered with `reply`.
    ///
    /// All packets of a file are moved by the same time: the running duration
    /// of the files before it, or more where [`Reach::begin`] says so.
    pub open spec fn after(self, reply: ConcatReply) -> Concat {
        match self.task {
            ConcatTask::OpenOutput => self.either(reply, self.at(ConcatTask::OpenFirst)),
            ConcatTask::OpenFirst => match reply {
                ConcatReply::Streams(nstreams) => Concat { nstreams, ..self }.add_from(0),
                _ => self.broken(reply),
            },
            ConcatTask::AddStream(i) => self.either(reply, self.add_from(i + 1)),
            ConcatTask::WriteHeader => match reply {
                ConcatReply::Header(nstreams) => Concat { nstreams, ..self }.next_file(),
                _ => self.broken(reply),
            },
            ConcatTask::OpenInput(_) => match reply {
                ConcatReply::Opened(dur_us, start) => Concat {
                    dur_us,
                    offset_us: self.offset_for(start) as i64,
                    packet: PacketTimes::unknown(),
                    ..self.reaching(self.reach().opened())
                }.at(ConcatTask::Read),
                _ => self.broken(reply),
            },
            ConcatTask::Read => match reply {
                ConcatReply::Packet(stream, packet) => if stream < self.nstreams {
                    Concat { packet, ..self }.at(ConcatTask::WritePacket(stream))
                } else {
                    self
                },
                ConcatReply::End => Concat {
                    offset_us: self.next_offset() as i64,
                    reported: self.dur_us > 0,
                    dur_us: 0,
                    packet: PacketTimes::unknown(),
                    current: (self.current + 1) as usize,
                    ..self
                }.next_file(),
                _ => self.broken(reply),
            },
            ConcatTask::WritePacket(_) => self.either(
                reply,
                Concat {
                    packet: PacketTimes::unknown(),
                    count: (self.count + 1) as i64,
                    ..self.reaching(self.next_reach())
                }.at(ConcatTask::Read),
            ),
            ConcatTask::WriteTrailer => self.either(
                reply,
                self.at(ConcatTask::Finished(self.count)),
            ),
            ConcatTask::Finished(_) => self,
            ConcatTask::Failed(_) => self,
        }
    }

    /// A new job, for so many files.
    pub fn new(files: usize) -> (job: Concat)
        ensures
            job == Concat::fresh(files),
    {
        Concat {
            task: ConcatTask::OpenOutput,
            files,
            current: 0,
            nstreams: 0,
            offset_us: 0,
            dur_us: 0,
            reported: true,
            end_us: None,
            dts_us: None,
            next_us: None,
            packet: PacketTimes { dts: None, end: None },
            count: 0,
        }
    }

    fn to(self, task: ConcatTask) -> (next: Concat)
        ensures
            next == self.at(task),
    {
        Concat { task, ..self }
    }

    fn fail(self, reply: ConcatReply) -> (next: Concat)
        ensures
            next == self.broken(reply),
    {
        match reply {
            ConcatReply::Failed => self.to(ConcatTask::Failed(Failure::Engine)),
            _ => self.to(ConcatTask::Failed(Failure::Protocol)),
        }
    }

    fn settle(self, reply: ConcatReply, next: Concat) -> (r: Concat)
        ensures
            r == self.either(reply, next),
    {
        match reply {
            ConcatReply::Done => next,
            _ => self.fail(reply),
        }
    }

    fn to_next_file(self) -> (next: Concat)
        ensures
            next == self.next_file(),
    {
        if self.current < self.files {
            self.to(ConcatTask::OpenInput(self.current))
        } else {
            self.to(ConcatTask::WriteTrailer)
        }
    }

    /// Takes the answer to the pending task and decides on the next one. An
    /// answer that does not belong to the task ends the job.
    pub fn advance(&mut self, reply: ConcatReply)
        requires
            old(self).has_room(reply),
        ensures
            *final(self) == old(self).after(reply),
    {
        let c: Concat = *self;
        *self = match c.task {
            ConcatTask::OpenOutput => c.settle(reply, c.to(ConcatTask::OpenFirst)),
            ConcatTask::OpenFirst => match reply {
                ConcatReply::Streams(nstreams) => {
                    let known: Concat = Concat { nstreams, ..c };
                    if nstreams > 0 {
                        known.to(ConcatTask::AddStream(0))
                    } else {
                        known.to(ConcatTask::WriteHeader)
                    }
                },
                _ => c.fail(reply),
            },
            ConcatTask::AddStream(i) => {
                let next: Concat = if i < c.nstreams && i + 1 < c.nstreams {
                    c.to(ConcatTask::AddStream(i + 1))
                } else {
                    c.to(ConcatTask::WriteHeader)
                };
                c.settle(reply, next)
            },
            ConcatTask::WriteHeader => match reply {
                ConcatReply::Header(nstreams) => Concat { nstreams, ..c }.to_next_file(),
                _ => c.fail(reply),
            },
            ConcatTask::OpenInput(_) => match reply {
                ConcatReply::Opened(dur_us, start) => {
                    let offset_us: i64 = c.find_offset(start) as i64;
                    let packet: PacketTimes = PacketTimes { dts: None, end: None };
                    let open: Concat = Concat { dur_us, offset_us, end_us: None, packet, ..c };
                    open.to(ConcatTask::Read)
                },
                _ => c.fail(reply),
            },
            ConcatTask::Read => match reply {
                ConcatReply::Packet(stream, packet) => {
                    if stream < c.nstreams {
                        Concat { packet, ..c }.to(ConcatTask::WritePacket(stream))
                    } else {
                        c
                    }
                },
                ConcatReply::End => {
                    let offset_us: i64 = if c.dur_us > 0 {
                        c.offset_us + c.dur_us
                    } else {
                        c.offset_us
                    };
                    let current: usize = c.current + 1;
                    let packet: PacketTimes = PacketTimes { dts: None, end: None };
                    let reported: bool = c.dur_us > 0;
                    Concat { offset_us, reported, dur_us: 0, packet, current, ..c }.to_next_file()
                },
                _ => c.fail(reply),
            },
            ConcatTask::WritePacket(_) => {
                c.settle(reply, c.count_packet().to(ConcatTask::Read))
            },
            ConcatTask::WriteTrailer => c.settle(reply, c.to(ConcatTask::Finished(c.count))),
            ConcatTask::Finished(_) => c,
            ConcatTask::Failed(_) => c,
        };
    }
}

/// A timestamp moved by `shift` ticks; one that is missing stays missing.
pub open spec fn moved(t: Option<i64>, shift: i64) -> Option<int> {
    match t {
        Some(t) => Some(t + shift),
        None => None,
    }
}

/// A time, or the nearest one that can be counted.
pub open spec fn capped(t: Option<int>) -> Option<int> {
    match t {
        Some(t) => Some(
            if t > i64::MAX {
                i64::MAX as int
            } else if t < i64::MIN {
                i64::MIN as int
            } else {
                t
            },
        ),
        None => None,
    }
}

/// The sum of two times, or the nearest one that can be counted.
fn capped_sum(a: i64, b: i64) -> (r: i64)
    ensures
        Some(r as int) == capped(Some(a + b)),
{
    let sum: i128 = a as i128 + b as i128;
    if sum > i64::MAX as i128 {
        i64::MAX
    } else if sum < i64::MIN as i128 {
        i64::MIN
    } else {
        sum as i64
    }
}

/// Whether a timestamp can be moved by `shift` ticks.
pub open spec fn can_move(t: Option<i64>, shift: i64) -> bool {
    moved(t, shift) matches Some(m) ==> i64::MIN <= m <= i64::MAX
}

/// Moves a timestamp by `shift` ticks, the offset of its file in the time
/// base of its output stream.
pub fn shift_timestamp(t: Option<i64>, shift: i64) -> (r: Option<i64>)
    requires
        can_move(t, shift),
    ensures
        r == (match moved(t, shift) {
            Some(m) => Some(m as i64),
            None => None,
        }),
        t matches Some(x) ==> r == Some((x + shift) as i64),
        t is None ==> r is None,
{
    match t {
        Some(t) => Some(t + shift),
        None => None,
    }
}

/// The timestamp at which a packet ends, one tick after its last timestamp at
/// least, as far as that can be counted.
pub open spec fn end_of(pts: Option<i64>, dts: Option<i64>, duration: i64) -> Option<int> {
    match later(widened(pts), widened(dts)) {
        Some(t) => {
            let end = t + (if duration > 1 {
                duration as int
            } else {
                1
            });
            Some(
                if end <= i64::MAX {
                    end
                } else {
                    i64::MAX as int
                },
            )
        },
        None => None,
    }
}

/// The timestamp at which a packet ends, in the ticks of its timestamps: the
/// later one and the duration of the packet, or one tick where it has none.
pub fn packet_end(pts: Option<i64>, dts: Option<i64>, duration: i64) -> (end: Option<i64>)
    ensures
        widened(end) == end_of(pts, dts, duration),
{
    let last: i64 = match (pts, dts) {
        (Some(p), Some(d)) => {
            if p >= d {
                p
            } else {
                d
            }
        },
        (Some(p), None) => p,
        (None, Some(d)) => d,
        (None, None) => return None,
    };
    let length: i64 = if duration > 1 {
        duration
    } else {
        1
    };
    if last <= i64::MAX - length {
        Some(last + length)
    } else {
        Some(i64::MAX)
    }
}

} // verus!
