//! Putting the video of one file and the audio of another into a third, by
//! copying their packets in the order of their timestamps.
use crate::media::{Failure, PacketStamp, Rational, StreamPick};
use crate::session::{set_err, set_op_err, Session};
use crate::text::cstr;
use vstd::prelude::*;

verus! {

/// The work that a job waits for.
#[derive(Clone, Copy, Debug, PartialEq, Eq, Structural)]
pub enum MuxTask {
    /// Open the file that holds the video.
    OpenVideoInput,
    /// Open the file that holds the audio.
    OpenAudioInput,
    /// Name the best video stream of the first file.
    PickVideo,
    /// Name the best audio stream of the second file.
    PickAudio,
    /// Open the output file.
    OpenOutput,
    /// Add a stream with the parameters of the video stream.
    AddVideo,
    /// Add a stream with the parameters of the audio stream.
    AddAudio,
    /// Write the header of the output.
    WriteHeader,
    /// Read the next packet of the first file.
    ReadVideo,
    /// Read the next packet of the second file.
    ReadAudio,
    /// Write the video packet that was read.
    WriteVideo,
    /// Write the audio packet that was read.
    WriteAudio,
    /// Write the trailer of the output.
    WriteTrailer,
    /// The job is over; so many video packets were written.
    Finished(i64),
    /// The job is over, without a result.
    Failed(Failure),
}

/// The answer to a [`MuxTask`].
#[derive(Clone, Copy, Debug, PartialEq, Eq, Structural)]
pub enum MuxReply {
    /// It was done.
    Done,
    /// The call failed.
    Failed,
    /// The best stream, where there is one.
    Picked(Option<StreamPick>),
    /// The header is written; the time bases of the first and second stream.
    Header(Rational, Rational),
    /// A packet was read: its stream, and its decoding time in microseconds.
    Packet(usize, i64),
    /// There are no more packets.
    End,
}

/// One of the two inputs.
#[derive(Clone, Copy, Debug, PartialEq, Eq, Structural)]
pub struct MuxSide {
    pub index: usize,
    pub in_tb: Rational,
    pub out_tb: Rational,
    /// The time of the packet that was read and not yet written.
    pub pending: Option<i64>,
    /// The file has no more packets.
    pub done: bool,
}

/// A job, between two tasks.
#[derive(Clone, Copy, Debug, PartialEq, Eq, Structural)]
pub struct Mux {
    pub task: MuxTask,
    pub video: MuxSide,
    pub audio: MuxSide,
    /// How many video packets were written.
    pub count: i64,
}

impl MuxSide {
    /// Whether the next packet of this input has to be read.
    pub open spec fn wants_packet(self) -> bool {
        self.pending is None && !self.done
    }

    /// This input after a packet of the stream was read.
    pub open spec fn took(self, stream: usize, time: i64) -> MuxSide {
        if stream == self.index {
            MuxSide { pending: Some(time), ..self }
        } else {
            self
        }
    }

    /// This input after its end was found.
    pub open spec fn ended(self) -> MuxSide {
        MuxSide { done: true, ..self }
    }

    /// This input after its packet was written.
    pub open spec fn gave(self) -> MuxSide {
        MuxSide { pending: None, ..self }
    }

    /// An input of which nothing is known.
    pub open spec fn unknown() -> MuxSide {
        MuxSide {
            index: 0,
            in_tb: Rational { num: 1, den: 1 },
            out_tb: Rational { num: 1, den: 1 },
            pending: None,
            done: false,
        }
    }
}

impl Mux {
    /// A job that has not begun.
    pub open spec fn fresh() -> Mux {
        Mux {
            task: MuxTask::OpenVideoInput,
            video: MuxSide::unknown(),
            audio: MuxSide::unknown(),
            count: 0,
        }
    }

    /// The same job, waiting for another task.
    pub open spec fn at(self, task: MuxTask) -> Mux {
        Mux { task, ..self }
    }

    /// The end of a job whose task was answered with `reply` to no avail.
    pub open spec fn broken(self, reply: MuxReply) -> Mux {
        self.at(
            MuxTask::Failed(
                if reply is Failed {
                    Failure::Engine
                } else {
                    Failure::Protocol
                },
            ),
        )
    }

    /// What follows a task that either succeeds, and then leads to `next`, or
    /// fails.
    pub open spec fn either(self, reply: MuxReply, next: Mux) -> Mux {
        if reply is Done {
            next
        } else {
            self.broken(reply)
        }
    }

    /// Whether the pending video packet is written before the pending audio
    /// packet: where it is no later, or where there is no other.
    pub open spec fn video_first(self) -> bool {
        match (self.video.pending, self.audio.pending) {
            (Some(v), Some(a)) => v <= a,
            (Some(_), None) => true,
            _ => false,
        }
    }

    /// The next task while packets move: one packet of each input is kept at
    /// hand as long as there are any, and the earlier one is written.
    pub open spec fn choice(self) -> Mux {
        self.at(
            if self.video.wants_packet() {
                MuxTask::ReadVideo
            } else if self.audio.wants_packet() {
                MuxTask::ReadAudio
            } else if self.video.pending is None && self.audio.pending is None {
                MuxTask::WriteTrailer
            } else if self.video_first() {
                MuxTask::WriteVideo
            } else {
                MuxTask::WriteAudio
            },
        )
    }

    /// The job after its task was answered with `reply`.
    pub open spec fn after(self, reply: MuxReply) -> Mux {
        match self.task {
            MuxTask::OpenVideoInput => self.either(reply, self.at(MuxTask::OpenAudioInput)),
            MuxTask::OpenAudioInput => self.either(reply, self.at(MuxTask::PickVideo)),
            MuxTask::PickVideo => match reply {
                MuxReply::Picked(Some(p)) => Mux {
                    video: MuxSide { index: p.index, in_tb: p.time_base, ..self.video },
                    ..self
                }.at(MuxTask::PickAudio),
                MuxReply::Picked(None) => self.at(MuxTask::Failed(Failure::StreamNotFound)),
                _ => self.broken(reply),
            },
            MuxTask::PickAudio => match reply {
                MuxReply::Picked(Some(p)) => Mux {
                    audio: MuxSide { index: p.index, in_tb: p.time_base, ..self.audio },
                    ..self
                }.at(MuxTask::OpenOutput),
                MuxReply::Picked(None) => self.at(MuxTask::Failed(Failure::StreamNotFound)),
                _ => self.broken(reply),
            },
            MuxTask::OpenOutput => self.either(reply, self.at(MuxTask::AddVideo)),
            MuxTask::AddVideo => self.either(reply, self.at(MuxTask::AddAudio)),
            MuxTask::AddAudio => self.either(reply, self.at(MuxTask::WriteHeader)),
            MuxTask::WriteHeader => match reply {
                MuxReply::Header(v, a) => Mux {
                    video: MuxSide { out_tb: v, ..self.video },
                    audio: MuxSide { out_tb: a, ..self.audio },
                    ..self
                }.choice(),
                _ => self.broken(reply),
            },
            MuxTask::ReadVideo => match reply {
                MuxReply::Packet(stream, time) => Mux {
                    video: self.video.took(stream, time),
                    ..self
                }.choice(),
                MuxReply::End => Mux { video: self.video.ended(), ..self }.choice(),
                _ => self.broken(reply),
            },
            MuxTask::ReadAudio => match reply {
                MuxReply::Packet(stream, time) => Mux {
                    audio: self.audio.took(stream, time),
                    ..self
                }.choice(),
                MuxReply::End => Mux { audio: self.audio.ended(), ..self }.choice(),
                _ => self.broken(reply),
            },
            MuxTask::WriteVideo => self.either(
                reply,
                Mux { video: self.video.gave(), count: (self.count + 1) as i64, ..self }.choice(),
            ),
            MuxTask::WriteAudio => self.either(
                reply,
                Mux { audio: self.audio.gave(), ..self }.choice(),
            ),
            MuxTask::WriteTrailer => self.either(reply, self.at(MuxTask::Finished(self.count))),
            MuxTask::Finished(_) => self,
            MuxTask::Failed(_) => self,
        }
    }

    /// A new job.
    pub fn new() -> (job: Mux)
        ensures
            job == Mux::fresh(),
    {
        let side: MuxSide = MuxSide {
            index: 0,
            in_tb: Rational::new(1, 1),
            out_tb: Rational::new(1, 1),
            pending: None,
            done: false,
        };
        Mux { task: MuxTask::OpenVideoInput, video: side, audio: side, count: 0 }
    }

    /// How a video packet is written: to the first stream.
    pub fn video_stamp(&self) -> (s: PacketStamp)
        ensures
            s == (PacketStamp {
                stream: 0,
                duration: None,
                from: self.video.in_tb,
                to: self.video.out_tb,
                forget_position: true,
            }),
    {
        PacketStamp {
            stream: 0,
            duration: None,
            from: self.video.in_tb,
            to: self.video.out_tb,
            forget_position: true,
        }
    }

    /// How an audio packet is written: to the second stream.
    pub fn audio_stamp(&self) -> (s: PacketStamp)
        ensures
            s == (PacketStamp {
                stream: 1,
                duration: None,
                from: self.audio.in_tb,
                to: self.audio.out_tb,
                forget_position: true,
            }),
    {
        PacketStamp {
            stream: 1,
            duration: None,
            from: self.audio.in_tb,
            to: self.audio.out_tb,
            forget_position: true,
        }
    }

    fn to(self, task: MuxTask) -> (next: Mux)
        ensures
            next == self.at(task),
    {
        Mux { task, ..self }
    }

    fn fail(self, reply: MuxReply) -> (next: Mux)
        ensures
            next == self.broken(reply),
    {
        match reply {
            MuxReply::Failed => self.to(MuxTask::Failed(Failure::Engine)),
            _ => self.to(MuxTask::Failed(Failure::Protocol)),
        }
    }

    fn settle(self, reply: MuxReply, next: Mux) -> (r: Mux)
        ensures
            r == self.either(reply, next),
    {
        match reply {
            MuxReply::Done => next,
            _ => self.fail(reply),
        }
    }

    /// Decides on the next task while packets move.
    fn choose_next(self) -> (next: Mux)
        ensures
            next == self.choice(),
    {
        if self.video.pending.is_none() && !self.video.done {
            return self.to(MuxTask::ReadVideo);
        }
        if self.audio.pending.is_none() && !self.audio.done {
            return self.to(MuxTask::ReadAudio);
        }
        let take_video: bool = match (self.video.pending, self.audio.pending) {
            (Some(v), Some(a)) => v <= a,
            (Some(_), None) => true,
            (None, Some(_)) => false,
            (None, None) => return self.to(MuxTask::WriteTrailer),
        };
        if take_video {
            self.to(MuxTask::WriteVideo)
        } else {
            self.to(MuxTask::WriteAudio)
        }
    }

    /// Takes the answer to the pending task and decides on the next one. An
    /// answer that does not belong to the task ends the job.
    pub fn advance(&mut self, reply: MuxReply)
        requires
            old(self).count < i64::MAX,
        ensures
            *final(self) == old(self).after(reply),
    {
        let m: Mux = *self;
        *self = match m.task {
            MuxTask::OpenVideoInput => m.settle(reply, m.to(MuxTask::OpenAudioInput)),
            MuxTask::OpenAudioInput => m.settle(reply, m.to(MuxTask::PickVideo)),
            MuxTask::PickVideo => match reply {
                MuxReply::Picked(Some(p)) => {
                    let video: MuxSide = MuxSide { index: p.index, in_tb: p.time_base, ..m.video };
                    Mux { video, ..m }.to(MuxTask::PickAudio)
                },
                MuxReply::Picked(None) => m.to(MuxTask::Failed(Failure::StreamNotFound)),
                _ => m.fail(reply),
            },
            MuxTask::PickAudio => match reply {
                MuxReply::Picked(Some(p)) => {
                    let audio: MuxSide = MuxSide { index: p.index, in_tb: p.time_base, ..m.audio };
                    Mux { audio, ..m }.to(MuxTask::OpenOutput)
                },
                MuxReply::Picked(None) => m.to(MuxTask::Failed(Failure::StreamNotFound)),
                _ => m.fail(reply),
            },
            MuxTask::OpenOutput => m.settle(reply, m.to(MuxTask::AddVideo)),
            MuxTask::AddVideo => m.settle(reply, m.to(MuxTask::AddAudio)),
            MuxTask::AddAudio => m.settle(reply, m.to(MuxTask::WriteHeader)),
            MuxTask::WriteHeader => match reply {
                MuxReply::Header(v, a) => {
                    let video: MuxSide = MuxSide { out_tb: v, ..m.video };
                    let audio: MuxSide = MuxSide { out_tb: a, ..m.audio };
                    Mux { video, audio, ..m }.choose_next()
                },
                _ => m.fail(reply),
            },
            MuxTask::ReadVideo => match reply {
                MuxReply::Packet(stream, time) => {
                    if stream == m.video.index {
                        let video: MuxSide = MuxSide { pending: Some(time), ..m.video };
                        Mux { video, ..m }.choose_next()
                    } else {
                        m.choose_next()
                    }
                },
                MuxReply::End => {
                    let video: MuxSide = MuxSide { done: true, ..m.video };
                    Mux { video, ..m }.choose_next()
                },
                _ => m.fail(reply),
            },
            MuxTask::ReadAudio => match reply {
                MuxReply::Packet(stream, time) => {
                    if stream == m.audio.index {
                        let audio: MuxSide = MuxSide { pending: Some(time), ..m.audio };
                        Mux { audio, ..m }.choose_next()
                    } else {
                        m.choose_next()
                    }
                },
                MuxReply::End => {
                    let audio: MuxSide = MuxSide { done: true, ..m.audio };
                    Mux { audio, ..m }.choose_next()
                },
                _ => m.fail(reply),
            },
            MuxTask::WriteVideo => {
                let video: MuxSide = MuxSide { pending: None, ..m.video };
                let count: i64 = m.count + 1;
                m.settle(reply, Mux { video, count, ..m }.choose_next())
            },
            MuxTask::WriteAudio => {
                let audio: MuxSide = MuxSide { pending: None, ..m.audio };
                m.settle(reply, Mux { audio, ..m }.choose_next())
            },
            MuxTask::WriteTrailer => m.settle(reply, m.to(MuxTask::Finished(m.count))),
            MuxTask::Finished(_) => m,
            MuxTask::Failed(_) => m,
        };
    }
}

/// The decoding time that a packet is ordered by: zero where it has none.
pub fn ordering_dts(dts: Option<i64>) -> (t: i64)
    ensures
        t == (match dts {
            Some(d) => d,
            None => 0,
        }),
{
    match dts {
        Some(d) => d,
        None => 0,
    }
}

/// What an accepted request asks for.
pub struct MuxRequest {
    pub video: String,
    pub audio: String,
    pub output: String,
}

/// Which argument of a request is missing, where one is: the message that is
/// then remembered.
pub open spec fn mux_refusal(
    video: Option<Seq<char>>,
    audio: Option<Seq<char>>,
    output: Option<Seq<char>>,
) -> Option<Seq<char>> {
    if video is None {
        Some("mux: null video path"@)
    } else if audio is None {
        Some("mux: null audio path"@)
    } else if output is None {
        Some("mux: null out path"@)
    } else {
        None
    }
}

/// Asks for a file that holds the video of one file and the audio of another.
/// A request without one of its paths is refused with the code `-1`.
pub fn chuks_ffmpeg_mux(
    session: &mut Session,
    video_path: Option<&[u8]>,
    audio_path: Option<&[u8]>,
    out_path: Option<&[u8]>,
) -> (r: Result<MuxRequest, i64>)
    ensures
        match mux_refusal(
            crate::text::arg(video_path),
            crate::text::arg(audio_path),
            crate::text::arg(out_path),
        ) {
            Some(message) => r == Err::<MuxRequest, i64>(-1i64) && final(session)@ == old(session)@.failed_with(message),
            None => {
                &&& final(session)@ == old(session)@
                &&& r matches Ok(q)
                &&& q.video@ == crate::text::arg(video_path)->0
                &&& q.audio@ == crate::text::arg(audio_path)->0
                &&& q.output@ == crate::text::arg(out_path)->0
            },
        },
{
    let video: String = match cstr(video_path) {
        Some(s) => s,
        None => {
            set_err(session, "mux: null video path");
            return Err(-1);
        },
    };
    let audio: String = match cstr(audio_path) {
        Some(s) => s,
        None => {
            set_err(session, "mux: null audio path");
            return Err(-1);
        },
    };
    let output: String = match cstr(out_path) {
        Some(s) => s,
        None => {
            set_err(session, "mux: null out path");
            return Err(-1);
        },
    };
    Ok(MuxRequest { video, audio, output })
}

/// What a job reports: the number of video packets written, or `-1` for an
/// error, which is remembered.
pub fn finish_mux(session: &mut Session, outcome: Result<i64, String>) -> (n: i64)
    ensures
        outcome matches Ok(count) ==> n == count && final(session)@ == old(session)@,
        outcome matches Err(e) ==> n == -1 && final(session)@ == old(session)@.failed_with(
            crate::session::prefixed("mux"@, e@),
        ),
{
    match outcome {
        Ok(count) => count,
        Err(e) => {
            set_op_err(session, "mux", e.as_str());
            -1
        },
    }
}

} // verus!
