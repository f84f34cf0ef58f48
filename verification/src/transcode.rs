//! Transcoding: decode, filter and re-encode the video of a file, and carry
//! its audio along, copied or re-encoded.
//!
//! [`Transcode`] decides what happens next. The caller performs the task that
//! it names and answers it with [`Transcode::advance`], until the task is
//! [`Task::Finished`] or [`Task::Failed`].
use crate::encoder::{resolve_video_encoder, EncoderSearch};
use crate::graph::{build_video_filter, GraphPlan};
use crate::media::{
    frame_rate_or_default, Failure, PacketStamp, PixelFormat, Rational, StreamPick, VideoPick,
};
use crate::session::{set_err, set_op_err, Session};
use crate::text::{cstr, same_text};
use vstd::prelude::*;

verus! {

/// The work that a transcoding job waits for.
#[derive(Clone, Copy, Debug, PartialEq, Eq, Structural)]
pub enum Task {
    /// Open the input file.
    OpenInput,
    /// Name the best video stream of the input.
    PickVideo,
    /// Open a decoder for the video stream.
    OpenVideoDecoder,
    /// Open the output file.
    OpenOutput,
    /// Resolve the encoder family to an encoder that is built in.
    FindVideoEncoder,
    /// Add the video stream to the output.
    AddVideoStream,
    /// Name the best audio stream of the input.
    PickAudio,
    /// Open a decoder for the audio stream.
    OpenAudioDecoder,
    /// Find the audio encoder by its name.
    FindAudioEncoder,
    /// Add a stream for re-encoded audio to the output.
    AddAudioStream,
    /// Find the first sample format of the audio encoder.
    PickSampleFormat,
    /// Open the audio encoder, as [`Transcode::audio_encoder_config`] says.
    OpenAudioEncoder,
    /// Build the graph between audio decoder and audio encoder.
    BuildAudioGraph,
    /// Add a stream that takes the parameters of the input's audio stream.
    AddCopyStream,
    /// Read the next packet of the input.
    Demux,
    /// Send the packet that was read to the video decoder.
    SendVideo,
    /// Tell the video decoder that the input has ended.
    SendVideoEof,
    /// Ask the video decoder for a frame.
    ReceiveVideo,
    /// Build the video graph from the decoded frame.
    BuildVideoGraph,
    /// Feed the decoded frame to the video graph.
    FeedVideo,
    /// Tell the video graph that its input has ended.
    FlushVideo,
    /// Ask the video graph for a frame.
    PullVideo,
    /// Open the video encoder for the filtered frame.
    OpenVideoEncoder,
    /// Write the header of the output.
    WriteHeader,
    /// Write the audio packet of that number, which was kept until now.
    WriteBuffered(u64),
    /// Send the filtered frame to the video encoder, with this timestamp.
    EncodeFrame(i64),
    /// Ask the video encoder for a packet.
    ReceiveVideoPacket,
    /// Write the packet of the video encoder.
    WriteVideo,
    /// Tell the video encoder that there are no more frames.
    SendEncoderEof,
    /// Send the packet that was read to the audio decoder.
    SendAudio,
    /// Tell the audio decoder that the input has ended.
    SendAudioEof,
    /// Ask the audio decoder for a frame.
    ReceiveAudio,
    /// Feed the decoded audio frame to the audio graph.
    FeedAudio,
    /// Tell the audio graph that its input has ended.
    FlushAudio,
    /// Ask the audio graph for a frame.
    PullAudio,
    /// Send the filtered audio frame to the audio encoder.
    EncodeAudio,
    /// Ask the audio encoder for a packet.
    ReceiveAudioPacket,
    /// Tell the audio encoder that there are no more frames.
    SendAudioEncoderEof,
    /// Keep the audio packet of that number until the header is written.
    BufferAudio(u64),
    /// Write the audio packet of that number.
    WriteAudio(u64),
    /// Write the trailer of the output.
    WriteTrailer,
    /// The job is over; so many video frames were encoded.
    Finished(i64),
    /// The job is over, without a result.
    Failed(Failure),
}

/// What an audio decoder says of the stream that it was opened for.
#[derive(Clone, Copy, Debug, PartialEq, Eq, Structural)]
pub struct AudioFacts {
    pub rate: u32,
    pub channels: u16,
    pub bit_rate: usize,
}

/// The answer to a [`Task`].
#[derive(Clone, Copy, Debug, PartialEq, Eq, Structural)]
pub enum Reply {
    /// It was done.
    Done,
    /// The call failed.
    Failed,
    /// Whether there was something: a frame, a packet, an encoder, a format.
    Got(bool),
    /// A packet of the stream of that number was read.
    Packet(usize),
    /// There are no more packets.
    End,
    /// The best video stream.
    Video(Option<VideoPick>),
    /// The best audio stream.
    Audio(Option<StreamPick>),
    /// The output is open; whether its format wants global headers.
    Output(bool),
    /// The number of the stream that was added.
    Stream(usize),
    /// The audio decoder is open.
    AudioDecoder(AudioFacts),
    /// The encoder is open, with this time base.
    Encoder(Rational),
    /// The header is written; the time bases of the video and audio streams.
    Header(Rational, Rational),
}

/// How the audio of the input reaches the output.
#[derive(Clone, Copy, Debug, PartialEq, Eq, Structural)]
pub enum AudioMode {
    /// Not at all: there is none.
    Absent,
    /// Its packets are copied.
    Copy,
    /// It is decoded and encoded again.
    Reencode,
}

/// The video half of a job.
#[derive(Clone, Copy, Debug, PartialEq, Eq, Structural)]
pub struct VideoSide {
    pub index: usize,
    pub time_base: Rational,
    /// The frame rate of the output.
    pub rate: Rational,
    pub out_index: usize,
    pub encoder_tb: Rational,
    pub out_tb: Rational,
    /// The graph has been built.
    pub graph: bool,
    /// The decoder has been told of the end.
    pub eof: bool,
    /// The graph has been told of the end.
    pub flushed: bool,
    /// The encoder is open and the header is written.
    pub opened: bool,
    /// The encoder has been told of the end.
    pub encoder_eof: bool,
    /// How many frames were encoded, and the timestamp of the next one.
    pub frames: i64,
}

/// The audio half of a job.
#[derive(Clone, Copy, Debug, PartialEq, Eq, Structural)]
pub struct AudioSide {
    pub mode: AudioMode,
    pub index: usize,
    pub time_base: Rational,
    pub facts: AudioFacts,
    pub out_index: usize,
    /// The time base that the packets come in.
    pub src_tb: Rational,
    pub out_tb: Rational,
    pub eof: bool,
    pub flushed: bool,
    pub encoder_eof: bool,
    /// How many packets have come out, written or kept.
    pub emitted: u64,
    /// How many of them were written.
    pub written: u64,
}

/// A transcoding job, between two tasks.
#[derive(Clone, Copy, Debug, PartialEq, Eq, Structural)]
pub struct Transcode {
    pub task: Task,
    /// Whether audio, where there is any, is encoded again.
    pub reencode: bool,
    /// Whether the output format wants global headers.
    pub global_header: bool,
    pub video: VideoSide,
    pub audio: AudioSide,
}

/// Whether an audio codec argument asks for a new encoding: neither an empty
/// one nor `copy` does.
pub open spec fn asks_reencode(audio_codec: Seq<char>) -> bool {
    audio_codec.len() != 0 && audio_codec != "copy"@
}

/// The time base that stands where none is known yet.
pub open spec fn unit() -> Rational {
    Rational { num: 1, den: 1 }
}

impl Transcode {
    /// A job that has not begun.
    pub open spec fn fresh(reencode: bool) -> Transcode {
        Transcode {
            task: Task::OpenInput,
            reencode,
            global_header: false,
            video: VideoSide {
                index: 0,
                time_base: unit(),
                rate: unit(),
                out_index: 0,
                encoder_tb: unit(),
                out_tb: unit(),
                graph: false,
                eof: false,
                flushed: false,
                opened: false,
                encoder_eof: false,
                frames: 0,
            },
            audio: AudioSide {
                mode: AudioMode::Absent,
                index: 0,
                time_base: unit(),
                facts: AudioFacts { rate: 0, channels: 0, bit_rate: 0 },
                out_index: 0,
                src_tb: unit(),
                out_tb: unit(),
                eof: false,
                flushed: false,
                encoder_eof: false,
                emitted: 0,
                written: 0,
            },
        }
    }

    /// The same job, waiting for another task.
    pub open spec fn at(self, task: Task) -> Transcode {
        Transcode { task, ..self }
    }

    /// The same job, with another video half.
    pub open spec fn with_video(self, video: VideoSide) -> Transcode {
        Transcode { video, ..self }
    }

    /// The same job, with another audio half.
    pub open spec fn with_audio(self, audio: AudioSide) -> Transcode {
        Transcode { audio, ..self }
    }

    /// What follows a task that either succeeds, and then leads to `next`, or
    /// fails.
    pub open spec fn either(self, reply: Reply, next: Transcode) -> Transcode {
        match reply {
            Reply::Done => next,
            _ => self.broken(reply),
        }
    }

    /// The end of a job whose task was answered with `reply` to no avail.
    pub open spec fn broken(self, reply: Reply) -> Transcode {
        self.at(
            Task::Failed(
                if reply is Failed {
                    Failure::Engine
                } else {
                    Failure::Protocol
                },
            ),
        )
    }

    /// An audio packet has come out: it is written, or kept where there is no
    /// header yet.
    pub open spec fn emit(self) -> Transcode {
        self.at(
            if self.video.opened {
                Task::WriteAudio(self.audio.emitted)
            } else {
                Task::BufferAudio(self.audio.emitted)
            },
        )
    }

    /// An audio packet has been dealt with.
    pub open spec fn resume(self) -> Transcode {
        self.at(
            if self.audio.mode is Reencode {
                Task::ReceiveAudioPacket
            } else {
                Task::Demux
            },
        )
    }

    /// The header is written: first come the audio packets that were kept
    /// for it, then the frame that led to it.
    pub open spec fn catch_up(self) -> Transcode {
        self.at(
            if self.audio.written < self.audio.emitted {
                Task::WriteBuffered(self.audio.written)
            } else {
                Task::EncodeFrame(self.video.frames)
            },
        )
    }

    /// The job after its task was answered, while it sets up.
    pub open spec fn after_setup(self, reply: Reply) -> Transcode {
        match self.task {
            Task::OpenInput => self.either(reply, self.at(Task::PickVideo)),
            Task::PickVideo => match reply {
                Reply::Video(Some(v)) => self.with_video(
                    VideoSide {
                        index: v.index,
                        time_base: v.time_base,
                        rate: v.rate.usable_rate(),
                        ..self.video
                    },
                ).at(Task::OpenVideoDecoder),
                Reply::Video(None) => self.at(Task::Failed(Failure::StreamNotFound)),
                _ => self.broken(reply),
            },
            Task::OpenVideoDecoder => self.either(reply, self.at(Task::OpenOutput)),
            Task::OpenOutput => match reply {
                Reply::Output(global_header) => Transcode {
                    global_header,
                    ..self
                }.at(Task::FindVideoEncoder),
                _ => self.broken(reply),
            },
            Task::FindVideoEncoder => match reply {
                Reply::Got(true) => self.at(Task::AddVideoStream),
                Reply::Got(false) => self.at(Task::Failed(Failure::EncoderNotFound)),
                _ => self.broken(reply),
            },
            Task::AddVideoStream => match reply {
                Reply::Stream(out_index) => self.with_video(
                    VideoSide { out_index, ..self.video },
                ).at(Task::PickAudio),
                _ => self.broken(reply),
            },
            Task::PickAudio => match reply {
                Reply::Audio(Some(a)) => self.with_audio(
                    AudioSide { index: a.index, time_base: a.time_base, ..self.audio },
                ).at(
                    if self.reencode {
                        Task::OpenAudioDecoder
                    } else {
                        Task::AddCopyStream
                    },
                ),
                Reply::Audio(None) => self.at(Task::Demux),
                _ => self.broken(reply),
            },
            Task::OpenAudioDecoder => match reply {
                Reply::AudioDecoder(facts) => self.with_audio(
                    AudioSide { facts, ..self.audio },
                ).at(Task::FindAudioEncoder),
                _ => self.broken(reply),
            },
            Task::FindAudioEncoder => match reply {
                Reply::Got(true) => self.at(Task::AddAudioStream),
                Reply::Got(false) => self.at(Task::Failed(Failure::EncoderNotFound)),
                _ => self.broken(reply),
            },
            Task::AddAudioStream => match reply {
                Reply::Stream(out_index) => self.with_audio(
                    AudioSide { out_index, ..self.audio },
                ).at(Task::PickSampleFormat),
                _ => self.broken(reply),
            },
            Task::PickSampleFormat => match reply {
                Reply::Got(true) => self.at(Task::OpenAudioEncoder),
                Reply::Got(false) => self.at(Task::Failed(Failure::EncoderNotFound)),
                _ => self.broken(reply),
            },
            Task::OpenAudioEncoder => match reply {
                Reply::Encoder(src_tb) => self.with_audio(
                    AudioSide { src_tb, ..self.audio },
                ).at(Task::BuildAudioGraph),
                _ => self.broken(reply),
            },
            Task::BuildAudioGraph => self.either(
                reply,
                self.with_audio(AudioSide { mode: AudioMode::Reencode, ..self.audio }).at(
                    Task::Demux,
                ),
            ),
            Task::AddCopyStream => match reply {
                Reply::Stream(out_index) => self.with_audio(
                    AudioSide {
                        mode: AudioMode::Copy,
                        out_index,
                        src_tb: self.audio.time_base,
                        ..self.audio
                    },
                ).at(Task::Demux),
                _ => self.broken(reply),
            },
            _ => self,
        }
    }

    /// The job after its task was answered, while it moves video.
    pub open spec fn after_video(self, reply: Reply) -> Transcode {
        match self.task {
            Task::SendVideo => self.either(reply, self.at(Task::ReceiveVideo)),
            Task::SendVideoEof => self.either(
                reply,
                self.with_video(VideoSide { eof: true, ..self.video }).at(Task::ReceiveVideo),
            ),
            Task::ReceiveVideo => match reply {
                Reply::Got(true) => self.at(
                    if self.video.graph {
                        Task::FeedVideo
                    } else {
                        Task::BuildVideoGraph
                    },
                ),
                Reply::Got(false) => self.at(
                    if !self.video.eof {
                        Task::Demux
                    } else if self.video.graph {
                        Task::FlushVideo
                    } else {
                        Task::Finished(0)
                    },
                ),
                _ => self.broken(reply),
            },
            Task::BuildVideoGraph => self.either(
                reply,
                self.with_video(VideoSide { graph: true, ..self.video }).at(Task::FeedVideo),
            ),
            Task::FeedVideo => self.either(reply, self.at(Task::PullVideo)),
            Task::FlushVideo => self.either(
                reply,
                self.with_video(VideoSide { flushed: true, ..self.video }).at(Task::PullVideo),
            ),
            Task::PullVideo => match reply {
                Reply::Got(true) => self.at(
                    if self.video.opened {
                        Task::EncodeFrame(self.video.frames)
                    } else {
                        Task::OpenVideoEncoder
                    },
                ),
                Reply::Got(false) => self.at(
                    if !self.video.flushed {
                        Task::ReceiveVideo
                    } else if self.video.opened {
                        Task::SendEncoderEof
                    } else {
                        Task::Finished(0)
                    },
                ),
                _ => self.broken(reply),
            },
            Task::OpenVideoEncoder => match reply {
                Reply::Encoder(encoder_tb) => self.with_video(
                    VideoSide { encoder_tb, ..self.video },
                ).at(Task::WriteHeader),
                _ => self.broken(reply),
            },
            Task::WriteHeader => match reply {
                Reply::Header(v, a) => self.with_video(
                    VideoSide { out_tb: v, opened: true, ..self.video },
                ).with_audio(
                    AudioSide {
                        out_tb: if self.audio.mode is Absent {
                            self.audio.out_tb
                        } else {
                            a
                        },
                        ..self.audio
                    },
                ).catch_up(),
                _ => self.broken(reply),
            },
            Task::WriteBuffered(n) => self.either(
                reply,
                self.with_audio(
                    AudioSide { written: (self.audio.written + 1) as u64, ..self.audio },
                ).catch_up(),
            ),
            Task::EncodeFrame(pts) => self.either(
                reply,
                self.with_video(
                    VideoSide { frames: (self.video.frames + 1) as i64, ..self.video },
                ).at(Task::ReceiveVideoPacket),
            ),
            Task::ReceiveVideoPacket => match reply {
                Reply::Got(true) => self.at(Task::WriteVideo),
                Reply::Got(false) => self.at(
                    if !self.video.encoder_eof {
                        Task::PullVideo
                    } else if self.audio.mode is Reencode {
                        Task::SendAudioEof
                    } else {
                        Task::WriteTrailer
                    },
                ),
                _ => self.broken(reply),
            },
            Task::WriteVideo => self.either(reply, self.at(Task::ReceiveVideoPacket)),
            Task::SendEncoderEof => self.either(
                reply,
                self.with_video(VideoSide { encoder_eof: true, ..self.video }).at(
                    Task::ReceiveVideoPacket,
                ),
            ),
            _ => self,
        }
    }

    /// The job after its task was answered, while it moves audio.
    pub open spec fn after_audio(self, reply: Reply) -> Transcode {
        match self.task {
            Task::SendAudio => self.either(reply, self.at(Task::ReceiveAudio)),
            Task::SendAudioEof => self.either(
                reply,
                self.with_audio(AudioSide { eof: true, ..self.audio }).at(Task::ReceiveAudio),
            ),
            Task::ReceiveAudio => match reply {
                Reply::Got(true) => self.at(Task::FeedAudio),
                Reply::Got(false) => self.at(
                    if self.audio.eof {
                        Task::FlushAudio
                    } else {
                        Task::Demux
                    },
                ),
                _ => self.broken(reply),
            },
            Task::FeedAudio => self.either(reply, self.at(Task::PullAudio)),
            Task::FlushAudio => self.either(
                reply,
                self.with_audio(AudioSide { flushed: true, ..self.audio }).at(Task::PullAudio),
            ),
            Task::PullAudio => match reply {
                Reply::Got(true) => self.at(Task::EncodeAudio),
                Reply::Got(false) => self.at(
                    if self.audio.flushed {
                        Task::SendAudioEncoderEof
                    } else {
                        Task::ReceiveAudio
                    },
                ),
                _ => self.broken(reply),
            },
            Task::EncodeAudio => self.either(reply, self.at(Task::ReceiveAudioPacket)),
            Task::ReceiveAudioPacket => match reply {
                Reply::Got(true) => self.emit(),
                Reply::Got(false) => self.at(
                    if self.audio.encoder_eof {
                        Task::WriteTrailer
                    } else {
                        Task::PullAudio
                    },
                ),
                _ => self.broken(reply),
            },
            Task::SendAudioEncoderEof => self.either(
                reply,
                self.with_audio(AudioSide { encoder_eof: true, ..self.audio }).at(
                    Task::ReceiveAudioPacket,
                ),
            ),
            Task::BufferAudio(n) => self.either(
                reply,
                self.with_audio(
                    AudioSide { emitted: (self.audio.emitted + 1) as u64, ..self.audio },
                ).resume(),
            ),
            Task::WriteAudio(n) => self.either(
                reply,
                self.with_audio(
                    AudioSide {
                        emitted: (self.audio.emitted + 1) as u64,
                        written: (self.audio.written + 1) as u64,
                        ..self.audio
                    },
                ).resume(),
            ),
            _ => self,
        }
    }

    /// The job after its task was answered with `reply`.
    ///
    /// Setting up goes through its tasks in order. Reading a packet leads to
    /// the half of the job that its stream belongs to, and a half that has
    /// nothing more to give leads back to reading. The end of the input
    /// drains the video half, then the audio half, and then closes the file.
    pub open spec fn after(self, reply: Reply) -> Transcode {
        match self.task {
            Task::Demux => match reply {
                Reply::Packet(index) => if index == self.video.index {
                    self.at(Task::SendVideo)
                } else if self.audio.mode is Absent || index != self.audio.index {
                    self
                } else if self.audio.mode is Reencode {
                    self.at(Task::SendAudio)
                } else {
                    self.emit()
                },
                Reply::End => self.at(Task::SendVideoEof),
                _ => self.broken(reply),
            },
            Task::WriteTrailer => self.either(reply, self.at(Task::Finished(self.video.frames))),
            Task::Finished(_) => self,
            Task::Failed(_) => self,
            _ => if self.is_setup() {
                self.after_setup(reply)
            } else if self.is_video() {
                self.after_video(reply)
            } else {
                self.after_audio(reply)
            },
        }
    }

    /// Whether the job still sets up.
    pub open spec fn is_setup(self) -> bool {
        match self.task {
            Task::OpenInput | Task::PickVideo | Task::OpenVideoDecoder | Task::OpenOutput
            | Task::FindVideoEncoder | Task::AddVideoStream | Task::PickAudio
            | Task::OpenAudioDecoder | Task::FindAudioEncoder | Task::AddAudioStream
            | Task::PickSampleFormat | Task::OpenAudioEncoder | Task::BuildAudioGraph
            | Task::AddCopyStream => true,
            _ => false,
        }
    }

    /// Whether the job moves video, or the header that its first frame leads
    /// to.
    pub open spec fn is_video(self) -> bool {
        match self.task {
            Task::SendVideo | Task::SendVideoEof | Task::ReceiveVideo | Task::BuildVideoGraph
            | Task::FeedVideo | Task::FlushVideo | Task::PullVideo | Task::OpenVideoEncoder
            | Task::WriteHeader | Task::WriteBuffered(_) | Task::EncodeFrame(_)
            | Task::ReceiveVideoPacket | Task::WriteVideo | Task::SendEncoderEof => true,
            _ => false,
        }
    }

    /// Whether another frame and another audio packet can be counted.
    pub open spec fn has_room(self) -> bool {
        self.video.frames < i64::MAX && self.audio.emitted < u64::MAX && self.audio.written
            < u64::MAX
    }
}

/// How an audio encoder is opened.
#[derive(Clone, Copy, Debug, PartialEq, Eq, Structural)]
pub struct AudioEncoderConfig {
    pub rate: i32,
    pub channels: i32,
    pub bit_rate: usize,
    pub time_base: Rational,
    pub global_header: bool,
}

/// How a video encoder is opened.
#[derive(Clone, Copy, Debug, PartialEq, Eq, Structural)]
pub struct VideoEncoderConfig {
    pub width: u32,
    pub height: u32,
    /// The format of the frames that it is fed.
    pub pixel_format: PixelFormat,
    pub time_base: Rational,
    pub frame_rate: Rational,
    pub global_header: bool,
}

/// Whether an audio codec argument asks for a new encoding.
pub fn wants_reencode(audio_codec: &str) -> (r: bool)
    ensures
        r == asks_reencode(audio_codec@),
{
    !audio_codec.is_empty() && !same_text(audio_codec, "copy")
}

/// The configuration of a video encoder for frames of that size and rate: it
/// is fed planar YUV, and one tick of its time base is one frame.
pub fn video_encoder_config(
    width: u32,
    height: u32,
    rate: Rational,
    global_header: bool,
) -> (c: VideoEncoderConfig)
    ensures
        c == (VideoEncoderConfig {
            width,
            height,
            pixel_format: PixelFormat::Yuv420p,
            time_base: rate.inverse(),
            frame_rate: rate,
            global_header,
        }),
{
    VideoEncoderConfig {
        width,
        height,
        pixel_format: PixelFormat::Yuv420p,
        time_base: rate.invert(),
        frame_rate: rate,
        global_header,
    }
}

impl Transcode {
    /// A new job, for an audio codec argument: empty or `copy` keeps the
    /// audio as it is, anything else names the encoder for it.
    pub fn new(audio_codec: &str) -> (job: Transcode)
        ensures
            job == Transcode::fresh(asks_reencode(audio_codec@)),
    {
        let one: Rational = Rational::new(1, 1);
        Transcode {
            task: Task::OpenInput,
            reencode: wants_reencode(audio_codec),
            global_header: false,
            video: VideoSide {
                index: 0,
                time_base: one,
                rate: one,
                out_index: 0,
                encoder_tb: one,
                out_tb: one,
                graph: false,
                eof: false,
                flushed: false,
                opened: false,
                encoder_eof: false,
                frames: 0,
            },
            audio: AudioSide {
                mode: AudioMode::Absent,
                index: 0,
                time_base: one,
                facts: AudioFacts { rate: 0, channels: 0, bit_rate: 0 },
                out_index: 0,
                src_tb: one,
                out_tb: one,
                eof: false,
                flushed: false,
                encoder_eof: false,
                emitted: 0,
                written: 0,
            },
        }
    }

    /// The configuration of the audio encoder: the rate and channels of the
    /// source, its bit rate or 128 kbit/s where it has none, and one tick for
    /// each sample.
    pub fn audio_encoder_config(&self) -> (c: AudioEncoderConfig)
        ensures
            c == (AudioEncoderConfig {
                rate: self.audio.facts.rate as i32,
                channels: self.audio.facts.channels as i32,
                bit_rate: if self.audio.facts.bit_rate > 0 {
                    self.audio.facts.bit_rate
                } else {
                    128_000
                },
                time_base: Rational { num: 1, den: self.audio.facts.rate as i32 },
                global_header: self.global_header,
            }),
    {
        let rate: i32 = #[verifier::truncate] (self.audio.facts.rate as i32);
        AudioEncoderConfig {
            rate,
            channels: self.audio.facts.channels as i32,
            bit_rate: if self.audio.facts.bit_rate > 0 {
                self.audio.facts.bit_rate
            } else {
                128_000
            },
            time_base: Rational::new(1, rate),
            global_header: self.global_header,
        }
    }

    /// The configuration of the video encoder, for a filtered frame of that
    /// size.
    pub fn video_encoder_config(&self, width: u32, height: u32) -> (c: VideoEncoderConfig)
        ensures
            c == (VideoEncoderConfig {
                width,
                height,
                pixel_format: PixelFormat::Yuv420p,
                time_base: self.video.rate.inverse(),
                frame_rate: self.video.rate,
                global_header: self.global_header,
            }),
    {
        video_encoder_config(width, height, self.video.rate, self.global_header)
    }

    /// The graph that every decoded frame goes through, for frames of that size
    /// and pixel format: the filters of `filter`, if any, and then the
    /// conversion to what the video encoder is fed.
    pub fn video_graph(
        &self,
        width: u32,
        height: u32,
        pixel_format: Option<&str>,
        filter: &str,
    ) -> (g: GraphPlan)
        ensures
            g.source@ == crate::graph::video_source(
                width,
                height,
                match pixel_format {
                    Some(p) => p@,
                    None => "yuv420p"@,
                },
                self.video.time_base,
                self.video.rate,
            ),
            g.chain@ == crate::graph::video_chain(filter@, "yuv420p"@),
    {
        build_video_filter(
            width,
            height,
            pixel_format,
            filter,
            PixelFormat::Yuv420p,
            self.video.time_base,
            self.video.rate,
        )
    }

    /// How a packet of the video encoder is written: one frame long, so that
    /// the last frame of a file is kept.
    pub fn video_stamp(&self) -> (s: PacketStamp)
        ensures
            s == (PacketStamp {
                stream: self.video.out_index,
                duration: Some(1i64),
                from: self.video.encoder_tb,
                to: self.video.out_tb,
                forget_position: false,
            }),
    {
        PacketStamp {
            stream: self.video.out_index,
            duration: Some(1),
            from: self.video.encoder_tb,
            to: self.video.out_tb,
            forget_position: false,
        }
    }

    /// How an audio packet is written.
    pub fn audio_stamp(&self) -> (s: PacketStamp)
        ensures
            s == (PacketStamp {
                stream: self.audio.out_index,
                duration: None,
                from: self.audio.src_tb,
                to: self.audio.out_tb,
                forget_position: true,
            }),
    {
        PacketStamp {
            stream: self.audio.out_index,
            duration: None,
            from: self.audio.src_tb,
            to: self.audio.out_tb,
            forget_position: true,
        }
    }

    /// The same job, waiting for another task.
    fn to(self, task: Task) -> (next: Transcode)
        ensures
            next == self.at(task),
    {
        Transcode { task, ..self }
    }

    /// The end of a job whose task was answered to no avail.
    fn fail(self, reply: Reply) -> (next: Transcode)
        ensures
            next == self.broken(reply),
    {
        match reply {
            Reply::Failed => self.to(Task::Failed(Failure::Engine)),
            _ => self.to(Task::Failed(Failure::Protocol)),
        }
    }

    /// Moves on to `next` where the task was done, and fails where not.
    fn settle(self, reply: Reply, next: Transcode) -> (r: Transcode)
        ensures
            r == self.either(reply, next),
    {
        match reply {
            Reply::Done => next,
            _ => self.fail(reply),
        }
    }

    /// Moves on by whether there was something.
    fn branch(self, reply: Reply, some: Task, none: Task) -> (next: Transcode)
        ensures
            next == (match reply {
                Reply::Got(true) => self.at(some),
                Reply::Got(false) => self.at(none),
                _ => self.broken(reply),
            }),
    {
        match reply {
            Reply::Got(true) => self.to(some),
            Reply::Got(false) => self.to(none),
            _ => self.fail(reply),
        }
    }

    fn resume_next(self) -> (next: Transcode)
        ensures
            next == self.resume(),
    {
        match self.audio.mode {
            AudioMode::Reencode => self.to(Task::ReceiveAudioPacket),
            _ => self.to(Task::Demux),
        }
    }

    fn emit_next(self) -> (next: Transcode)
        ensures
            next == self.emit(),
    {
        if self.video.opened {
            self.to(Task::WriteAudio(self.audio.emitted))
        } else {
            self.to(Task::BufferAudio(self.audio.emitted))
        }
    }

    fn catch_up_next(self) -> (next: Transcode)
        ensures
            next == self.catch_up(),
    {
        if self.audio.written < self.audio.emitted {
            self.to(Task::WriteBuffered(self.audio.written))
        } else {
            self.to(Task::EncodeFrame(self.video.frames))
        }
    }

    fn next_setup(self, reply: Reply) -> (next: Transcode)
        requires
            self.is_setup(),
        ensures
            next == self.after_setup(reply),
    {
        match self.task {
            Task::OpenInput => self.settle(reply, self.to(Task::PickVideo)),
            Task::PickVideo => match reply {
                Reply::Video(Some(v)) => {
                    let video: VideoSide = VideoSide {
                        index: v.index,
                        time_base: v.time_base,
                        rate: frame_rate_or_default(v.rate),
                        ..self.video
                    };
                    Transcode { video, ..self }.to(Task::OpenVideoDecoder)
                },
                Reply::Video(None) => self.to(Task::Failed(Failure::StreamNotFound)),
                _ => self.fail(reply),
            },
            Task::OpenVideoDecoder => self.settle(reply, self.to(Task::OpenOutput)),
            Task::OpenOutput => match reply {
                Reply::Output(global_header) => {
                    Transcode { global_header, ..self }.to(Task::FindVideoEncoder)
                },
                _ => self.fail(reply),
            },
            Task::FindVideoEncoder => {
                self.branch(
                    reply,
                    Task::AddVideoStream,
                    Task::Failed(Failure::EncoderNotFound),
                )
            },
            Task::AddVideoStream => match reply {
                Reply::Stream(out_index) => {
                    let video: VideoSide = VideoSide { out_index, ..self.video };
                    Transcode { video, ..self }.to(Task::PickAudio)
                },
                _ => self.fail(reply),
            },
            Task::PickAudio => match reply {
                Reply::Audio(Some(a)) => {
                    let audio: AudioSide = AudioSide {
                        index: a.index,
                        time_base: a.time_base,
                        ..self.audio
                    };
                    let next: Transcode = Transcode { audio, ..self };
                    if self.reencode {
                        next.to(Task::OpenAudioDecoder)
                    } else {
                        next.to(Task::AddCopyStream)
                    }
                },
                Reply::Audio(None) => self.to(Task::Demux),
                _ => self.fail(reply),
            },
            Task::OpenAudioDecoder => match reply {
                Reply::AudioDecoder(facts) => {
                    let audio: AudioSide = AudioSide { facts, ..self.audio };
                    Transcode { audio, ..self }.to(Task::FindAudioEncoder)
                },
                _ => self.fail(reply),
            },
            Task::FindAudioEncoder => {
                self.branch(
                    reply,
                    Task::AddAudioStream,
                    Task::Failed(Failure::EncoderNotFound),
                )
            },
            Task::AddAudioStream => match reply {
                Reply::Stream(out_index) => {
                    let audio: AudioSide = AudioSide { out_index, ..self.audio };
                    Transcode { audio, ..self }.to(Task::PickSampleFormat)
                },
                _ => self.fail(reply),
            },
            Task::PickSampleFormat => {
                self.branch(
                    reply,
                    Task::OpenAudioEncoder,
                    Task::Failed(Failure::EncoderNotFound),
                )
            },
            Task::OpenAudioEncoder => match reply {
                Reply::Encoder(src_tb) => {
                    let audio: AudioSide = AudioSide { src_tb, ..self.audio };
                    Transcode { audio, ..self }.to(Task::BuildAudioGraph)
                },
                _ => self.fail(reply),
            },
            Task::BuildAudioGraph => {
                let audio: AudioSide = AudioSide { mode: AudioMode::Reencode, ..self.audio };
                self.settle(reply, Transcode { audio, ..self }.to(Task::Demux))
            },
            Task::AddCopyStream => match reply {
                Reply::Stream(out_index) => {
                    let audio: AudioSide = AudioSide {
                        mode: AudioMode::Copy,
                        out_index,
                        src_tb: self.audio.time_base,
                        ..self.audio
                    };
                    Transcode { audio, ..self }.to(Task::Demux)
                },
                _ => self.fail(reply),
            },
            _ => self,
        }
    }

    fn next_video(self, reply: Reply) -> (next: Transcode)
        requires
            self.is_video(),
            self.has_room(),
        ensures
            next == self.after_video(reply),
    {
        match self.task {
            Task::SendVideo => self.settle(reply, self.to(Task::ReceiveVideo)),
            Task::SendVideoEof => {
                let video: VideoSide = VideoSide { eof: true, ..self.video };
                self.settle(reply, Transcode { video, ..self }.to(Task::ReceiveVideo))
            },
            Task::ReceiveVideo => {
                let some: Task = if self.video.graph {
                    Task::FeedVideo
                } else {
                    Task::BuildVideoGraph
                };
                let none: Task = if !self.video.eof {
                    Task::Demux
                } else if self.video.graph {
                    Task::FlushVideo
                } else {
                    Task::Finished(0)
                };
                self.branch(reply, some, none)
            },
            Task::BuildVideoGraph => {
                let video: VideoSide = VideoSide { graph: true, ..self.video };
                self.settle(reply, Transcode { video, ..self }.to(Task::FeedVideo))
            },
            Task::FeedVideo => self.settle(reply, self.to(Task::PullVideo)),
            Task::FlushVideo => {
                let video: VideoSide = VideoSide { flushed: true, ..self.video };
                self.settle(reply, Transcode { video, ..self }.to(Task::PullVideo))
            },
            Task::PullVideo => {
                let some: Task = if self.video.opened {
                    Task::EncodeFrame(self.video.frames)
                } else {
                    Task::OpenVideoEncoder
                };
                let none: Task = if !self.video.flushed {
                    Task::ReceiveVideo
                } else if self.video.opened {
                    Task::SendEncoderEof
                } else {
                    Task::Finished(0)
                };
                self.branch(reply, some, none)
            },
            Task::OpenVideoEncoder => match reply {
                Reply::Encoder(encoder_tb) => {
                    let video: VideoSide = VideoSide { encoder_tb, ..self.video };
                    Transcode { video, ..self }.to(Task::WriteHeader)
                },
                _ => self.fail(reply),
            },
            Task::WriteHeader => match reply {
                Reply::Header(video_tb, audio_tb) => {
                    let out_tb: Rational = match self.audio.mode {
                        AudioMode::Absent => self.audio.out_tb,
                        _ => audio_tb,
                    };
                    let video: VideoSide = VideoSide {
                        out_tb: video_tb,
                        opened: true,
                        ..self.video
                    };
                    let audio: AudioSide = AudioSide { out_tb, ..self.audio };
                    Transcode { video, audio, ..self }.catch_up_next()
                },
                _ => self.fail(reply),
            },
            Task::WriteBuffered(_) => {
                let written: u64 = self.audio.written + 1;
                let audio: AudioSide = AudioSide { written, ..self.audio };
                self.settle(reply, Transcode { audio, ..self }.catch_up_next())
            },
            Task::EncodeFrame(_) => {
                let frames: i64 = self.video.frames + 1;
                let video: VideoSide = VideoSide { frames, ..self.video };
                self.settle(reply, Transcode { video, ..self }.to(Task::ReceiveVideoPacket))
            },
            Task::ReceiveVideoPacket => {
                let closing: Task = match self.audio.mode {
                    AudioMode::Reencode => Task::SendAudioEof,
                    _ => Task::WriteTrailer,
                };
                let none: Task = if !self.video.encoder_eof {
                    Task::PullVideo
                } else {
                    closing
                };
                self.branch(reply, Task::WriteVideo, none)
            },
            Task::WriteVideo => self.settle(reply, self.to(Task::ReceiveVideoPacket)),
            Task::SendEncoderEof => {
                let video: VideoSide = VideoSide { encoder_eof: true, ..self.video };
                self.settle(reply, Transcode { video, ..self }.to(Task::ReceiveVideoPacket))
            },
            _ => self,
        }
    }

    fn next_audio(self, reply: Reply) -> (next: Transcode)
        requires
            self.has_room(),
        ensures
            next == self.after_audio(reply),
    {
        match self.task {
            Task::SendAudio => self.settle(reply, self.to(Task::ReceiveAudio)),
            Task::SendAudioEof => {
                let audio: AudioSide = AudioSide { eof: true, ..self.audio };
                self.settle(reply, Transcode { audio, ..self }.to(Task::ReceiveAudio))
            },
            Task::ReceiveAudio => {
                let none: Task = if self.audio.eof {
                    Task::FlushAudio
                } else {
                    Task::Demux
                };
                self.branch(reply, Task::FeedAudio, none)
            },
            Task::FeedAudio => self.settle(reply, self.to(Task::PullAudio)),
            Task::FlushAudio => {
                let audio: AudioSide = AudioSide { flushed: true, ..self.audio };
                self.settle(reply, Transcode { audio, ..self }.to(Task::PullAudio))
            },
            Task::PullAudio => {
                let none: Task = if self.audio.flushed {
                    Task::SendAudioEncoderEof
                } else {
                    Task::ReceiveAudio
                };
                self.branch(reply, Task::EncodeAudio, none)
            },
            Task::EncodeAudio => self.settle(reply, self.to(Task::ReceiveAudioPacket)),
            Task::ReceiveAudioPacket => {
                let none: Task = if self.audio.encoder_eof {
                    Task::WriteTrailer
                } else {
                    Task::PullAudio
                };
                match reply {
                    Reply::Got(true) => self.emit_next(),
                    _ => self.branch(reply, Task::Demux, none),
                }
            },
            Task::SendAudioEncoderEof => {
                let audio: AudioSide = AudioSide { encoder_eof: true, ..self.audio };
                self.settle(reply, Transcode { audio, ..self }.to(Task::ReceiveAudioPacket))
            },
            Task::BufferAudio(_) => {
                let emitted: u64 = self.audio.emitted + 1;
                let audio: AudioSide = AudioSide { emitted, ..self.audio };
                self.settle(reply, Transcode { audio, ..self }.resume_next())
            },
            Task::WriteAudio(_) => {
                let emitted: u64 = self.audio.emitted + 1;
                let written: u64 = self.audio.written + 1;
                let audio: AudioSide = AudioSide { emitted, written, ..self.audio };
                self.settle(reply, Transcode { audio, ..self }.resume_next())
            },
            _ => self,
        }
    }

    /// Where the packet that was read goes.
    fn next_demux(self, reply: Reply) -> (next: Transcode)
        requires
            self.task is Demux,
        ensures
            next == self.after(reply),
    {
        match reply {
            Reply::Packet(index) => {
                if index == self.video.index {
                    self.to(Task::SendVideo)
                } else if index == self.audio.index {
                    match self.audio.mode {
                        AudioMode::Absent => self,
                        AudioMode::Copy => self.emit_next(),
                        AudioMode::Reencode => self.to(Task::SendAudio),
                    }
                } else {
                    self
                }
            },
            Reply::End => self.to(Task::SendVideoEof),
            _ => self.fail(reply),
        }
    }

    /// Takes the answer to the pending task and decides on the next one. An
    /// answer that does not belong to the task ends the job.
    pub fn advance(&mut self, reply: Reply)
        requires
            old(self).has_room(),
        ensures
            *final(self) == old(self).after(reply),
    {
        let job: Transcode = *self;
        *self = match job.task {
            Task::Demux => job.next_demux(reply),
            Task::WriteTrailer => job.settle(reply, job.to(Task::Finished(job.video.frames))),
            Task::Finished(_) => job,
            Task::Failed(_) => job,
            Task::OpenInput
            | Task::PickVideo
            | Task::OpenVideoDecoder
            | Task::OpenOutput
            | Task::FindVideoEncoder
            | Task::AddVideoStream
            | Task::PickAudio
            | Task::OpenAudioDecoder
            | Task::FindAudioEncoder
            | Task::AddAudioStream
            | Task::PickSampleFormat
            | Task::OpenAudioEncoder
            | Task::BuildAudioGraph
            | Task::AddCopyStream => job.next_setup(reply),
            Task::SendVideo
            | Task::SendVideoEof
            | Task::ReceiveVideo
            | Task::BuildVideoGraph
            | Task::FeedVideo
            | Task::FlushVideo
            | Task::PullVideo
            | Task::OpenVideoEncoder
            | Task::WriteHeader
            | Task::WriteBuffered(_)
            | Task::EncodeFrame(_)
            | Task::ReceiveVideoPacket
            | Task::WriteVideo
            | Task::SendEncoderEof => job.next_video(reply),
            _ => job.next_audio(reply),
        };
    }
}

/// What an accepted request asks for.
pub struct TranscodeRequest {
    pub input: String,
    pub output: String,
    /// The video encoder family.
    pub encoder: String,
    /// The graph that frames go through, empty for none.
    pub filter: String,
    /// The audio encoder; empty or `copy` where the audio is copied.
    pub audio: String,
    pub job: Transcode,
}

impl TranscodeRequest {
    /// The search for the video encoder, which is remembered as the one that
    /// the last job used.
    pub fn encoder_search(&self) -> (search: EncoderSearch)
        ensures
            search@ == crate::encoder::EncoderSearchView::begun(self.encoder@, true),
            search@.wf(),
    {
        resolve_video_encoder(self.encoder.as_str(), true)
    }
}

/// Which argument of a request is missing, where one is: the message that is
/// then remembered.
pub open spec fn transcode_refusal(
    input: Option<Seq<char>>,
    output: Option<Seq<char>>,
    encoder: Option<Seq<char>>,
) -> Option<Seq<char>> {
    if input is None {
        Some("transcode: null in_path"@)
    } else if output is None {
        Some("transcode: null out_path"@)
    } else if encoder is None {
        Some("transcode: null encoder"@)
    } else {
        None
    }
}

fn text_or_empty(p: Option<&[u8]>) -> (s: String)
    ensures
        s@ == crate::reader::or_empty(crate::text::arg(p)),
{
    match cstr(p) {
        Some(s) => s,
        None => String::new(),
    }
}

/// Asks for a file to be transcoded. A request without one of its paths or
/// without an encoder is refused with the code `-1`; without a filter frames
/// are only converted, and without an audio encoder the audio is copied.
pub fn chuks_ffmpeg_transcode(
    session: &mut Session,
    in_path: Option<&[u8]>,
    out_path: Option<&[u8]>,
    encoder: Option<&[u8]>,
    filter: Option<&[u8]>,
    audio: Option<&[u8]>,
) -> (r: Result<TranscodeRequest, i64>)
    ensures
        match transcode_refusal(
            crate::text::arg(in_path),
            crate::text::arg(out_path),
            crate::text::arg(encoder),
        ) {
            Some(message) => {
                &&& r == Err::<TranscodeRequest, i64>(-1i64)
                &&& final(session)@ == old(session)@.failed_with(message)
            },
            None => {
                &&& final(session)@ == old(session)@
                &&& r matches Ok(q)
                &&& q.input@ == crate::text::arg(in_path)->0
                &&& q.output@ == crate::text::arg(out_path)->0
                &&& q.encoder@ == crate::text::arg(encoder)->0
                &&& q.filter@ == crate::reader::or_empty(crate::text::arg(filter))
                &&& q.audio@ == crate::reader::or_empty(crate::text::arg(audio))
                &&& q.job == Transcode::fresh(asks_reencode(q.audio@))
            },
        },
{
    let input: String = match cstr(in_path) {
        Some(s) => s,
        None => {
            set_err(session, "transcode: null in_path");
            return Err(-1);
        },
    };
    let output: String = match cstr(out_path) {
        Some(s) => s,
        None => {
            set_err(session, "transcode: null out_path");
            return Err(-1);
        },
    };
    let encoder: String = match cstr(encoder) {
        Some(s) => s,
        None => {
            set_err(session, "transcode: null encoder");
            return Err(-1);
        },
    };
    let filter: String = text_or_empty(filter);
    let audio: String = text_or_empty(audio);
    let job: Transcode = Transcode::new(audio.as_str());
    Ok(TranscodeRequest { input, output, encoder, filter, audio, job })
}

/// What a job reports: the number of video frames encoded, or `-1` for an
/// error, which is remembered.
pub fn finish_transcode(session: &mut Session, outcome: Result<i64, String>) -> (n: i64)
    ensures
        outcome matches Ok(count) ==> n == count && final(session)@ == old(session)@,
        outcome matches Err(e) ==> n == -1 && final(session)@ == old(session)@.failed_with(
            crate::session::prefixed("transcode"@, e@),
        ),
{
    match outcome {
        Ok(count) => count,
        Err(e) => {
            set_op_err(session, "transcode", e.as_str());
            -1
        },
    }
}

} // verus!
