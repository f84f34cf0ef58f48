//! What one answer does to a transcoding job.
use crate::transcode::{Reply, Task, Transcode};
use vstd::prelude::*;

verus! {

/// The job after its task was answered with `r`.
#[verifier::opaque]
pub open spec fn step(s: Transcode, r: Reply) -> Transcode {
    s.after(r)
}

/// Whether the output has its video stream by the time of a task.
pub open spec fn has_video_stream(t: Task) -> bool {
    !(t is OpenInput || t is PickVideo || t is OpenVideoDecoder || t is OpenOutput
        || t is FindVideoEncoder || t is AddVideoStream || t is Failed)
}

/// What links the parts of a job between two tasks.
pub open spec fn consistent(s: Transcode) -> bool {
    let v = s.video;
    let a = s.audio;
    &&& v.frames >= 0
    &&& a.written <= a.emitted
    &&& v.flushed ==> v.eof && v.graph
    &&& v.opened ==> v.graph
    &&& v.encoder_eof ==> v.opened && v.flushed
    &&& a.eof ==> v.encoder_eof && a.mode is Reencode
    &&& a.flushed ==> a.eof
    &&& a.encoder_eof ==> a.flushed
    &&& !v.opened ==> a.written == 0 && v.frames == 0
    &&& v.opened && !(s.task is WriteBuffered) && !(s.task is Failed) ==> a.written == a.emitted
    &&& s.is_setup() ==> !v.opened && !v.eof && a.emitted == 0 && a.mode is Absent
    &&& match s.task {
        Task::WriteBuffered(n) => n == a.written && a.written < a.emitted && v.opened
            && !v.encoder_eof,
        Task::EncodeFrame(pts) => pts == v.frames && v.opened && !v.encoder_eof,
        Task::WriteAudio(n) => n == a.emitted && v.opened,
        Task::BufferAudio(n) => n == a.emitted && !v.opened,
        Task::OpenVideoEncoder | Task::WriteHeader => !v.opened && v.graph,
        Task::FlushVideo => v.eof && v.graph && !v.encoder_eof,
        Task::PullVideo => !v.encoder_eof && v.graph,
        Task::FeedVideo => v.graph && !v.encoder_eof,
        Task::SendVideo | Task::SendVideoEof | Task::ReceiveVideo | Task::BuildVideoGraph => {
            !v.encoder_eof
        },
        Task::Demux => !v.encoder_eof,
        Task::ReceiveVideoPacket | Task::WriteVideo => v.opened,
        Task::SendEncoderEof => v.opened && v.flushed,
        Task::SendAudioEof => v.encoder_eof && a.mode is Reencode,
        Task::FlushAudio => a.eof,
        Task::SendAudioEncoderEof => a.flushed,
        Task::WriteTrailer => v.encoder_eof && (a.mode is Reencode ==> a.encoder_eof),
        Task::Finished(n) => n == v.frames && (v.opened ==> v.encoder_eof && (a.mode is Reencode
            ==> a.encoder_eof)),
        _ => true,
    }
    &&& match s.task {
        Task::SendAudio | Task::ReceiveAudio | Task::FeedAudio | Task::PullAudio
        | Task::EncodeAudio | Task::ReceiveAudioPacket => a.mode is Reencode && (a.eof
            || !v.encoder_eof),
        Task::BufferAudio(_) | Task::WriteAudio(_) => !(a.mode is Absent) && (a.eof
            || !v.encoder_eof),
        _ => true,
    }
}

/// How one answer changes the counts of a job, and what it leaves alone.
pub open spec fn counted(s: Transcode, t: Transcode) -> bool {
    &&& t.video.frames == s.video.frames + (if s.task is EncodeFrame && !(t.task is Failed) {
        1int
    } else {
        0
    })
    &&& t.audio.written == s.audio.written + (if (s.task is WriteBuffered || s.task is WriteAudio)
        && !(t.task is Failed) {
        1int
    } else {
        0
    })
    &&& t.audio.emitted == s.audio.emitted + (if (s.task is BufferAudio || s.task is WriteAudio)
        && !(t.task is Failed) {
        1int
    } else {
        0
    })
    &&& t.video.opened == (s.video.opened || (s.task is WriteHeader && !(t.task is Failed)))
    &&& s.task is Failed ==> t == s
    &&& s.task is Finished ==> t == s
    &&& t.task is Finished && s.video.opened && !(s.task is Finished) ==> s.task is WriteTrailer
    &&& t.is_setup() ==> s.is_setup()
    &&& s.task is WriteTrailer ==> t.task is Finished || t.task is Failed
    &&& s.task is WriteHeader ==> !(t.task is Finished)
}

/// Which tasks lead past the stages of a job.
pub open spec fn staged(s: Transcode, t: Transcode) -> bool {
    &&& has_video_stream(t.task) ==> has_video_stream(s.task) || s.task is AddVideoStream
    &&& t.video.eof ==> s.video.eof || s.task is SendVideoEof
    &&& t.video.flushed ==> s.video.flushed || s.task is FlushVideo
    &&& t.video.encoder_eof ==> s.video.encoder_eof || s.task is SendEncoderEof
    &&& t.audio.eof ==> s.audio.eof || s.task is SendAudioEof
    &&& t.audio.flushed ==> s.audio.flushed || s.task is FlushAudio
    &&& t.audio.encoder_eof ==> s.audio.encoder_eof || s.task is SendAudioEncoderEof
    &&& s.task is BuildAudioGraph && !(t.task is Failed) ==> t.audio.mode is Reencode
    &&& s.audio.mode is Reencode ==> t.audio.mode is Reencode
}

/// Whether an answer hands a filtered video frame over.
pub open spec fn gives_frame(s: Transcode, r: Reply) -> bool {
    s.task is PullVideo && r == Reply::Got(true)
}

/// Whether an answer hands an audio packet over that belongs in the output: a
/// packet of the audio encoder, or one of the input that is copied.
pub open spec fn gives_audio(s: Transcode, r: Reply) -> bool {
    ||| s.task is ReceiveAudioPacket && r == Reply::Got(true)
    ||| s.task is Demux && s.audio.mode is Copy && r == Reply::Packet(s.audio.index)
        && s.audio.index != s.video.index
}

/// How many frames a job holds that it has not encoded yet: one at most.
pub open spec fn held_frames(s: Transcode) -> int {
    if s.task is OpenVideoEncoder || s.task is WriteHeader || s.task is WriteBuffered
        || s.task is EncodeFrame {
        1
    } else {
        0
    }
}

/// How many audio packets a job holds that it has neither written nor kept:
/// one at most.
pub open spec fn held_audio(s: Transcode) -> int {
    if s.task is BufferAudio || s.task is WriteAudio {
        1
    } else {
        0
    }
}

/// What an answer hands over is held or counted.
pub open spec fn balanced(s: Transcode, r: Reply, t: Transcode) -> bool {
    !(t.task is Failed) ==> {
        &&& t.video.frames + held_frames(t) == s.video.frames + held_frames(s) + (if gives_frame(
            s,
            r,
        ) {
            1int
        } else {
            0
        })
        &&& t.audio.emitted + held_audio(t) == s.audio.emitted + held_audio(s) + (if gives_audio(
            s,
            r,
        ) {
            1int
        } else {
            0
        })
    }
}

/// A place of the pipeline that something is handed to.
pub enum Stage {
    VideoDecoder,
    VideoGraph,
    VideoMuxer,
    AudioDecoder,
    AudioGraph,
    AudioEncoder,
}

impl Stage {
    /// Whether a task hands something to this stage.
    pub open spec fn is_served_by(self, t: Task) -> bool {
        match self {
            Stage::VideoDecoder => t is SendVideo,
            Stage::VideoGraph => t is FeedVideo,
            Stage::VideoMuxer => t is WriteVideo,
            Stage::AudioDecoder => t is SendAudio,
            Stage::AudioGraph => t is FeedAudio,
            Stage::AudioEncoder => t is EncodeAudio,
        }
    }

    /// Whether a job holds something for this stage.
    pub open spec fn awaits(self, s: Transcode) -> bool {
        self.is_served_by(s.task) || (self is VideoGraph && s.task is BuildVideoGraph)
    }

    /// Whether an answer gives something for this stage: a packet of the
    /// stream that it decodes, a decoded or filtered frame, or an encoded
    /// packet.
    pub open spec fn gets(self, s: Transcode, r: Reply) -> bool {
        match self {
            Stage::VideoDecoder => s.task is Demux && r == Reply::Packet(s.video.index),
            Stage::VideoGraph => s.task is ReceiveVideo && r == Reply::Got(true),
            Stage::VideoMuxer => s.task is ReceiveVideoPacket && r == Reply::Got(true),
            Stage::AudioDecoder => s.task is Demux && s.audio.mode is Reencode && r
                == Reply::Packet(s.audio.index) && s.audio.index != s.video.index,
            Stage::AudioGraph => s.task is ReceiveAudio && r == Reply::Got(true),
            Stage::AudioEncoder => s.task is PullAudio && r == Reply::Got(true),
        }
    }

    /// What an answer gives for this stage is held for it, and what a task
    /// hands to it is held no longer.
    pub open spec fn carried(self, s: Transcode, r: Reply, t: Transcode) -> bool {
        !(t.task is Failed) ==> as_int(self.awaits(t)) + as_int(self.is_served_by(s.task))
            == as_int(self.awaits(s)) + as_int(self.gets(s, r))
    }
}

/// One for what holds, and zero for what does not.
pub open spec fn as_int(b: bool) -> int {
    if b {
        1
    } else {
        0
    }
}

/// Whether a job moves audio.
pub open spec fn is_audio(s: Transcode) -> bool {
    match s.task {
        Task::SendAudio | Task::SendAudioEof | Task::ReceiveAudio | Task::FeedAudio
        | Task::FlushAudio | Task::PullAudio | Task::EncodeAudio | Task::ReceiveAudioPacket
        | Task::SendAudioEncoderEof | Task::BufferAudio(_) | Task::WriteAudio(_) => true,
        _ => false,
    }
}

#[verifier::spinoff_prover]
proof fn lemma_consistent_setup(s: Transcode, r: Reply)
    requires
        consistent(s),
        s.is_setup(),
        s.has_room(),
    ensures
        consistent(s.after_setup(r)),
{
}

#[verifier::spinoff_prover]
proof fn lemma_consistent_video(s: Transcode, r: Reply)
    requires
        consistent(s),
        s.is_video(),
        s.has_room(),
    ensures
        consistent(s.after_video(r)),
{
}

#[verifier::spinoff_prover]
proof fn lemma_consistent_audio(s: Transcode, r: Reply)
    requires
        consistent(s),
        is_audio(s),
        s.has_room(),
    ensures
        consistent(s.after_audio(r)),
{
}

#[verifier::spinoff_prover]
proof fn lemma_consistent_rest(s: Transcode, r: Reply)
    requires
        consistent(s),
        !s.is_setup(),
        !s.is_video(),
        !is_audio(s),
        s.has_room(),
    ensures
        consistent(s.after(r)),
{
}

#[verifier::spinoff_prover]
proof fn lemma_counted_setup(s: Transcode, r: Reply)
    requires
        consistent(s),
        s.is_setup(),
        s.has_room(),
    ensures
        counted(s, s.after_setup(r)),
{
}

#[verifier::spinoff_prover]
proof fn lemma_counted_video(s: Transcode, r: Reply)
    requires
        consistent(s),
        s.is_video(),
        s.has_room(),
    ensures
        counted(s, s.after_video(r)),
{
}

#[verifier::spinoff_prover]
proof fn lemma_counted_audio(s: Transcode, r: Reply)
    requires
        consistent(s),
        is_audio(s),
        s.has_room(),
    ensures
        counted(s, s.after_audio(r)),
{
}

#[verifier::spinoff_prover]
proof fn lemma_counted_rest(s: Transcode, r: Reply)
    requires
        consistent(s),
        !s.is_setup(),
        !s.is_video(),
        !is_audio(s),
        s.has_room(),
    ensures
        counted(s, s.after(r)),
{
}

#[verifier::spinoff_prover]
proof fn lemma_staged_setup(s: Transcode, r: Reply)
    requires
        consistent(s),
        s.is_setup(),
        s.has_room(),
    ensures
        staged(s, s.after_setup(r)),
{
}

#[verifier::spinoff_prover]
proof fn lemma_staged_video(s: Transcode, r: Reply)
    requires
        consistent(s),
        s.is_video(),
        s.has_room(),
    ensures
        staged(s, s.after_video(r)),
{
}

#[verifier::spinoff_prover]
proof fn lemma_staged_audio(s: Transcode, r: Reply)
    requires
        consistent(s),
        is_audio(s),
        s.has_room(),
    ensures
        staged(s, s.after_audio(r)),
{
}

#[verifier::spinoff_prover]
proof fn lemma_staged_rest(s: Transcode, r: Reply)
    requires
        consistent(s),
        !s.is_setup(),
        !s.is_video(),
        !is_audio(s),
        s.has_room(),
    ensures
        staged(s, s.after(r)),
{
}

#[verifier::spinoff_prover]
proof fn lemma_balanced_setup(s: Transcode, r: Reply)
    requires
        consistent(s),
        s.is_setup(),
        s.has_room(),
    ensures
        balanced(s, r, s.after_setup(r)),
{
}

#[verifier::spinoff_prover]
proof fn lemma_balanced_video(s: Transcode, r: Reply)
    requires
        consistent(s),
        s.is_video(),
        s.has_room(),
    ensures
        balanced(s, r, s.after_video(r)),
{
}

#[verifier::spinoff_prover]
proof fn lemma_balanced_audio(s: Transcode, r: Reply)
    requires
        consistent(s),
        is_audio(s),
        s.has_room(),
    ensures
        balanced(s, r, s.after_audio(r)),
{
}

#[verifier::spinoff_prover]
proof fn lemma_balanced_rest(s: Transcode, r: Reply)
    requires
        consistent(s),
        !s.is_setup(),
        !s.is_video(),
        !is_audio(s),
        s.has_room(),
    ensures
        balanced(s, r, s.after(r)),
{
}

#[verifier::spinoff_prover]
proof fn lemma_carried_setup(s: Transcode, r: Reply, stage: Stage)
    requires
        s.is_setup(),
    ensures
        stage.carried(s, r, s.after_setup(r)),
{
}

#[verifier::spinoff_prover]
proof fn lemma_carried_video(s: Transcode, r: Reply, stage: Stage)
    requires
        s.is_video(),
    ensures
        stage.carried(s, r, s.after_video(r)),
{
}

#[verifier::spinoff_prover]
proof fn lemma_carried_audio(s: Transcode, r: Reply, stage: Stage)
    requires
        is_audio(s),
    ensures
        stage.carried(s, r, s.after_audio(r)),
{
}

#[verifier::spinoff_prover]
proof fn lemma_carried_rest(s: Transcode, r: Reply, stage: Stage)
    requires
        !s.is_setup(),
        !s.is_video(),
        !is_audio(s),
    ensures
        stage.carried(s, r, s.after(r)),
{
}

/// What one answer does to a consistent job.
pub proof fn lemma_step(s: Transcode, r: Reply)
    requires
        consistent(s),
        s.has_room(),
    ensures
        consistent(step(s, r)),
        counted(s, step(s, r)),
        staged(s, step(s, r)),
        balanced(s, r, step(s, r)),
{
    reveal(step);
    if s.is_setup() {
        assert(s.after(r) == s.after_setup(r));
        lemma_consistent_setup(s, r);
        lemma_counted_setup(s, r);
        lemma_staged_setup(s, r);
        lemma_balanced_setup(s, r);
    } else if s.is_video() {
        assert(s.after(r) == s.after_video(r));
        lemma_consistent_video(s, r);
        lemma_counted_video(s, r);
        lemma_staged_video(s, r);
        lemma_balanced_video(s, r);
    } else if is_audio(s) {
        assert(s.after(r) == s.after_audio(r));
        lemma_consistent_audio(s, r);
        lemma_counted_audio(s, r);
        lemma_staged_audio(s, r);
        lemma_balanced_audio(s, r);
    } else {
        lemma_consistent_rest(s, r);
        lemma_counted_rest(s, r);
        lemma_staged_rest(s, r);
        lemma_balanced_rest(s, r);
    }
}

/// An answer loses nothing between two stages.
pub proof fn lemma_carried(s: Transcode, r: Reply, stage: Stage)
    ensures
        stage.carried(s, r, step(s, r)),
{
    reveal(step);
    if s.is_setup() {
        assert(s.after(r) == s.after_setup(r));
        lemma_carried_setup(s, r, stage);
    } else if s.is_video() {
        assert(s.after(r) == s.after_video(r));
        lemma_carried_video(s, r, stage);
    } else if is_audio(s) {
        assert(s.after(r) == s.after_audio(r));
        lemma_carried_audio(s, r, stage);
    } else {
        lemma_carried_rest(s, r, stage);
    }
}

} // verus!
