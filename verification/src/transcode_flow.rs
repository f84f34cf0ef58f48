//! What a transcoding job takes from its answers, and which task follows which.
use crate::media::{Failure, Rational};
use crate::transcode::{AudioMode, Reply, Task, Transcode};
use vstd::prelude::*;

verus! {

/// What a job was last answered while it waited for `task`.
pub open spec fn answer_to(start: Transcode, replies: Seq<Reply>, task: Task) -> Option<Reply>
    decreases replies.len(),
{
    if replies.len() == 0 {
        None
    } else if crate::transcode_laws::run(start, replies.drop_last()).task == task {
        Some(replies.last())
    } else {
        answer_to(start, replies.drop_last(), task)
    }
}

/// What an answer sets on the video side, and that nothing else is touched.
pub open spec fn sets_video(s: Transcode, r: Reply, t: Transcode) -> bool {
    &&& t.reencode == s.reencode
    &&& match (s.task, r) {
        (Task::PickVideo, Reply::Video(Some(v))) => {
            &&& t.video.index == v.index
            &&& t.video.time_base == v.time_base
            &&& v.rate.num > 0 && v.rate.den > 0 ==> t.video.rate == v.rate
            &&& !(v.rate.num > 0 && v.rate.den > 0) ==> t.video.rate == (Rational {
                num: 30,
                den: 1,
            })
        },
        _ => {
            &&& t.video.index == s.video.index
            &&& t.video.time_base == s.video.time_base
            &&& t.video.rate == s.video.rate
        },
    }
    &&& t.global_header == (match (s.task, r) {
        (Task::OpenOutput, Reply::Output(g)) => g,
        _ => s.global_header,
    })
    &&& t.video.out_index == (match (s.task, r) {
        (Task::AddVideoStream, Reply::Stream(i)) => i,
        _ => s.video.out_index,
    })
    &&& t.video.encoder_tb == (match (s.task, r) {
        (Task::OpenVideoEncoder, Reply::Encoder(tb)) => tb,
        _ => s.video.encoder_tb,
    })
    &&& t.video.out_tb == (match (s.task, r) {
        (Task::WriteHeader, Reply::Header(v, _)) => v,
        _ => s.video.out_tb,
    })
}

/// What an answer sets on the audio side, and that nothing else is touched.
pub open spec fn sets_audio(s: Transcode, r: Reply, t: Transcode) -> bool {
    &&& match (s.task, r) {
        (Task::PickAudio, Reply::Audio(Some(a))) => {
            &&& t.audio.index == a.index
            &&& t.audio.time_base == a.time_base
        },
        _ => {
            &&& t.audio.index == s.audio.index
            &&& t.audio.time_base == s.audio.time_base
        },
    }
    &&& t.audio.facts == (match (s.task, r) {
        (Task::OpenAudioDecoder, Reply::AudioDecoder(facts)) => facts,
        _ => s.audio.facts,
    })
    &&& t.audio.out_index == (match (s.task, r) {
        (Task::AddAudioStream, Reply::Stream(i)) => i,
        (Task::AddCopyStream, Reply::Stream(i)) => i,
        _ => s.audio.out_index,
    })
    &&& t.audio.src_tb == (match (s.task, r) {
        (Task::OpenAudioEncoder, Reply::Encoder(tb)) => tb,
        (Task::AddCopyStream, Reply::Stream(_)) => s.audio.time_base,
        _ => s.audio.src_tb,
    })
    &&& t.audio.mode == (match (s.task, r) {
        (Task::BuildAudioGraph, Reply::Done) => AudioMode::Reencode,
        (Task::AddCopyStream, Reply::Stream(_)) => AudioMode::Copy,
        _ => s.audio.mode,
    })
    &&& match (s.task, r) {
        (Task::WriteHeader, Reply::Header(_, a)) => !(s.audio.mode is Absent) ==> t.audio.out_tb
            == a,
        _ => t.audio.out_tb == s.audio.out_tb,
    }
}

/// Whether this is an answer to that task, and not one that tells of a failure.
pub open spec fn fits(task: Task, r: Reply) -> bool {
    match task {
        Task::PickVideo => r is Video,
        Task::OpenOutput => r is Output,
        Task::PickAudio => r is Audio,
        Task::OpenAudioDecoder => r is AudioDecoder,
        Task::AddVideoStream | Task::AddAudioStream | Task::AddCopyStream => r is Stream,
        Task::OpenAudioEncoder | Task::OpenVideoEncoder => r is Encoder,
        Task::WriteHeader => r is Header,
        Task::Demux => r is Packet || r is End,
        Task::FindVideoEncoder | Task::FindAudioEncoder | Task::PickSampleFormat
        | Task::ReceiveVideo | Task::PullVideo | Task::ReceiveVideoPacket | Task::ReceiveAudio
        | Task::PullAudio | Task::ReceiveAudioPacket => r is Got,
        Task::Finished(_) | Task::Failed(_) => true,
        _ => r is Done,
    }
}

/// Whether an answer says that there is no encoder, or none with a format.
pub open spec fn lacks_encoder(task: Task, r: Reply) -> bool {
    (task is FindVideoEncoder || task is FindAudioEncoder || task is PickSampleFormat) && r
        == Reply::Got(false)
}

/// How a job fails, and when: for a call that failed, for a file without video,
/// for an encoder that is not there, and for an answer that is none.
pub open spec fn fails_for_a_reason(s: Transcode, r: Reply, t: Transcode) -> bool {
    let over = s.task is Finished || s.task is Failed;
    let missing = s.task is PickVideo && r == Reply::Video(None);
    let lacking = lacks_encoder(s.task, r);
    &&& over ==> t == s
    &&& !over && r is Failed ==> t.task == Task::Failed(Failure::Engine)
    &&& missing ==> t.task == Task::Failed(Failure::StreamNotFound)
    &&& lacking ==> t.task == Task::Failed(Failure::EncoderNotFound)
    &&& !over && !(r is Failed) && !fits(s.task, r) ==> t.task == Task::Failed(Failure::Protocol)
    &&& !over && fits(s.task, r) && !missing && !lacking ==> !(t.task is Failed)
    &&& !over && t.task is Failed ==> t == (Transcode { task: t.task, ..s })
}

/// Which marks of progress an answer sets on the video side, and that it sets
/// no others.
pub open spec fn marks_video(s: Transcode, r: Reply, t: Transcode) -> bool {
    &&& t.video.graph == (match (s.task, r) {
        (Task::BuildVideoGraph, Reply::Done) => true,
        _ => s.video.graph,
    })
    &&& t.video.eof == (match (s.task, r) {
        (Task::SendVideoEof, Reply::Done) => true,
        _ => s.video.eof,
    })
    &&& t.video.flushed == (match (s.task, r) {
        (Task::FlushVideo, Reply::Done) => true,
        _ => s.video.flushed,
    })
    &&& t.video.opened == (match (s.task, r) {
        (Task::WriteHeader, Reply::Header(_, _)) => true,
        _ => s.video.opened,
    })
    &&& t.video.encoder_eof == (match (s.task, r) {
        (Task::SendEncoderEof, Reply::Done) => true,
        _ => s.video.encoder_eof,
    })
}

/// Which marks of progress an answer sets on the audio side, and that it sets
/// no others.
pub open spec fn marks_audio(s: Transcode, r: Reply, t: Transcode) -> bool {
    &&& t.audio.eof == (match (s.task, r) {
        (Task::SendAudioEof, Reply::Done) => true,
        _ => s.audio.eof,
    })
    &&& t.audio.flushed == (match (s.task, r) {
        (Task::FlushAudio, Reply::Done) => true,
        _ => s.audio.flushed,
    })
    &&& t.audio.encoder_eof == (match (s.task, r) {
        (Task::SendAudioEncoderEof, Reply::Done) => true,
        _ => s.audio.encoder_eof,
    })
}

/// What an answer counts: a frame that was encoded, an audio packet that came
/// out, and one that was written.
pub open spec fn counts(s: Transcode, r: Reply, t: Transcode) -> bool {
    let done = r is Done;
    &&& s.video.frames < i64::MAX ==> t.video.frames == s.video.frames + (if s.task is EncodeFrame
        && done {
        1int
    } else {
        0
    })
    &&& s.audio.emitted < u64::MAX ==> t.audio.emitted == s.audio.emitted + (if (
    s.task is BufferAudio || s.task is WriteAudio) && done {
        1int
    } else {
        0
    })
    &&& s.audio.written < u64::MAX ==> t.audio.written == s.audio.written + (if (
    s.task is WriteBuffered || s.task is WriteAudio) && done {
        1int
    } else {
        0
    })
}

#[verifier::spinoff_prover]
proof fn lemma_sets_setup(s: Transcode, r: Reply)
    requires
        s.is_setup(),
    ensures
        sets_video(s, r, s.after_setup(r)),
        sets_audio(s, r, s.after_setup(r)),
{
}

#[verifier::spinoff_prover]
proof fn lemma_sets_video(s: Transcode, r: Reply)
    requires
        s.is_video(),
    ensures
        sets_video(s, r, s.after_video(r)),
        sets_audio(s, r, s.after_video(r)),
{
}

#[verifier::spinoff_prover]
proof fn lemma_sets_audio(s: Transcode, r: Reply)
    requires
        crate::transcode_steps::is_audio(s),
    ensures
        sets_video(s, r, s.after_audio(r)),
        sets_audio(s, r, s.after_audio(r)),
{
}

#[verifier::spinoff_prover]
proof fn lemma_sets_rest(s: Transcode, r: Reply)
    requires
        !s.is_setup(),
        !s.is_video(),
        !crate::transcode_steps::is_audio(s),
    ensures
        sets_video(s, r, s.after(r)),
        sets_audio(s, r, s.after(r)),
{
}

/// Each setting of a job is taken from the answer to the one task that asks for
/// it, and is touched by no other answer.
pub proof fn law_answers_set_what_they_say(s: Transcode, r: Reply)
    ensures
        sets_video(s, r, s.after(r)),
        sets_audio(s, r, s.after(r)),
{
    if s.is_setup() {
        assert(s.after(r) == s.after_setup(r));
        lemma_sets_setup(s, r);
    } else if s.is_video() {
        assert(s.after(r) == s.after_video(r));
        lemma_sets_video(s, r);
    } else if crate::transcode_steps::is_audio(s) {
        assert(s.after(r) == s.after_audio(r));
        lemma_sets_audio(s, r);
    } else {
        lemma_sets_rest(s, r);
    }
}

proof fn lemma_step_sets(s: Transcode, r: Reply)
    ensures
        sets_video(s, r, crate::transcode_steps::step(s, r)),
        sets_audio(s, r, crate::transcode_steps::step(s, r)),
{
    reveal(crate::transcode_steps::step);
    law_answers_set_what_they_say(s, r);
}

#[verifier::spinoff_prover]
proof fn lemma_fails_setup(s: Transcode, r: Reply)
    requires
        s.is_setup(),
    ensures
        fails_for_a_reason(s, r, s.after_setup(r)),
        marks_video(s, r, s.after_setup(r)),
        marks_audio(s, r, s.after_setup(r)),
        counts(s, r, s.after_setup(r)),
{
}

#[verifier::spinoff_prover]
proof fn lemma_fails_video(s: Transcode, r: Reply)
    requires
        s.is_video(),
    ensures
        fails_for_a_reason(s, r, s.after_video(r)),
{
}

#[verifier::spinoff_prover]
proof fn lemma_marks_graph(s: Transcode, r: Reply)
    requires
        s.is_video(),
    ensures
        s.after_video(r).video.graph == (match (s.task, r) {
            (Task::BuildVideoGraph, Reply::Done) => true,
            _ => s.video.graph,
        }),
{
}

#[verifier::spinoff_prover]
proof fn lemma_marks_eof(s: Transcode, r: Reply)
    requires
        s.is_video(),
    ensures
        s.after_video(r).video.eof == (match (s.task, r) {
            (Task::SendVideoEof, Reply::Done) => true,
            _ => s.video.eof,
        }),
{
}

#[verifier::spinoff_prover]
proof fn lemma_marks_flushed(s: Transcode, r: Reply)
    requires
        s.is_video(),
    ensures
        s.after_video(r).video.flushed == (match (s.task, r) {
            (Task::FlushVideo, Reply::Done) => true,
            _ => s.video.flushed,
        }),
{
}

#[verifier::spinoff_prover]
proof fn lemma_marks_opened(s: Transcode, r: Reply)
    requires
        s.is_video(),
    ensures
        s.after_video(r).video.opened == (match (s.task, r) {
            (Task::WriteHeader, Reply::Header(_, _)) => true,
            _ => s.video.opened,
        }),
{
}

#[verifier::spinoff_prover]
proof fn lemma_marks_encoder_eof(s: Transcode, r: Reply)
    requires
        s.is_video(),
    ensures
        s.after_video(r).video.encoder_eof == (match (s.task, r) {
            (Task::SendEncoderEof, Reply::Done) => true,
            _ => s.video.encoder_eof,
        }),
{
}

proof fn lemma_marks_video(s: Transcode, r: Reply, t: Transcode)
    requires
        s.is_video(),
        t == s.after_video(r),
    ensures
        marks_video(s, r, t),
{
    lemma_marks_graph(s, r);
    lemma_marks_eof(s, r);
    lemma_marks_flushed(s, r);
    lemma_marks_opened(s, r);
    lemma_marks_encoder_eof(s, r);
}

#[verifier::spinoff_prover]
proof fn lemma_video_marks_no_audio(s: Transcode, r: Reply)
    requires
        s.is_video(),
    ensures
        marks_audio(s, r, s.after_video(r)),
{
}

#[verifier::spinoff_prover]
proof fn lemma_counts_video(s: Transcode, r: Reply)
    requires
        s.is_video(),
    ensures
        counts(s, r, s.after_video(r)),
{
}

#[verifier::spinoff_prover]
proof fn lemma_fails_audio(s: Transcode, r: Reply)
    requires
        crate::transcode_steps::is_audio(s),
    ensures
        fails_for_a_reason(s, r, s.after_audio(r)),
        marks_video(s, r, s.after_audio(r)),
        marks_audio(s, r, s.after_audio(r)),
        counts(s, r, s.after_audio(r)),
{
}

#[verifier::spinoff_prover]
proof fn lemma_fails_rest(s: Transcode, r: Reply)
    requires
        !s.is_setup(),
        !s.is_video(),
        !crate::transcode_steps::is_audio(s),
    ensures
        fails_for_a_reason(s, r, s.after(r)),
        marks_video(s, r, s.after(r)),
        marks_audio(s, r, s.after(r)),
        counts(s, r, s.after(r)),
{
}

/// A job fails exactly where there is a reason, and tells which; nothing but
/// its task then changes, and a job that is over stays as it is. Progress is
/// marked where a task was done, and nowhere else.
pub proof fn law_job_fails_only_for_a_reason(s: Transcode, r: Reply)
    ensures
        fails_for_a_reason(s, r, s.after(r)),
        marks_video(s, r, s.after(r)),
        marks_audio(s, r, s.after(r)),
        counts(s, r, s.after(r)),
{
    if s.is_setup() {
        assert(s.after(r) == s.after_setup(r));
        lemma_fails_setup(s, r);
    } else if s.is_video() {
        assert(s.after(r) == s.after_video(r));
        lemma_fails_video(s, r);
        lemma_marks_video(s, r, s.after(r));
        lemma_video_marks_no_audio(s, r);
        lemma_counts_video(s, r);
    } else if crate::transcode_steps::is_audio(s) {
        assert(s.after(r) == s.after_audio(r));
        lemma_fails_audio(s, r);
    } else {
        lemma_fails_rest(s, r);
    }
}

/// Where the settings of the video come from.
spec fn video_settled(start: Transcode, replies: Seq<Reply>) -> bool {
    let job = crate::transcode_laws::run(start, replies);
    &&& job.reencode == start.reencode
    &&& answer_to(start, replies, Task::PickVideo) matches Some(Reply::Video(Some(v))) ==> {
        &&& job.video.index == v.index
        &&& job.video.time_base == v.time_base
        &&& v.rate.num > 0 && v.rate.den > 0 ==> job.video.rate == v.rate
        &&& !(v.rate.num > 0 && v.rate.den > 0) ==> job.video.rate == (Rational {
            num: 30,
            den: 1,
        })
    }
    &&& answer_to(start, replies, Task::OpenOutput) matches Some(Reply::Output(g))
        ==> job.global_header == g
    &&& answer_to(start, replies, Task::AddVideoStream) matches Some(Reply::Stream(i))
        ==> job.video.out_index == i
    &&& answer_to(start, replies, Task::OpenVideoEncoder) matches Some(Reply::Encoder(tb))
        ==> job.video.encoder_tb == tb
    &&& answer_to(start, replies, Task::WriteHeader) matches Some(Reply::Header(v, _))
        ==> job.video.out_tb == v
}

proof fn lemma_video_settled(start: Transcode, replies: Seq<Reply>)
    ensures
        video_settled(start, replies),
    decreases replies.len(),
{
    if replies.len() > 0 {
        let s = crate::transcode_laws::run(start, replies.drop_last());
        lemma_video_settled(start, replies.drop_last());
        lemma_step_sets(s, replies.last());
    }
}

/// In every run the output has the frame rate of the video stream that was
/// picked, wherever both of its parts are positive, and thirty frames a second
/// otherwise; so the video encoder is opened with that rate. The stream that is
/// decoded, its ticks, the stream of the output, the ticks of the encoder and
/// those of the output are the ones that the answers named. All of it holds
/// from the answer on to the end of the job.
pub proof fn law_video_settings_follow_the_answers(reencode: bool, replies: Seq<Reply>)
    ensures
        ({
            let start = Transcode::fresh(reencode);
            let job = crate::transcode_laws::run(start, replies);
            &&& job.reencode == reencode
            &&& answer_to(start, replies, Task::PickVideo) matches Some(Reply::Video(Some(v))) ==> {
                &&& job.video.index == v.index
                &&& job.video.time_base == v.time_base
                &&& v.rate.num > 0 && v.rate.den > 0 ==> job.video.rate == v.rate
                &&& !(v.rate.num > 0 && v.rate.den > 0) ==> job.video.rate == (Rational {
                    num: 30,
                    den: 1,
                })
            }
            &&& answer_to(start, replies, Task::OpenOutput) matches Some(Reply::Output(g))
                ==> job.global_header == g
            &&& answer_to(start, replies, Task::AddVideoStream) matches Some(Reply::Stream(i))
                ==> job.video.out_index == i
            &&& answer_to(start, replies, Task::OpenVideoEncoder) matches Some(Reply::Encoder(tb))
                ==> job.video.encoder_tb == tb
            &&& answer_to(start, replies, Task::WriteHeader) matches Some(Reply::Header(v, _))
                ==> job.video.out_tb == v
        }),
{
    lemma_video_settled(Transcode::fresh(reencode), replies);
}

/// Whether a task sets up audio that is encoded again.
spec fn sets_up_reencoding(task: Task) -> bool {
    task is OpenAudioDecoder || task is FindAudioEncoder || task is AddAudioStream
        || task is PickSampleFormat || task is OpenAudioEncoder || task is BuildAudioGraph
}

/// What links the tasks of setting up to what was asked for.
spec fn asked(s: Transcode) -> bool {
    &&& sets_up_reencoding(s.task) ==> s.reencode
    &&& s.task is AddCopyStream ==> !s.reencode
    &&& s.audio.mode is Reencode ==> s.reencode
    &&& s.audio.mode is Copy ==> !s.reencode
}

#[verifier::spinoff_prover]
proof fn lemma_asked_setup(s: Transcode, r: Reply)
    requires
        s.is_setup(),
        asked(s),
    ensures
        asked(s.after_setup(r)),
{
}

/// One answer keeps what was asked for.
proof fn lemma_asked(s: Transcode, r: Reply)
    requires
        asked(s),
        crate::transcode_steps::consistent(s),
        s.has_room(),
    ensures
        asked(crate::transcode_steps::step(s, r)),
        !s.is_setup() ==> !crate::transcode_steps::step(s, r).is_setup(),
{
    lemma_step_sets(s, r);
    crate::transcode_steps::lemma_step(s, r);
    if s.is_setup() {
        reveal(crate::transcode_steps::step);
        assert(s.after(r) == s.after_setup(r));
        lemma_asked_setup(s, r);
    }
}

/// Which task follows which while a job sets up.
pub open spec fn sets_up_in_order(s: Transcode, r: Reply, t: Transcode) -> bool {
    match s.task {
        Task::OpenInput => r is Done ==> t.task is PickVideo,
        Task::PickVideo => r is Video && r->Video_0 is Some ==> t.task is OpenVideoDecoder,
        Task::OpenVideoDecoder => r is Done ==> t.task is OpenOutput,
        Task::OpenOutput => r is Output ==> t.task is FindVideoEncoder,
        Task::FindVideoEncoder => r == Reply::Got(true) ==> t.task is AddVideoStream,
        Task::AddVideoStream => r is Stream ==> t.task is PickAudio,
        Task::PickAudio => {
            &&& r is Audio && r->Audio_0 is Some && s.reencode ==> t.task is OpenAudioDecoder
            &&& r is Audio && r->Audio_0 is Some && !s.reencode ==> t.task is AddCopyStream
            &&& r is Audio && r->Audio_0 is None ==> t.task is Demux
        },
        Task::OpenAudioDecoder => r is AudioDecoder ==> t.task is FindAudioEncoder,
        Task::FindAudioEncoder => r == Reply::Got(true) ==> t.task is AddAudioStream,
        Task::AddAudioStream => r is Stream ==> t.task is PickSampleFormat,
        Task::PickSampleFormat => r == Reply::Got(true) ==> t.task is OpenAudioEncoder,
        Task::OpenAudioEncoder => r is Encoder ==> t.task is BuildAudioGraph,
        Task::BuildAudioGraph => r is Done ==> t.task is Demux,
        Task::AddCopyStream => r is Stream ==> t.task is Demux,
        _ => true,
    }
}

#[verifier::spinoff_prover]
proof fn lemma_setup_order(s: Transcode, r: Reply)
    requires
        s.is_setup(),
    ensures
        sets_up_in_order(s, r, s.after_setup(r)),
{
}

/// A job opens input and output, finds what it encodes with and adds its
/// streams in a fixed order before it reads a packet: video first, then audio,
/// encoded again or copied as was asked for, and not at all without a stream.
pub proof fn law_job_sets_up_in_order(s: Transcode, r: Reply)
    ensures
        Transcode::fresh(s.reencode).task is OpenInput,
        sets_up_in_order(s, r, s.after(r)),
{
    if s.is_setup() {
        assert(s.after(r) == s.after_setup(r));
        lemma_setup_order(s, r);
    }
}

/// A packet that is read goes to the video decoder exactly where it is of the
/// video stream. Else, where it is of the audio stream, it goes to the audio
/// decoder if audio is encoded again, and is written if audio is copied, or
/// kept while there is no header; any other is passed over. The end of the file
/// is told to the video decoder first.
pub proof fn law_packets_go_to_their_stream(s: Transcode, r: Reply)
    requires
        s.task is Demux,
    ensures
        ({
            let t = s.after(r);
            &&& r matches Reply::Packet(i) ==> {
                let of_audio = i != s.video.index && i == s.audio.index;
                &&& t.task is SendVideo <==> i == s.video.index
                &&& t.task is SendAudio <==> of_audio && s.audio.mode is Reencode
                &&& of_audio && s.audio.mode is Copy && s.video.opened ==> t.task
                    == Task::WriteAudio(s.audio.emitted)
                &&& of_audio && s.audio.mode is Copy && !s.video.opened ==> t.task
                    == Task::BufferAudio(s.audio.emitted)
                &&& i != s.video.index && (i != s.audio.index || s.audio.mode is Absent) ==> t == s
                &&& t == (Transcode { task: t.task, ..s })
            }
            &&& r is End ==> t.task is SendVideoEof
        }),
{
}

/// Which task follows which while video moves.
pub open spec fn moves_video(s: Transcode, r: Reply, t: Transcode) -> bool {
    match s.task {
        Task::SendVideo => r is Done ==> t.task is ReceiveVideo,
        Task::SendVideoEof => r is Done ==> t.task is ReceiveVideo,
        Task::ReceiveVideo => {
            &&& r == Reply::Got(true) && s.video.graph ==> t.task is FeedVideo
            &&& r == Reply::Got(true) && !s.video.graph ==> t.task is BuildVideoGraph
            &&& r == Reply::Got(false) && !s.video.eof ==> t.task is Demux
            &&& r == Reply::Got(false) && s.video.eof && s.video.graph ==> t.task is FlushVideo
            &&& r == Reply::Got(false) && s.video.eof && !s.video.graph ==> t.task
                == Task::Finished(0)
        },
        Task::BuildVideoGraph => r is Done ==> t.task is FeedVideo,
        Task::FeedVideo => r is Done ==> t.task is PullVideo,
        Task::FlushVideo => r is Done ==> t.task is PullVideo,
        Task::PullVideo => {
            &&& r == Reply::Got(true) && s.video.opened ==> t.task == Task::EncodeFrame(
                s.video.frames,
            )
            &&& r == Reply::Got(true) && !s.video.opened ==> t.task is OpenVideoEncoder
            &&& r == Reply::Got(false) && !s.video.flushed ==> t.task is ReceiveVideo
            &&& r == Reply::Got(false) && s.video.flushed && s.video.opened
                ==> t.task is SendEncoderEof
            &&& r == Reply::Got(false) && s.video.flushed && !s.video.opened ==> t.task
                == Task::Finished(0)
        },
        _ => true,
    }
}

/// Which task follows which while video is encoded and written.
pub open spec fn writes_video(s: Transcode, r: Reply, t: Transcode) -> bool {
    match s.task {
        Task::OpenVideoEncoder => r is Encoder ==> t.task is WriteHeader,
        Task::WriteHeader => {
            &&& r is Header && s.audio.written < s.audio.emitted ==> t.task == Task::WriteBuffered(
                s.audio.written,
            )
            &&& r is Header && s.audio.written >= s.audio.emitted ==> t.task == Task::EncodeFrame(
                s.video.frames,
            )
        },
        Task::WriteBuffered(_) => {
            &&& r is Done && s.audio.written + 1 < s.audio.emitted ==> t.task
                == Task::WriteBuffered((s.audio.written + 1) as u64)
            &&& r is Done && s.audio.written + 1 == s.audio.emitted ==> t.task == Task::EncodeFrame(
                s.video.frames,
            )
        },
        Task::EncodeFrame(_) => r is Done ==> t.task is ReceiveVideoPacket,
        Task::ReceiveVideoPacket => {
            &&& r == Reply::Got(true) ==> t.task is WriteVideo
            &&& r == Reply::Got(false) && !s.video.encoder_eof ==> t.task is PullVideo
            &&& r == Reply::Got(false) && s.video.encoder_eof && s.audio.mode is Reencode
                ==> t.task is SendAudioEof
            &&& r == Reply::Got(false) && s.video.encoder_eof && !(s.audio.mode is Reencode)
                ==> t.task is WriteTrailer
        },
        Task::WriteVideo => r is Done ==> t.task is ReceiveVideoPacket,
        Task::SendEncoderEof => r is Done ==> t.task is ReceiveVideoPacket,
        _ => true,
    }
}

/// Which task follows which while audio moves.
pub open spec fn moves_audio(s: Transcode, r: Reply, t: Transcode) -> bool {
    match s.task {
        Task::SendAudio => r is Done ==> t.task is ReceiveAudio,
        Task::SendAudioEof => r is Done ==> t.task is ReceiveAudio,
        Task::ReceiveAudio => {
            &&& r == Reply::Got(true) ==> t.task is FeedAudio
            &&& r == Reply::Got(false) && !s.audio.eof ==> t.task is Demux
            &&& r == Reply::Got(false) && s.audio.eof ==> t.task is FlushAudio
        },
        Task::FeedAudio => r is Done ==> t.task is PullAudio,
        Task::FlushAudio => r is Done ==> t.task is PullAudio,
        Task::PullAudio => {
            &&& r == Reply::Got(true) ==> t.task is EncodeAudio
            &&& r == Reply::Got(false) && !s.audio.flushed ==> t.task is ReceiveAudio
            &&& r == Reply::Got(false) && s.audio.flushed ==> t.task is SendAudioEncoderEof
        },
        Task::EncodeAudio => r is Done ==> t.task is ReceiveAudioPacket,
        Task::SendAudioEncoderEof => r is Done ==> t.task is ReceiveAudioPacket,
        Task::ReceiveAudioPacket => {
            &&& r == Reply::Got(true) && s.video.opened ==> t.task == Task::WriteAudio(
                s.audio.emitted,
            )
            &&& r == Reply::Got(true) && !s.video.opened ==> t.task == Task::BufferAudio(
                s.audio.emitted,
            )
            &&& r == Reply::Got(false) && !s.audio.encoder_eof ==> t.task is PullAudio
            &&& r == Reply::Got(false) && s.audio.encoder_eof ==> t.task is WriteTrailer
        },
        Task::BufferAudio(_) | Task::WriteAudio(_) => {
            &&& r is Done && s.audio.mode is Reencode ==> t.task is ReceiveAudioPacket
            &&& r is Done && !(s.audio.mode is Reencode) ==> t.task is Demux
        },
        _ => true,
    }
}

#[verifier::spinoff_prover]
proof fn lemma_moves_video(s: Transcode, r: Reply)
    requires
        s.is_video(),
    ensures
        moves_video(s, r, s.after_video(r)),
{
}

#[verifier::spinoff_prover]
proof fn lemma_writes_video(s: Transcode, r: Reply)
    requires
        s.is_video(),
    ensures
        writes_video(s, r, s.after_video(r)),
{
}

#[verifier::spinoff_prover]
proof fn lemma_moves_audio(s: Transcode, r: Reply)
    requires
        crate::transcode_steps::is_audio(s),
    ensures
        moves_audio(s, r, s.after_audio(r)),
{
}

/// Each place of the pipeline is asked until it has nothing to give, and what
/// it gives is handed on at once: frames of the decoder to the graph, frames of
/// the graph to the encoder, packets of the encoder to the output. The first
/// frame of the graph leads to the encoder, the header and the audio packets
/// that were kept, and then to itself; the end is passed on from place to place,
/// video before audio.
pub proof fn law_pipeline_hands_on_at_once(s: Transcode, r: Reply)
    ensures
        moves_video(s, r, s.after(r)),
        writes_video(s, r, s.after(r)),
        moves_audio(s, r, s.after(r)),
        s.task is WriteTrailer && r is Done ==> s.after(r).task == Task::Finished(s.video.frames),
{
    if s.is_video() {
        assert(s.after(r) == s.after_video(r));
        lemma_moves_video(s, r);
        lemma_writes_video(s, r);
    } else if crate::transcode_steps::is_audio(s) {
        assert(s.after(r) == s.after_audio(r));
        lemma_moves_audio(s, r);
    }
}

/// Where the settings of the audio come from.
spec fn audio_settled(start: Transcode, replies: Seq<Reply>) -> bool {
    let job = crate::transcode_laws::run(start, replies);
    &&& asked(job)
    &&& answer_to(start, replies, Task::PickAudio) matches Some(Reply::Audio(Some(a)))
        ==> job.audio.index == a.index && job.audio.time_base == a.time_base
    &&& answer_to(start, replies, Task::OpenAudioDecoder) matches Some(Reply::AudioDecoder(f))
        ==> job.audio.facts == f
    &&& job.reencode ==> (answer_to(start, replies, Task::AddAudioStream) matches Some(
        Reply::Stream(i),
    ) ==> job.audio.out_index == i)
    &&& !job.reencode ==> (answer_to(start, replies, Task::AddCopyStream) matches Some(
        Reply::Stream(i),
    ) ==> job.audio.out_index == i)
    &&& job.reencode ==> (answer_to(start, replies, Task::OpenAudioEncoder) matches Some(
        Reply::Encoder(tb),
    ) ==> job.audio.src_tb == tb)
    &&& job.audio.mode is Copy ==> job.audio.src_tb == job.audio.time_base
    &&& answer_to(start, replies, Task::WriteHeader) matches Some(Reply::Header(_, a))
        ==> job.audio.mode is Absent || job.audio.out_tb == a
}

proof fn lemma_audio_settled(reencode: bool, replies: Seq<Reply>)
    requires
        replies.len() < i64::MAX,
    ensures
        audio_settled(Transcode::fresh(reencode), replies),
    decreases replies.len(),
{
    let start = Transcode::fresh(reencode);
    if replies.len() > 0 {
        let s = crate::transcode_laws::run(start, replies.drop_last());
        lemma_audio_settled(reencode, replies.drop_last());
        lemma_step_sets(s, replies.last());
        crate::transcode_laws::lemma_run(reencode, replies.drop_last());
        lemma_asked(s, replies.last());
        lemma_header_not_before_setup(reencode, replies.drop_last());
    }
}

/// While a job sets up it was not asked for a header.
proof fn lemma_header_not_before_setup(reencode: bool, replies: Seq<Reply>)
    requires
        replies.len() < i64::MAX,
    ensures
        ({
            let start = Transcode::fresh(reencode);
            let job = crate::transcode_laws::run(start, replies);
            &&& asked(job)
            &&& job.is_setup() ==> answer_to(start, replies, Task::WriteHeader) is None
        }),
    decreases replies.len(),
{
    if replies.len() > 0 {
        let start = Transcode::fresh(reencode);
        let s = crate::transcode_laws::run(start, replies.drop_last());
        lemma_header_not_before_setup(reencode, replies.drop_last());
        crate::transcode_laws::lemma_run(reencode, replies.drop_last());
        lemma_asked(s, replies.last());
    }
}

/// In every run audio is taken from the stream that was picked, and written to
/// the stream that was added for it. Audio that is copied is rescaled from the
/// ticks of the input, and audio that is encoded again from those of its
/// encoder, to those that the header gave; the encoder is opened with what the
/// decoder said of the source. Whether audio is copied or encoded again is what
/// was asked for.
pub proof fn law_audio_settings_follow_the_answers(reencode: bool, replies: Seq<Reply>)
    requires
        replies.len() < i64::MAX,
    ensures
        ({
            let start = Transcode::fresh(reencode);
            let job = crate::transcode_laws::run(start, replies);
            &&& job.audio.mode is Reencode ==> reencode
            &&& job.audio.mode is Copy ==> !reencode
            &&& answer_to(start, replies, Task::PickAudio) matches Some(Reply::Audio(Some(a)))
                ==> job.audio.index == a.index && job.audio.time_base == a.time_base
            &&& answer_to(start, replies, Task::OpenAudioDecoder) matches Some(
                Reply::AudioDecoder(f),
            ) ==> job.audio.facts == f
            &&& reencode ==> (answer_to(start, replies, Task::AddAudioStream) matches Some(
                Reply::Stream(i),
            ) ==> job.audio.out_index == i)
            &&& !reencode ==> (answer_to(start, replies, Task::AddCopyStream) matches Some(
                Reply::Stream(i),
            ) ==> job.audio.out_index == i)
            &&& reencode ==> (answer_to(start, replies, Task::OpenAudioEncoder) matches Some(
                Reply::Encoder(tb),
            ) ==> job.audio.src_tb == tb)
            &&& job.audio.mode is Copy ==> job.audio.src_tb == job.audio.time_base
            &&& answer_to(start, replies, Task::WriteHeader) matches Some(Reply::Header(_, a))
                ==> job.audio.mode is Absent || job.audio.out_tb == a
        }),
{
    lemma_audio_settled(reencode, replies);
    lemma_video_settled(Transcode::fresh(reencode), replies);
}

#[verifier::spinoff_prover]
proof fn lemma_header_follows_encoder_video(s: Transcode, r: Reply)
    requires
        s.is_video(),
    ensures
        s.after_video(r).task is WriteHeader ==> s.task is OpenVideoEncoder && r is Encoder,
{
}

#[verifier::spinoff_prover]
proof fn lemma_header_follows_encoder_audio(s: Transcode, r: Reply)
    requires
        crate::transcode_steps::is_audio(s),
    ensures
        !(s.after_audio(r).task is WriteHeader),
{
}

/// A header is asked for only once the encoder is open.
proof fn lemma_header_follows_encoder(s: Transcode, r: Reply)
    ensures
        crate::transcode_steps::step(s, r).task is WriteHeader ==> s.task is OpenVideoEncoder
            && r is Encoder,
{
    reveal(crate::transcode_steps::step);
    if s.is_setup() {
        assert(s.after(r) == s.after_setup(r));
        lemma_setup_order(s, r);
        lemma_fails_setup(s, r);
    } else if s.is_video() {
        assert(s.after(r) == s.after_video(r));
        lemma_header_follows_encoder_video(s, r);
    } else if crate::transcode_steps::is_audio(s) {
        assert(s.after(r) == s.after_audio(r));
        lemma_header_follows_encoder_audio(s, r);
    }
}

/// What one answer does while a job sets up, and what it marks.
proof fn lemma_step_leads(s: Transcode, r: Reply)
    ensures
        sets_up_in_order(s, r, crate::transcode_steps::step(s, r)),
        fails_for_a_reason(s, r, crate::transcode_steps::step(s, r)),
        marks_video(s, r, crate::transcode_steps::step(s, r)),
{
    reveal(crate::transcode_steps::step);
    law_job_sets_up_in_order(s, r);
    law_job_fails_only_for_a_reason(s, r);
}

/// Whether a job has named the audio stream, where there is one, and waits to
/// take it up.
spec fn has_audio_pending(task: Task) -> bool {
    sets_up_reencoding(task) || task is AddCopyStream
}

/// Which answers a job has had by the time of its task.
spec fn answered(start: Transcode, replies: Seq<Reply>) -> bool {
    let job = crate::transcode_laws::run(start, replies);
    let task = job.task;
    let video = answer_to(start, replies, Task::PickVideo);
    let audio = answer_to(start, replies, Task::PickAudio);
    &&& !(task is OpenInput || task is PickVideo || task is Failed) ==> (video matches Some(
        Reply::Video(Some(_)),
    ))
    &&& crate::transcode_steps::has_video_stream(task) ==> (answer_to(
        start,
        replies,
        Task::AddVideoStream,
    ) matches Some(Reply::Stream(_)))
    &&& has_audio_pending(task) ==> (audio matches Some(Reply::Audio(Some(_))))
    &&& !job.is_setup() && !(task is Failed) ==> {
        ||| audio == Some(Reply::Audio(None)) && job.audio.mode is Absent
        ||| (audio matches Some(Reply::Audio(Some(_))) && job.audio.mode == (if job.reencode {
            AudioMode::Reencode
        } else {
            AudioMode::Copy
        }))
    }
    &&& task is WriteHeader || job.video.opened ==> (answer_to(
        start,
        replies,
        Task::OpenVideoEncoder,
    ) matches Some(Reply::Encoder(_)))
    &&& job.video.opened ==> (answer_to(start, replies, Task::WriteHeader) matches Some(
        Reply::Header(_, _),
    ))
}

proof fn lemma_answered_video(start: Transcode, replies: Seq<Reply>, s: Transcode)
    requires
        replies.len() > 0,
        s == crate::transcode_laws::run(start, replies.drop_last()),
        crate::transcode_steps::consistent(s),
        s.has_room(),
        asked(s),
        answered(start, replies.drop_last()),
    ensures
        answered(start, replies),
{
    let r = replies.last();
    lemma_step_leads(s, r);
    lemma_step_sets(s, r);
    lemma_asked(s, r);
    crate::transcode_steps::lemma_step(s, r);
    lemma_header_follows_encoder(s, r);
}

proof fn lemma_answered(reencode: bool, replies: Seq<Reply>)
    requires
        replies.len() < i64::MAX,
    ensures
        answered(Transcode::fresh(reencode), replies),
    decreases replies.len(),
{
    let start = Transcode::fresh(reencode);
    if replies.len() > 0 {
        let s = crate::transcode_laws::run(start, replies.drop_last());
        lemma_answered(reencode, replies.drop_last());
        crate::transcode_laws::lemma_run(reencode, replies.drop_last());
        lemma_header_not_before_setup(reencode, replies.drop_last());
        lemma_answered_video(start, replies, s);
    }
}

/// A job that moves packets has picked its video stream, has a stream for it in
/// the output, and carries audio exactly where the input has any, copied or
/// encoded again as was asked for; one that writes packets was told the ticks
/// of its encoder and of its output.
pub proof fn law_moving_job_is_set_up(reencode: bool, replies: Seq<Reply>)
    requires
        replies.len() < i64::MAX,
    ensures
        ({
            let start = Transcode::fresh(reencode);
            let job = crate::transcode_laws::run(start, replies);
            let audio = answer_to(start, replies, Task::PickAudio);
            &&& !crate::transcode_laws::is_setup_task(job.task) && !(job.task is Failed) ==> {
                &&& answer_to(start, replies, Task::PickVideo) matches Some(Reply::Video(Some(_)))
                &&& answer_to(start, replies, Task::AddVideoStream) matches Some(Reply::Stream(_))
                &&& audio is Some && audio->0 is Audio
                &&& job.audio.mode is Absent <==> audio == Some(Reply::Audio(None))
                &&& job.audio.mode is Copy <==> audio != Some(Reply::Audio(None)) && !reencode
                &&& job.audio.mode is Reencode <==> audio != Some(Reply::Audio(None)) && reencode
            }
            &&& job.task is EncodeFrame || job.task is WriteVideo || job.task is WriteAudio
                || job.task is WriteBuffered || job.task is WriteTrailer ==> {
                &&& answer_to(start, replies, Task::OpenVideoEncoder) matches Some(
                    Reply::Encoder(_),
                )
                &&& answer_to(start, replies, Task::WriteHeader) matches Some(Reply::Header(_, _))
            }
        }),
{
    let start = Transcode::fresh(reencode);
    let job = crate::transcode_laws::run(start, replies);
    lemma_answered(reencode, replies);
    lemma_video_settled(start, replies);
    crate::transcode_laws::lemma_run(reencode, replies);
    assert(crate::transcode_laws::is_setup_task(job.task) == job.is_setup());
}

/// Another answer can be taken as long as neither the frames nor the audio
/// packets are as many as can be counted.
pub proof fn law_room_of_a_job(s: Transcode)
    ensures
        s.has_room() <==> s.video.frames < i64::MAX && s.audio.emitted < u64::MAX
            && s.audio.written < u64::MAX,
{
}

} // verus!
