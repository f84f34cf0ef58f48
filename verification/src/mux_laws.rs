//! What a muxing job writes, for every pair of inputs.
use crate::media::{Rational, StreamPick};
use crate::mux::{Mux, MuxReply, MuxTask};
use vstd::prelude::*;

verus! {

/// A packet of an input: its stream and its decoding time in microseconds.
pub struct Demuxed {
    pub stream: usize,
    pub time: i64,
}

/// A packet of the output: whether it is video, and its decoding time.
pub struct Muxed {
    pub video: bool,
    pub time: i64,
}

/// What a job leaves behind: the packets in the order in which they were
/// written, and its last state.
pub struct MuxRun {
    pub written: Seq<Muxed>,
    pub end: Mux,
}

/// How many answers a job can still take from two inputs before it ends.
pub open spec fn work_left(job: Mux, video: Seq<Demuxed>, audio: Seq<Demuxed>) -> nat {
    4 * video.len() + 4 * audio.len() + (if job.video.pending is Some {
        2nat
    } else {
        0
    }) + (if job.audio.pending is Some {
        2nat
    } else {
        0
    }) + (if job.video.done {
        0nat
    } else {
        1
    }) + (if job.audio.done {
        0nat
    } else {
        1
    })
}

/// What the job does with the rest of its inputs, where no call fails.
pub open spec fn drive(job: Mux, video: Seq<Demuxed>, audio: Seq<Demuxed>) -> MuxRun
    decreases work_left(job, video, audio),
{
    if job.task is ReadVideo && job.video.wants_packet() {
        if video.len() == 0 {
            drive(job.after(MuxReply::End), video, audio)
        } else {
            drive(
                job.after(MuxReply::Packet(video[0].stream, video[0].time)),
                video.skip(1),
                audio,
            )
        }
    } else if job.task is ReadAudio && job.audio.wants_packet() {
        if audio.len() == 0 {
            drive(job.after(MuxReply::End), video, audio)
        } else {
            drive(
                job.after(MuxReply::Packet(audio[0].stream, audio[0].time)),
                video,
                audio.skip(1),
            )
        }
    } else if job.task is WriteVideo && job.video.pending is Some {
        let rest = drive(job.after(MuxReply::Done), video, audio);
        MuxRun {
            written: seq![Muxed { video: true, time: job.video.pending->0 }] + rest.written,
            end: rest.end,
        }
    } else if job.task is WriteAudio && job.audio.pending is Some {
        let rest = drive(job.after(MuxReply::Done), video, audio);
        MuxRun {
            written: seq![Muxed { video: false, time: job.audio.pending->0 }] + rest.written,
            end: rest.end,
        }
    } else if job.task is WriteTrailer {
        MuxRun { written: Seq::empty(), end: job.after(MuxReply::Done) }
    } else {
        MuxRun { written: Seq::empty(), end: job }
    }
}

/// The times of the packets that belong to one stream of an input.
pub open spec fn of_stream(packets: Seq<Demuxed>, stream: usize) -> Seq<i64>
    decreases packets.len(),
{
    if packets.len() == 0 {
        Seq::empty()
    } else if packets[0].stream == stream {
        seq![packets[0].time] + of_stream(packets.skip(1), stream)
    } else {
        of_stream(packets.skip(1), stream)
    }
}

/// Two sequences of times, merged by always taking the earlier head, video
/// first where they are equal.
pub open spec fn merge(video: Seq<i64>, audio: Seq<i64>) -> Seq<Muxed>
    decreases video.len() + audio.len(),
{
    if video.len() > 0 && (audio.len() == 0 || video[0] <= audio[0]) {
        seq![Muxed { video: true, time: video[0] }] + merge(video.skip(1), audio)
    } else if audio.len() > 0 {
        seq![Muxed { video: false, time: audio[0] }] + merge(video, audio.skip(1))
    } else {
        Seq::empty()
    }
}

/// The times of the written packets of one kind.
pub open spec fn of_kind(written: Seq<Muxed>, video: bool) -> Seq<i64>
    decreases written.len(),
{
    if written.len() == 0 {
        Seq::empty()
    } else if written[0].video == video {
        seq![written[0].time] + of_kind(written.skip(1), video)
    } else {
        of_kind(written.skip(1), video)
    }
}

/// Whether times never go back.
pub open spec fn in_order(times: Seq<i64>) -> bool {
    forall|i: int, j: int| 0 <= i <= j < times.len() ==> times[i] <= times[j]
}

/// Whether the times of written packets never go back.
pub open spec fn written_in_order(written: Seq<Muxed>) -> bool {
    forall|i: int, j: int| 0 <= i <= j < written.len() ==> written[i].time <= written[j].time
}

/// The packet that is held back, as a sequence.
spec fn held(pending: Option<i64>) -> Seq<i64> {
    match pending {
        Some(t) => seq![t],
        None => Seq::empty(),
    }
}

/// Whether the job moves packets, and an input that has ended has none left.
spec fn moving(job: Mux, video: Seq<Demuxed>, audio: Seq<Demuxed>) -> bool {
    &&& job == job.choice()
    &&& job.video.done ==> video.len() == 0
    &&& job.audio.done ==> audio.len() == 0
}

proof fn lemma_drive(job: Mux, video: Seq<Demuxed>, audio: Seq<Demuxed>)
    requires
        moving(job, video, audio),
        job.count + held(job.video.pending).len() + of_stream(video, job.video.index).len()
            <= i64::MAX,
        job.count >= 0,
    ensures
        ({
            let v = held(job.video.pending) + of_stream(video, job.video.index);
            let a = held(job.audio.pending) + of_stream(audio, job.audio.index);
            let run = drive(job, video, audio);
            &&& run.written == merge(v, a)
            &&& run.end.task == MuxTask::Finished((job.count + v.len()) as i64)
        }),
    decreases work_left(job, video, audio),
{
    let v = held(job.video.pending) + of_stream(video, job.video.index);
    let a = held(job.audio.pending) + of_stream(audio, job.audio.index);
    if job.task is ReadVideo {
        if video.len() == 0 {
            lemma_drive(job.after(MuxReply::End), video, audio);
        } else {
            let next = job.after(MuxReply::Packet(video[0].stream, video[0].time));
            let rest = video.skip(1);
            assert(v =~= held(next.video.pending) + of_stream(rest, job.video.index));
            lemma_drive(next, rest, audio);
        }
    } else if job.task is ReadAudio {
        if audio.len() == 0 {
            lemma_drive(job.after(MuxReply::End), video, audio);
        } else {
            let next = job.after(MuxReply::Packet(audio[0].stream, audio[0].time));
            let rest = audio.skip(1);
            assert(a =~= held(next.audio.pending) + of_stream(rest, job.audio.index));
            lemma_drive(next, video, rest);
        }
    } else if job.task is WriteVideo {
        let next = job.after(MuxReply::Done);
        assert(v.skip(1) =~= held(next.video.pending) + of_stream(video, job.video.index));
        lemma_heads(job.audio.pending, audio, job.audio.index, job.audio.done);
        lemma_drive(next, video, audio);
    } else if job.task is WriteAudio {
        let next = job.after(MuxReply::Done);
        assert(a.skip(1) =~= held(next.audio.pending) + of_stream(audio, job.audio.index));
        lemma_heads(job.video.pending, video, job.video.index, job.video.done);
        lemma_drive(next, video, audio);
    } else {
        lemma_heads(job.video.pending, video, job.video.index, job.video.done);
        lemma_heads(job.audio.pending, audio, job.audio.index, job.audio.done);
    }
}

/// Where no packet has to be read, the one that is held is the next one, and
/// without one there are none left.
proof fn lemma_heads(pending: Option<i64>, packets: Seq<Demuxed>, stream: usize, done: bool)
    requires
        pending is Some || done,
        done ==> packets.len() == 0,
    ensures
        ({
            let all = held(pending) + of_stream(packets, stream);
            &&& pending matches Some(t) ==> all.len() > 0 && all[0] == t
            &&& pending is None ==> all.len() == 0
        }),
{
}

/// The state of a job whose header was just written.
pub open spec fn headed(job: Mux) -> bool {
    job == job.choice() && job.video.pending is None && job.audio.pending is None
        && !job.video.done && !job.audio.done && job.count == 0
}

/// A job that is set up without failure.
pub open spec fn set_up(
    video: StreamPick,
    audio: StreamPick,
    video_tb: Rational,
    audio_tb: Rational,
) -> Mux {
    Mux::fresh().after(MuxReply::Done).after(MuxReply::Done).after(
        MuxReply::Picked(Some(video)),
    ).after(MuxReply::Picked(Some(audio))).after(MuxReply::Done).after(MuxReply::Done).after(
        MuxReply::Done,
    ).after(MuxReply::Header(video_tb, audio_tb))
}

/// Once both inputs and the output are open and the header is written, a job
/// copies the streams that were picked, from the time bases of the inputs to
/// those of the output.
pub proof fn law_setup_leads_to_copying(
    video: StreamPick,
    audio: StreamPick,
    video_tb: Rational,
    audio_tb: Rational,
)
    ensures
        ({
            let job = set_up(video, audio, video_tb, audio_tb);
            &&& headed(job)
            &&& job.video.index == video.index && job.audio.index == audio.index
            &&& job.video.in_tb == video.time_base && job.audio.in_tb == audio.time_base
            &&& job.video.out_tb == video_tb && job.audio.out_tb == audio_tb
        }),
{
}

/// A job writes the packets of the chosen video and audio streams, and no
/// others, merged by their times; it ends with the trailer and reports how
/// many video packets there were.
pub proof fn law_mux_merges(job: Mux, video: Seq<Demuxed>, audio: Seq<Demuxed>)
    requires
        headed(job),
        of_stream(video, job.video.index).len() <= i64::MAX,
    ensures
        ({
            let v = of_stream(video, job.video.index);
            let a = of_stream(audio, job.audio.index);
            let run = drive(job, video, audio);
            &&& run.written == merge(v, a)
            &&& run.end.task == MuxTask::Finished(v.len() as i64)
        }),
{
    let v = of_stream(video, job.video.index);
    let a = of_stream(audio, job.audio.index);
    assert(held(job.video.pending) + v =~= v);
    assert(held(job.audio.pending) + a =~= a);
    lemma_drive(job, video, audio);
}

/// Merging loses nothing, adds nothing, and keeps the order within each
/// stream.
pub proof fn law_merge_keeps_streams(video: Seq<i64>, audio: Seq<i64>)
    ensures
        of_kind(merge(video, audio), true) == video,
        of_kind(merge(video, audio), false) == audio,
        merge(video, audio).len() == video.len() + audio.len(),
    decreases video.len() + audio.len(),
{
    let all = merge(video, audio);
    if video.len() > 0 && (audio.len() == 0 || video[0] <= audio[0]) {
        law_merge_keeps_streams(video.skip(1), audio);
        assert(all.skip(1) =~= merge(video.skip(1), audio));
        assert(video =~= seq![video[0]] + video.skip(1));
    } else if audio.len() > 0 {
        law_merge_keeps_streams(video, audio.skip(1));
        assert(all.skip(1) =~= merge(video, audio.skip(1)));
        assert(audio =~= seq![audio[0]] + audio.skip(1));
    } else {
        assert(video =~= Seq::empty());
        assert(audio =~= Seq::empty());
    }
}

/// Where the times of both streams never go back, neither do those of the
/// output: no packet is written before an earlier one of the other stream.
pub proof fn law_merge_keeps_order(video: Seq<i64>, audio: Seq<i64>)
    requires
        in_order(video),
        in_order(audio),
    ensures
        written_in_order(merge(video, audio)),
    decreases video.len() + audio.len(),
{
    let all = merge(video, audio);
    if video.len() > 0 && (audio.len() == 0 || video[0] <= audio[0]) {
        let rest = merge(video.skip(1), audio);
        law_merge_keeps_order(video.skip(1), audio);
        lemma_merge_bound(video.skip(1), audio, video[0]);
        assert forall|i: int, j: int| 0 <= i <= j < all.len() implies all[i].time
            <= all[j].time by {
            if j > 0 {
                assert(all[j] == rest[j - 1]);
            }
            if i > 0 {
                assert(all[i] == rest[i - 1]);
            }
        }
    } else if audio.len() > 0 {
        let rest = merge(video, audio.skip(1));
        law_merge_keeps_order(video, audio.skip(1));
        lemma_merge_bound(video, audio.skip(1), audio[0]);
        assert forall|i: int, j: int| 0 <= i <= j < all.len() implies all[i].time
            <= all[j].time by {
            if j > 0 {
                assert(all[j] == rest[j - 1]);
            }
            if i > 0 {
                assert(all[i] == rest[i - 1]);
            }
        }
    }
}

proof fn lemma_merge_bound(video: Seq<i64>, audio: Seq<i64>, low: i64)
    requires
        forall|i: int| 0 <= i < video.len() ==> low <= #[trigger] video[i],
        forall|i: int| 0 <= i < audio.len() ==> low <= #[trigger] audio[i],
    ensures
        forall|i: int|
            0 <= i < merge(video, audio).len() ==> low <= (#[trigger] merge(
                video,
                audio,
            )[i]).time,
    decreases video.len() + audio.len(),
{
    let all = merge(video, audio);
    if video.len() > 0 && (audio.len() == 0 || video[0] <= audio[0]) {
        let rest = merge(video.skip(1), audio);
        lemma_merge_bound(video.skip(1), audio, low);
        assert forall|i: int| 0 <= i < all.len() implies low <= (#[trigger] all[i]).time by {
            if i > 0 {
                assert(all[i] == rest[i - 1]);
            }
        }
    } else if audio.len() > 0 {
        let rest = merge(video, audio.skip(1));
        lemma_merge_bound(video, audio.skip(1), low);
        assert forall|i: int| 0 <= i < all.len() implies low <= (#[trigger] all[i]).time by {
            if i > 0 {
                assert(all[i] == rest[i - 1]);
            }
        }
    }
}

/// A new job after these answers.
pub open spec fn run(replies: Seq<MuxReply>) -> Mux
    decreases replies.len(),
{
    if replies.len() == 0 {
        Mux::fresh()
    } else {
        run(replies.drop_last()).after(replies.last())
    }
}

/// What a new job was last answered while it waited for `task`.
pub open spec fn answer_to(replies: Seq<MuxReply>, task: MuxTask) -> Option<MuxReply>
    decreases replies.len(),
{
    if replies.len() == 0 {
        None
    } else if run(replies.drop_last()).task == task {
        Some(replies.last())
    } else {
        answer_to(replies.drop_last(), task)
    }
}

/// How many times a new job was told that the video packet is written.
pub open spec fn videos_written(replies: Seq<MuxReply>) -> nat
    decreases replies.len(),
{
    if replies.len() == 0 {
        0
    } else {
        videos_written(replies.drop_last()) + (if run(replies.drop_last()).task is WriteVideo
            && replies.last() is Done {
            1nat
        } else {
            0
        })
    }
}

/// Whether a job that waits for `task` has named its video stream.
spec fn past_video(task: MuxTask) -> bool {
    !(task is OpenVideoInput || task is OpenAudioInput || task is PickVideo || task is Failed)
}

/// Whether a job that waits for `task` has named its audio stream.
spec fn past_audio(task: MuxTask) -> bool {
    past_video(task) && !(task is PickAudio)
}

/// Whether a job that waits for `task` has written its header.
spec fn past_header(task: MuxTask) -> bool {
    past_audio(task) && !(task is OpenOutput || task is AddVideo || task is AddAudio
        || task is WriteHeader)
}

/// In every run, whatever was answered, a job that writes a packet rescales it
/// from the time base of the stream that was picked to that of the output:
/// video from the video stream of the first file to the first stream, audio
/// from the audio stream of the second file to the second stream. What was
/// picked and what the header said holds from then on to the end of the job.
pub proof fn law_packets_are_rescaled_between_the_named_time_bases(replies: Seq<MuxReply>)
    ensures
        ({
            let job = run(replies);
            let video = answer_to(replies, MuxTask::PickVideo);
            let audio = answer_to(replies, MuxTask::PickAudio);
            let header = answer_to(replies, MuxTask::WriteHeader);
            &&& video matches Some(MuxReply::Picked(Some(p))) ==> job.video.index == p.index
                && job.video.in_tb == p.time_base
            &&& audio matches Some(MuxReply::Picked(Some(p))) ==> job.audio.index == p.index
                && job.audio.in_tb == p.time_base
            &&& header matches Some(MuxReply::Header(v, a)) ==> job.video.out_tb == v
                && job.audio.out_tb == a
            &&& job.task is WriteVideo || job.task is WriteAudio || job.task is ReadVideo
                || job.task is ReadAudio || job.task is WriteTrailer || job.task is Finished ==> {
                &&& video matches Some(MuxReply::Picked(Some(_)))
                &&& audio matches Some(MuxReply::Picked(Some(_)))
                &&& header matches Some(MuxReply::Header(_, _))
            }
        }),
{
    lemma_settings(replies);
}

proof fn lemma_settings(replies: Seq<MuxReply>)
    ensures
        ({
            let job = run(replies);
            let video = answer_to(replies, MuxTask::PickVideo);
            let audio = answer_to(replies, MuxTask::PickAudio);
            let header = answer_to(replies, MuxTask::WriteHeader);
            &&& video matches Some(MuxReply::Picked(Some(p))) ==> job.video.index == p.index
                && job.video.in_tb == p.time_base
            &&& audio matches Some(MuxReply::Picked(Some(p))) ==> job.audio.index == p.index
                && job.audio.in_tb == p.time_base
            &&& header matches Some(MuxReply::Header(v, a)) ==> job.video.out_tb == v
                && job.audio.out_tb == a
            &&& past_video(job.task) ==> (video matches Some(MuxReply::Picked(Some(_))))
            &&& past_audio(job.task) ==> (audio matches Some(MuxReply::Picked(Some(_))))
            &&& past_header(job.task) ==> (header matches Some(MuxReply::Header(_, _)))
        }),
    decreases replies.len(),
{
    if replies.len() > 0 {
        lemma_settings(replies.drop_last());
    }
}

/// In every run the count is that of the video packets that were written, and
/// it is what a job reports when it is over.
pub proof fn law_count_is_that_of_video_packets(replies: Seq<MuxReply>)
    requires
        replies.len() <= i64::MAX,
    ensures
        run(replies).count == videos_written(replies),
        videos_written(replies) <= replies.len(),
        run(replies).task matches MuxTask::Finished(n) ==> n == videos_written(replies),
    decreases replies.len(),
{
    if replies.len() > 0 {
        law_count_is_that_of_video_packets(replies.drop_last());
    }
}

/// Whether this is an answer to that task, and not one that tells of a failure.
pub open spec fn fits(task: MuxTask, reply: MuxReply) -> bool {
    match task {
        MuxTask::PickVideo | MuxTask::PickAudio => reply is Picked,
        MuxTask::WriteHeader => reply is Header,
        MuxTask::ReadVideo | MuxTask::ReadAudio => reply is Packet || reply is End,
        MuxTask::Finished(_) | MuxTask::Failed(_) => true,
        _ => reply is Done,
    }
}

/// A job fails exactly where a call failed, where a file has no stream of the
/// wanted kind, or where the answer is none to the task, and tells which of
/// these it was; it keeps everything else that it knew. A job that is over
/// stays as it is.
pub proof fn law_mux_fails_only_for_a_reason(job: Mux, reply: MuxReply)
    ensures
        ({
            let next = job.after(reply);
            let over = job.task is Finished || job.task is Failed;
            let missing = (job.task is PickVideo || job.task is PickAudio) && reply
                == MuxReply::Picked(None);
            &&& over ==> next == job
            &&& !over && reply is Failed ==> next.task == MuxTask::Failed(
                crate::media::Failure::Engine,
            )
            &&& missing ==> next.task == MuxTask::Failed(crate::media::Failure::StreamNotFound)
            &&& !over && !(reply is Failed) && !fits(job.task, reply) ==> next.task
                == MuxTask::Failed(crate::media::Failure::Protocol)
            &&& !over && fits(job.task, reply) && !missing ==> !(next.task is Failed)
            &&& !over && next.task is Failed ==> next.video == job.video && next.audio == job.audio
                && next.count == job.count
        }),
{
}

/// While packets move, a packet is held exactly where it belongs to the picked
/// stream of its file, with the time that it was read with; reading one file
/// changes nothing on the side of the other, and neither does writing. A file
/// is done once its end was found, and not before.
pub proof fn law_packets_are_held_by_their_stream(job: Mux, reply: MuxReply)
    ensures
        ({
            let next = job.after(reply);
            &&& job.task is ReadVideo || job.task is WriteVideo ==> next.audio == job.audio
            &&& job.task is ReadAudio || job.task is WriteAudio ==> next.video == job.video
                && next.count == job.count
            &&& job.task is ReadVideo ==> {
                &&& reply matches MuxReply::Packet(s, t) ==> {
                    &&& next.video.done == job.video.done
                    &&& s == job.video.index ==> next.video.pending == Some(t)
                    &&& s != job.video.index ==> next.video.pending == job.video.pending
                }
                &&& reply is End ==> next.video.done && next.video.pending == job.video.pending
            }
            &&& job.task is ReadAudio ==> {
                &&& reply matches MuxReply::Packet(s, t) ==> {
                    &&& next.audio.done == job.audio.done
                    &&& s == job.audio.index ==> next.audio.pending == Some(t)
                    &&& s != job.audio.index ==> next.audio.pending == job.audio.pending
                }
                &&& reply is End ==> next.audio.done && next.audio.pending == job.audio.pending
            }
            &&& job.task is WriteVideo && reply is Done ==> next.video.pending is None
                && next.video.done == job.video.done
            &&& job.task is WriteAudio && reply is Done ==> next.audio.pending is None
                && next.audio.done == job.audio.done
        }),
{
}

/// A job opens both files, picks a stream of each, opens the output, adds a
/// stream for each and writes the header, in this order, and begins with
/// nothing held, read or counted.
pub proof fn law_mux_sets_up_in_order(job: Mux, reply: MuxReply)
    ensures
        Mux::fresh().task is OpenVideoInput,
        Mux::fresh().count == 0,
        Mux::fresh().video.pending is None && Mux::fresh().audio.pending is None,
        !Mux::fresh().video.done && !Mux::fresh().audio.done,
        ({
            let next = job.after(reply);
            &&& job.task is OpenVideoInput && reply is Done ==> next.task is OpenAudioInput
            &&& job.task is OpenAudioInput && reply is Done ==> next.task is PickVideo
            &&& job.task is PickVideo && reply is Picked && reply->Picked_0 is Some
                ==> next.task is PickAudio
            &&& job.task is PickAudio && reply is Picked && reply->Picked_0 is Some
                ==> next.task is OpenOutput
            &&& job.task is OpenOutput && reply is Done ==> next.task is AddVideo
            &&& job.task is AddVideo && reply is Done ==> next.task is AddAudio
            &&& job.task is AddAudio && reply is Done ==> next.task is WriteHeader
            &&& job.task is WriteTrailer && reply is Done ==> next.task == MuxTask::Finished(
                job.count,
            )
        }),
{
}

/// While packets move, a file is read as long as it is not done and nothing of
/// it is held; else the earlier of the held packets is written, the video
/// packet where both have the same time; and with nothing left the trailer is.
pub proof fn law_earlier_packet_is_written_first(replies: Seq<MuxReply>)
    ensures
        ({
            let job = run(replies);
            let v = job.video;
            let a = job.audio;
            &&& job.task is ReadVideo ==> v.pending is None && !v.done
            &&& job.task is ReadAudio ==> a.pending is None && !a.done && (v.pending is Some
                || v.done)
            &&& job.task is WriteVideo ==> v.pending is Some && (a.pending is Some || a.done)
            &&& job.task is WriteAudio ==> a.pending is Some && (v.pending is Some || v.done)
            &&& job.task is WriteVideo && a.pending is Some ==> v.pending->0 <= a.pending->0
            &&& job.task is WriteAudio && v.pending is Some ==> a.pending->0 < v.pending->0
            &&& job.task is WriteTrailer || job.task is Finished ==> v.pending is None
                && a.pending is None && v.done && a.done
        }),
    decreases replies.len(),
{
    if replies.len() > 0 {
        law_earlier_packet_is_written_first(replies.drop_last());
    }
}

} // verus!
