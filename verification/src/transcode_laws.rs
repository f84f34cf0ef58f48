//! What holds of every transcoding job, whatever the media libraries answer.
use crate::transcode::{Reply, Task, Transcode};
use crate::transcode_steps::Stage;
use vstd::prelude::*;

verus! {

/// The job after its tasks were answered with `replies`, one after another.
pub open spec fn run(start: Transcode, replies: Seq<Reply>) -> Transcode
    decreases replies.len(),
{
    if replies.len() == 0 {
        start
    } else {
        crate::transcode_steps::step(run(start, replies.drop_last()), replies.last())
    }
}

/// The tasks that `replies` answered, in order.
pub open spec fn history(start: Transcode, replies: Seq<Reply>) -> Seq<Task>
    decreases replies.len(),
{
    if replies.len() == 0 {
        Seq::empty()
    } else {
        history(start, replies.drop_last()).push(run(start, replies.drop_last()).task)
    }
}

/// Whether task `t` stands in `h` before position `i`.
pub open spec fn before(h: Seq<Task>, i: int, t: Task) -> bool {
    exists|j: int| 0 <= j < i && j < h.len() && #[trigger] h[j] == t
}

/// The timestamps of the frames that were sent to the video encoder.
pub open spec fn frame_stamps(h: Seq<Task>) -> Seq<int>
    decreases h.len(),
{
    if h.len() == 0 {
        Seq::empty()
    } else {
        match h.last() {
            Task::EncodeFrame(pts) => frame_stamps(h.drop_last()).push(pts as int),
            _ => frame_stamps(h.drop_last()),
        }
    }
}

/// The numbers of the audio packets that were written.
pub open spec fn audio_writes(h: Seq<Task>) -> Seq<int>
    decreases h.len(),
{
    if h.len() == 0 {
        Seq::empty()
    } else {
        match h.last() {
            Task::WriteBuffered(n) => audio_writes(h.drop_last()).push(n as int),
            Task::WriteAudio(n) => audio_writes(h.drop_last()).push(n as int),
            _ => audio_writes(h.drop_last()),
        }
    }
}

/// The numbers of the audio packets that came out, whether they were kept for
/// the header or written at once.
pub open spec fn audio_arrivals(h: Seq<Task>) -> Seq<int>
    decreases h.len(),
{
    if h.len() == 0 {
        Seq::empty()
    } else {
        match h.last() {
            Task::BufferAudio(n) => audio_arrivals(h.drop_last()).push(n as int),
            Task::WriteAudio(n) => audio_arrivals(h.drop_last()).push(n as int),
            _ => audio_arrivals(h.drop_last()),
        }
    }
}

/// The numbers from zero up to `n`.
pub open spec fn counting(n: nat) -> Seq<int> {
    Seq::new(n, |i: int| i)
}

/// Whether a task writes to the output after its header.
pub open spec fn is_write(t: Task) -> bool {
    t is WriteBuffered || t is WriteVideo || t is WriteAudio || t is WriteTrailer
}

/// Whether a task belongs to setting up.
pub open spec fn is_setup_task(t: Task) -> bool {
    Transcode::fresh(false).at(t).is_setup()
}

/// Every job that started afresh is consistent, and has counted no more than
/// it was answered.
pub proof fn lemma_run(reencode: bool, replies: Seq<Reply>)
    requires
        replies.len() < i64::MAX,
    ensures
        crate::transcode_steps::consistent(run(Transcode::fresh(reencode), replies)),
        run(Transcode::fresh(reencode), replies).video.frames <= replies.len(),
        run(Transcode::fresh(reencode), replies).audio.written <= replies.len(),
        run(Transcode::fresh(reencode), replies).audio.emitted <= replies.len(),
        history(Transcode::fresh(reencode), replies).len() == replies.len(),
        replies.len() > 0 ==> crate::transcode_steps::counted(
            run(Transcode::fresh(reencode), replies.drop_last()),
            run(Transcode::fresh(reencode), replies),
        ) && crate::transcode_steps::staged(
            run(Transcode::fresh(reencode), replies.drop_last()),
            run(Transcode::fresh(reencode), replies),
        ),
    decreases replies.len(),
{
    if replies.len() > 0 {
        lemma_run(reencode, replies.drop_last());
        crate::transcode_steps::lemma_step(
            run(Transcode::fresh(reencode), replies.drop_last()),
            replies.last(),
        );
    }
}

proof fn lemma_push(h: Seq<Task>, t: Task)
    ensures
        frame_stamps(h.push(t)) == (match t {
            Task::EncodeFrame(pts) => frame_stamps(h).push(pts as int),
            _ => frame_stamps(h),
        }),
        audio_writes(h.push(t)) == (match t {
            Task::WriteBuffered(n) => audio_writes(h).push(n as int),
            Task::WriteAudio(n) => audio_writes(h).push(n as int),
            _ => audio_writes(h),
        }),
        audio_arrivals(h.push(t)) == (match t {
            Task::BufferAudio(n) => audio_arrivals(h).push(n as int),
            Task::WriteAudio(n) => audio_arrivals(h).push(n as int),
            _ => audio_arrivals(h),
        }),
{
    assert(h.push(t).drop_last() =~= h);
}

/// What the tasks of a job so far say of its counts.
spec fn tallied(s: Transcode, h: Seq<Task>) -> bool {
    &&& frame_stamps(h) =~= counting(frame_stamps(h).len())
    &&& audio_writes(h) =~= counting(audio_writes(h).len())
    &&& audio_arrivals(h) =~= counting(audio_arrivals(h).len())
    &&& !(s.task is Failed) ==> {
        &&& frame_stamps(h).len() == s.video.frames
        &&& audio_writes(h).len() == s.audio.written
        &&& audio_arrivals(h).len() == s.audio.emitted
    }
}

proof fn lemma_tallied_step(s: Transcode, t: Transcode, h: Seq<Task>)
    requires
        tallied(s, h),
        crate::transcode_steps::consistent(s),
        crate::transcode_steps::counted(s, t),
    ensures
        tallied(t, h.push(s.task)),
{
    lemma_push(h, s.task);
}

proof fn lemma_tallied(reencode: bool, replies: Seq<Reply>)
    requires
        replies.len() < i64::MAX,
    ensures
        tallied(
            run(Transcode::fresh(reencode), replies),
            history(Transcode::fresh(reencode), replies),
        ),
    decreases replies.len(),
{
    let start = Transcode::fresh(reencode);
    if replies.len() > 0 {
        lemma_tallied(reencode, replies.drop_last());
        lemma_run(reencode, replies.drop_last());
        lemma_run(reencode, replies);
        lemma_tallied_step(
            run(start, replies.drop_last()),
            run(start, replies),
            history(start, replies.drop_last()),
        );
    }
}

/// The frames of a job are encoded under the timestamps zero, one, two and so
/// on, whatever timestamps they were decoded with; and a finished job reports
/// how many they were.
pub proof fn law_frames_are_numbered(reencode: bool, replies: Seq<Reply>)
    requires
        replies.len() < i64::MAX,
    ensures
        frame_stamps(history(Transcode::fresh(reencode), replies)) == counting(
            frame_stamps(history(Transcode::fresh(reencode), replies)).len(),
        ),
        run(Transcode::fresh(reencode), replies).task matches Task::Finished(n) ==> n
            == frame_stamps(history(Transcode::fresh(reencode), replies)).len(),
{
    lemma_run(reencode, replies);
    lemma_tallied(reencode, replies);
}

/// Audio packets are written in the order in which they came out, none of
/// them twice and none passed over; and where a finished job has written a
/// header, it has written all of them.
pub proof fn law_audio_keeps_its_order(reencode: bool, replies: Seq<Reply>)
    requires
        replies.len() < i64::MAX,
    ensures
        ({
            let end = run(Transcode::fresh(reencode), replies);
            let h = history(Transcode::fresh(reencode), replies);
            &&& audio_arrivals(h) == counting(audio_arrivals(h).len())
            &&& audio_writes(h) == counting(audio_writes(h).len())
            &&& audio_writes(h).len() <= audio_arrivals(h).len()
            &&& end.task is Finished && h.contains(Task::WriteHeader) ==> audio_writes(h)
                == audio_arrivals(h)
        }),
{
    lemma_run(reencode, replies);
    lemma_tallied(reencode, replies);
    lemma_headed(reencode, replies);
    lemma_writes_bounded(reencode, replies);
}

proof fn lemma_writes_bounded(reencode: bool, replies: Seq<Reply>)
    requires
        replies.len() < i64::MAX,
    ensures
        ({
            let h = history(Transcode::fresh(reencode), replies);
            audio_writes(h).len() <= audio_arrivals(h).len()
        }),
    decreases replies.len(),
{
    let start = Transcode::fresh(reencode);
    if replies.len() > 0 {
        lemma_writes_bounded(reencode, replies.drop_last());
        lemma_run(reencode, replies.drop_last());
        lemma_tallied(reencode, replies.drop_last());
        lemma_push(
            history(start, replies.drop_last()),
            run(start, replies.drop_last()).task,
        );
    }
}

/// What the tasks of a job so far say of its header.
spec fn headed(s: Transcode, h: Seq<Task>) -> bool {
    &&& s.video.opened ==> before(h, h.len() as int, Task::WriteHeader)
    &&& !s.video.opened && !(s.task is Failed) ==> !before(h, h.len() as int, Task::WriteHeader)
    &&& forall|i: int| #![trigger h[i]] 0 <= i < h.len() && is_write(h[i]) ==> before(
        h,
        i,
        Task::WriteHeader,
    )
    &&& forall|i: int, j: int|
        #![trigger h[i], h[j]]
        0 <= i < j < h.len() && h[i] is WriteHeader ==> !(h[j] is WriteHeader)
    &&& s.task is Finished && s.video.opened ==> before(h, h.len() as int, Task::WriteTrailer)
    &&& !(s.task is Failed || s.task is Finished) ==> !before(
        h,
        h.len() as int,
        Task::WriteTrailer,
    )
    &&& !s.video.opened ==> !before(h, h.len() as int, Task::WriteTrailer)
}

proof fn lemma_before_push(h: Seq<Task>, t: Task, u: Task)
    ensures
        before(h.push(t), h.len() + 1int, u) <==> before(h, h.len() as int, u) || t == u,
        forall|i: int|
            0 <= i <= h.len() ==> (#[trigger] before(h.push(t), i, u) <==> before(h, i, u)),
{
    let g = h.push(t);
    if before(h, h.len() as int, u) {
        let j = choose|j: int| 0 <= j < h.len() && j < h.len() && #[trigger] h[j] == u;
        assert(g[j] == u);
    }
    if t == u {
        assert(g[h.len() as int] == u);
    }
    if before(g, h.len() + 1int, u) {
        let j = choose|j: int| 0 <= j < h.len() + 1 && j < g.len() && #[trigger] g[j] == u;
        if j < h.len() {
            assert(h[j] == u);
        }
    }
    assert forall|i: int| 0 <= i <= h.len() implies (#[trigger] before(g, i, u) <==> before(
        h,
        i,
        u,
    )) by {
        if before(g, i, u) {
            let j = choose|j: int| 0 <= j < i && j < g.len() && #[trigger] g[j] == u;
            assert(h[j] == u);
        }
        if before(h, i, u) {
            let j = choose|j: int| 0 <= j < i && j < h.len() && #[trigger] h[j] == u;
            assert(g[j] == u);
        }
    }
}

proof fn lemma_headed_step(s: Transcode, t: Transcode, h: Seq<Task>)
    requires
        headed(s, h),
        crate::transcode_steps::consistent(s),
        crate::transcode_steps::consistent(t),
        crate::transcode_steps::counted(s, t),
    ensures
        headed(t, h.push(s.task)),
{
    let g = h.push(s.task);
    lemma_before_push(h, s.task, Task::WriteHeader);
    lemma_before_push(h, s.task, Task::WriteTrailer);
    assert forall|i: int| #![trigger g[i]] 0 <= i < g.len() && is_write(g[i]) implies before(
        g,
        i,
        Task::WriteHeader,
    ) by {
        if i < h.len() {
            assert(g[i] == h[i]);
        }
    }
    assert forall|i: int, j: int|
        #![trigger g[i], g[j]]
        0 <= i < j < g.len() && g[i] is WriteHeader implies !(g[j] is WriteHeader) by {
        assert(g[i] == h[i]);
        if j < h.len() {
            assert(g[j] == h[j]);
        } else {
            assert(before(h, h.len() as int, Task::WriteHeader));
        }
    }
}

proof fn lemma_headed(reencode: bool, replies: Seq<Reply>)
    requires
        replies.len() < i64::MAX,
    ensures
        headed(
            run(Transcode::fresh(reencode), replies),
            history(Transcode::fresh(reencode), replies),
        ),
    decreases replies.len(),
{
    let start = Transcode::fresh(reencode);
    if replies.len() > 0 {
        lemma_headed(reencode, replies.drop_last());
        lemma_run(reencode, replies.drop_last());
        lemma_run(reencode, replies);
        lemma_headed_step(
            run(start, replies.drop_last()),
            run(start, replies),
            history(start, replies.drop_last()),
        );
    }
}

/// The header is written once at most, and before any packet and before the
/// trailer.
pub proof fn law_header_comes_first(reencode: bool, replies: Seq<Reply>)
    requires
        replies.len() < i64::MAX,
    ensures
        ({
            let h = history(Transcode::fresh(reencode), replies);
            &&& forall|i: int|
                #![trigger h[i]]
                0 <= i < h.len() && is_write(h[i]) ==> before(h, i, Task::WriteHeader)
            &&& forall|i: int, j: int|
                #![trigger h[i], h[j]]
                0 <= i < j < h.len() && h[i] is WriteHeader ==> !(h[j] is WriteHeader)
        }),
{
    lemma_headed(reencode, replies);
}

/// A finished job either has written its header and its trailer, or no frame
/// came through and it has written nothing and reports zero frames.
pub proof fn law_finished_file_is_whole_or_untouched(reencode: bool, replies: Seq<Reply>)
    requires
        replies.len() < i64::MAX,
    ensures
        ({
            let end = run(Transcode::fresh(reencode), replies);
            let h = history(Transcode::fresh(reencode), replies);
            end.task matches Task::Finished(n) ==> {
                ||| h.contains(Task::WriteHeader) && h.contains(Task::WriteTrailer)
                ||| n == 0 && !h.contains(Task::WriteHeader) && forall|i: int|
                    #![trigger h[i]]
                    0 <= i < h.len() ==> !is_write(h[i])
            }
        }),
{
    lemma_run(reencode, replies);
    lemma_headed(reencode, replies);
    let h = history(Transcode::fresh(reencode), replies);
    let end = run(Transcode::fresh(reencode), replies);
    if end.task is Finished && !end.video.opened {
        assert forall|i: int| #![trigger h[i]] 0 <= i < h.len() implies !is_write(h[i]) by {
            if is_write(h[i]) {
                assert(before(h, i, Task::WriteHeader));
                let j = choose|j: int|
                    0 <= j < i && j < h.len() && #[trigger] h[j] == Task::WriteHeader;
                assert(before(h, h.len() as int, Task::WriteHeader));
            }
        }
    }
}

/// What the tasks of a job so far say of its stages.
spec fn ordered(s: Transcode, h: Seq<Task>) -> bool {
    let n = h.len() as int;
    &&& crate::transcode_steps::has_video_stream(s.task) ==> before(h, n, Task::AddVideoStream)
    &&& s.video.eof ==> before(h, n, Task::SendVideoEof)
    &&& s.video.flushed ==> before(h, n, Task::FlushVideo)
    &&& s.video.encoder_eof ==> before(h, n, Task::SendEncoderEof)
    &&& s.audio.eof ==> before(h, n, Task::SendAudioEof)
    &&& s.audio.flushed ==> before(h, n, Task::FlushAudio)
    &&& s.audio.encoder_eof ==> before(h, n, Task::SendAudioEncoderEof)
    &&& before(h, n, Task::BuildAudioGraph) && !(s.task is Failed) ==> s.audio.mode is Reencode
    &&& !s.is_setup() || forall|i: int|
        #![trigger h[i]]
        0 <= i < n ==> is_setup_task(h[i])
    &&& forall|i: int|
        #![trigger h[i]]
        0 <= i < n && (h[i] is AddAudioStream || h[i] is AddCopyStream || h[i] is WriteHeader)
            ==> before(h, i, Task::AddVideoStream)
    &&& forall|i: int, j: int|
        #![trigger h[i], h[j]]
        0 <= i < j < n && is_setup_task(h[j]) ==> is_setup_task(h[i])
    &&& forall|i: int| #![trigger h[i]] 0 <= i < n && h[i] is WriteTrailer ==> drained(h, i)
}

/// Whether, by position `i`, each stage of the video has been told of the
/// end, and each stage of the audio where it is encoded again.
pub open spec fn drained(h: Seq<Task>, i: int) -> bool {
    &&& before(h, i, Task::SendVideoEof)
    &&& before(h, i, Task::FlushVideo)
    &&& before(h, i, Task::SendEncoderEof)
    &&& before(h, i, Task::BuildAudioGraph) ==> {
        &&& before(h, i, Task::SendAudioEof)
        &&& before(h, i, Task::FlushAudio)
        &&& before(h, i, Task::SendAudioEncoderEof)
    }
}

proof fn lemma_ordered_step(s: Transcode, t: Transcode, h: Seq<Task>)
    requires
        ordered(s, h),
        crate::transcode_steps::consistent(s),
        crate::transcode_steps::consistent(t),
        crate::transcode_steps::counted(s, t),
        crate::transcode_steps::staged(s, t),
    ensures
        ordered(t, h.push(s.task)),
{
    let g = h.push(s.task);
    lemma_before_push(h, s.task, Task::AddVideoStream);
    lemma_before_push(h, s.task, Task::SendVideoEof);
    lemma_before_push(h, s.task, Task::FlushVideo);
    lemma_before_push(h, s.task, Task::SendEncoderEof);
    lemma_before_push(h, s.task, Task::SendAudioEof);
    lemma_before_push(h, s.task, Task::FlushAudio);
    lemma_before_push(h, s.task, Task::SendAudioEncoderEof);
    lemma_before_push(h, s.task, Task::BuildAudioGraph);
    assert(is_setup_task(s.task) == s.is_setup());
    assert forall|i: int| #![trigger g[i]] 0 <= i < h.len() implies g[i] == h[i] by {}
    assert forall|i: int| #![trigger g[i]] 0 <= i < g.len() && g[i] is WriteTrailer implies drained(
        g,
        i,
    ) by {
        if i < h.len() {
            assert(drained(h, i));
        } else {
            assert(drained(h, h.len() as int));
        }
    }
    assert forall|i: int|
        #![trigger g[i]]
        0 <= i < g.len() && (g[i] is AddAudioStream || g[i] is AddCopyStream
            || g[i] is WriteHeader) implies before(g, i, Task::AddVideoStream) by {
        if i < h.len() {
            assert(before(h, i, Task::AddVideoStream));
        }
    }
}

proof fn lemma_ordered(reencode: bool, replies: Seq<Reply>)
    requires
        replies.len() < i64::MAX,
    ensures
        ordered(
            run(Transcode::fresh(reencode), replies),
            history(Transcode::fresh(reencode), replies),
        ),
    decreases replies.len(),
{
    let start = Transcode::fresh(reencode);
    if replies.len() > 0 {
        lemma_ordered(reencode, replies.drop_last());
        lemma_run(reencode, replies.drop_last());
        lemma_run(reencode, replies);
        lemma_ordered_step(
            run(start, replies.drop_last()),
            run(start, replies),
            history(start, replies.drop_last()),
        );
    }
}

/// The video stream is added before the audio stream, so that video is the
/// first stream of the output; and all streams are added before the header,
/// for nothing is set up once packets are read.
pub proof fn law_video_stream_comes_first(reencode: bool, replies: Seq<Reply>)
    requires
        replies.len() < i64::MAX,
    ensures
        ({
            let h = history(Transcode::fresh(reencode), replies);
            &&& forall|i: int|
                #![trigger h[i]]
                0 <= i < h.len() && (h[i] is AddAudioStream || h[i] is AddCopyStream
                    || h[i] is WriteHeader) ==> before(h, i, Task::AddVideoStream)
            &&& forall|i: int, j: int|
                #![trigger h[i], h[j]]
                0 <= i < j < h.len() && is_setup_task(h[j]) ==> is_setup_task(h[i])
        }),
{
    lemma_ordered(reencode, replies);
}

/// The trailer is written only after decoder, graph and encoder have been told
/// of the end, those of the video and, where it is encoded again, those of the
/// audio.
pub proof fn law_trailer_follows_draining(reencode: bool, replies: Seq<Reply>, i: int)
    requires
        replies.len() < i64::MAX,
        0 <= i < replies.len(),
        history(Transcode::fresh(reencode), replies)[i] is WriteTrailer,
    ensures
        drained(history(Transcode::fresh(reencode), replies), i),
{
    lemma_run(reencode, replies);
    lemma_ordered(reencode, replies);
}

/// How many filtered video frames `replies` handed over.
pub open spec fn frames_given(start: Transcode, replies: Seq<Reply>) -> nat
    decreases replies.len(),
{
    if replies.len() == 0 {
        0
    } else {
        frames_given(start, replies.drop_last()) + (if crate::transcode_steps::gives_frame(
            run(start, replies.drop_last()),
            replies.last(),
        ) {
            1nat
        } else {
            0
        })
    }
}

/// How many audio packets that belong in the output `replies` handed over.
pub open spec fn audio_given(start: Transcode, replies: Seq<Reply>) -> nat
    decreases replies.len(),
{
    if replies.len() == 0 {
        0
    } else {
        audio_given(start, replies.drop_last()) + (if crate::transcode_steps::gives_audio(
            run(start, replies.drop_last()),
            replies.last(),
        ) {
            1nat
        } else {
            0
        })
    }
}

proof fn lemma_given(reencode: bool, replies: Seq<Reply>)
    requires
        replies.len() < i64::MAX,
    ensures
        ({
            let start = Transcode::fresh(reencode);
            let end = run(start, replies);
            !(end.task is Failed) ==> {
                &&& frames_given(start, replies) == end.video.frames
                    + crate::transcode_steps::held_frames(end)
                &&& audio_given(start, replies) == end.audio.emitted
                    + crate::transcode_steps::held_audio(end)
            }
        }),
    decreases replies.len(),
{
    let start = Transcode::fresh(reencode);
    if replies.len() > 0 {
        let s = run(start, replies.drop_last());
        lemma_given(reencode, replies.drop_last());
        lemma_run(reencode, replies.drop_last());
        lemma_run(reencode, replies);
        crate::transcode_steps::lemma_step(s, replies.last());
    }
}

/// A finished job has encoded every frame that came out of the video graph,
/// and where it has written a header, every audio packet that was copied or
/// encoded again is in the output.
pub proof fn law_nothing_is_lost(reencode: bool, replies: Seq<Reply>)
    requires
        replies.len() < i64::MAX,
    ensures
        ({
            let start = Transcode::fresh(reencode);
            let h = history(start, replies);
            run(start, replies).task matches Task::Finished(n) ==> {
                &&& n == frames_given(start, replies)
                &&& h.contains(Task::WriteHeader) ==> audio_writes(h) == counting(
                    audio_given(start, replies),
                )
            }
        }),
{
    lemma_run(reencode, replies);
    lemma_given(reencode, replies);
    lemma_tallied(reencode, replies);
    law_audio_keeps_its_order(reencode, replies);
}

/// A header is written only once the video graph has given a frame: an input
/// of which no frame comes through leaves no header behind.
pub proof fn law_header_needs_a_frame(reencode: bool, replies: Seq<Reply>)
    requires
        replies.len() < i64::MAX,
    ensures
        ({
            let start = Transcode::fresh(reencode);
            history(start, replies).contains(Task::WriteHeader) ==> frames_given(start, replies)
                > 0
        }),
    decreases replies.len(),
{
    let start = Transcode::fresh(reencode);
    if replies.len() > 0 && history(start, replies).contains(Task::WriteHeader) {
        let earlier = replies.drop_last();
        let h = history(start, earlier);
        lemma_run(reencode, earlier);
        lemma_given(reencode, earlier);
        law_header_needs_a_frame(reencode, earlier);
        let j = choose|j: int|
            0 <= j < history(start, replies).len() && history(start, replies)[j]
                == Task::WriteHeader;
        if j < h.len() {
            assert(h[j] == Task::WriteHeader);
        }
    }
}

/// How often the tasks so far handed something to a stage.
pub open spec fn served(h: Seq<Task>, stage: Stage) -> nat
    decreases h.len(),
{
    if h.len() == 0 {
        0
    } else {
        served(h.drop_last(), stage) + (if stage.is_served_by(h.last()) {
            1nat
        } else {
            0
        })
    }
}

/// How often `replies` gave something for a stage.
pub open spec fn meant_for(start: Transcode, replies: Seq<Reply>, stage: Stage) -> nat
    decreases replies.len(),
{
    if replies.len() == 0 {
        0
    } else {
        meant_for(start, replies.drop_last(), stage) + (if stage.gets(
            run(start, replies.drop_last()),
            replies.last(),
        ) {
            1nat
        } else {
            0
        })
    }
}

proof fn lemma_served(reencode: bool, replies: Seq<Reply>, stage: Stage)
    requires
        replies.len() < i64::MAX,
    ensures
        ({
            let start = Transcode::fresh(reencode);
            let end = run(start, replies);
            !(end.task is Failed) ==> served(history(start, replies), stage)
                + crate::transcode_steps::as_int(stage.awaits(end)) == meant_for(
                start,
                replies,
                stage,
            )
        }),
    decreases replies.len(),
{
    let start = Transcode::fresh(reencode);
    if replies.len() > 0 {
        let s = run(start, replies.drop_last());
        let h = history(start, replies.drop_last());
        lemma_served(reencode, replies.drop_last(), stage);
        lemma_run(reencode, replies.drop_last());
        lemma_run(reencode, replies);
        crate::transcode_steps::lemma_carried(s, replies.last(), stage);
        assert(h.push(s.task).drop_last() =~= h);
    }
}

/// A finished job has handed on everything that was given to it: each packet
/// of the video stream to the decoder, each decoded frame to the graph, each
/// encoded packet to the muxer, and likewise for audio that is encoded again.
pub proof fn law_every_stage_is_served(reencode: bool, replies: Seq<Reply>, stage: Stage)
    requires
        replies.len() < i64::MAX,
    ensures
        ({
            let start = Transcode::fresh(reencode);
            run(start, replies).task is Finished ==> served(history(start, replies), stage)
                == meant_for(start, replies, stage)
        }),
{
    lemma_served(reencode, replies, stage);
}

} // verus!
