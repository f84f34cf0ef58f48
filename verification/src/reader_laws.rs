//! What holds of every call that reads a frame, whatever the media libraries
//! answer, and of many calls one after the other.
use crate::media::Rational;
use crate::reader::{FrameTime, ReaderReply, ReaderState, ReaderTask};
use vstd::prelude::*;

verus! {

/// The state of a reader after its tasks were answered with `replies`.
pub open spec fn run(start: ReaderState, replies: Seq<ReaderReply>) -> ReaderState
    decreases replies.len(),
{
    if replies.len() == 0 {
        start
    } else {
        run(start, replies.drop_last()).after(replies.last())
    }
}

/// The finished frame that an answer offers to the caller, where it does: one
/// of the graph where frames go through one, else one of the decoder.
pub open spec fn frame_of(s: ReaderState, r: ReaderReply) -> Option<FrameTime> {
    match (s.task, r) {
        (ReaderTask::Pull, ReaderReply::Filtered(frame, _)) => Some(frame),
        (ReaderTask::Decode, ReaderReply::Decoded(pts)) => if s.filtering {
            None
        } else {
            Some(s.decoded(pts))
        },
        _ => None,
    }
}

/// `frames`, and then the frame that follows them, where there is one.
pub open spec fn extended(frames: Seq<FrameTime>, frame: Option<FrameTime>) -> Seq<FrameTime> {
    match frame {
        Some(f) => frames.push(f),
        None => frames,
    }
}

/// The finished frames that `replies` offered to the caller.
pub open spec fn offered(start: ReaderState, replies: Seq<ReaderReply>) -> Seq<FrameTime>
    decreases replies.len(),
{
    if replies.len() == 0 {
        Seq::empty()
    } else {
        extended(
            offered(start, replies.drop_last()),
            frame_of(run(start, replies.drop_last()), replies.last()),
        )
    }
}

/// Whether none of these frames reaches `target`, in ticks of `base`.
pub open spec fn all_short(frames: Seq<FrameTime>, target: Option<i64>, base: Rational) -> bool {
    forall|i: int|
        0 <= i < frames.len() ==> !crate::reader::reaches(#[trigger] frames[i], target, base)
}

/// Whether the last of these frames, and no other, reaches `target`, in ticks
/// of `base`.
pub open spec fn first_hit(frames: Seq<FrameTime>, target: Option<i64>, base: Rational) -> bool {
    frames.len() > 0 && all_short(frames.drop_last(), target, base) && crate::reader::reaches(
        frames.last(),
        target,
        base,
    )
}

/// The frame that was last offered to a reader.
pub open spec fn current(s: ReaderState) -> FrameTime {
    FrameTime { pts: s.cur_pts, time_base: s.cur_tb }
}

/// Whether a call is past the frame that it will show.
spec fn has_chosen(task: ReaderTask) -> bool {
    task is OpenScaler || task is Scale || task == ReaderTask::Ended(true)
}

spec fn holds(start: ReaderState, s: ReaderState, frames: Seq<FrameTime>) -> bool {
    &&& s.filtering == start.filtering
    &&& s.time_base == start.time_base
    &&& has_chosen(s.task) ==> first_hit(frames, start.skip_until, start.time_base) && current(s)
        == frames.last() && s.skip_until is None
    &&& !has_chosen(s.task) && !(s.task is Failed) ==> all_short(
        frames,
        start.skip_until,
        start.time_base,
    ) && s.skip_until == start.skip_until
    &&& !has_chosen(s.task) && !(s.task is Failed) && frames.len() > 0 ==> current(s)
        == frames.last()
    &&& frames.len() == 0 ==> current(s) == current(start)
    &&& s.task == ReaderTask::Ended(true) ==> s.has_frame && s.shape is Some
    &&& s.task == ReaderTask::Ended(false) ==> !s.has_frame && s.eof_sent && (s.filtering
        ==> s.filter_flushed)
    &&& s.task is OpenScaler || s.task is Scale ==> !s.filtering
}

proof fn lemma_step(start: ReaderState, s: ReaderState, frames: Seq<FrameTime>, r: ReaderReply)
    requires
        holds(start, s, frames),
    ensures
        holds(start, s.after(r), extended(frames, frame_of(s, r))),
{
    assert forall|frame: FrameTime| #![trigger frames.push(frame)] frames.push(frame).drop_last()
        == frames by {
        assert(frames.push(frame).drop_last() =~= frames);
    }
}

proof fn lemma_run(start: ReaderState, replies: Seq<ReaderReply>)
    ensures
        holds(start, run(start.top(), replies), offered(start.top(), replies)),
    decreases replies.len(),
{
    if replies.len() > 0 {
        lemma_run(start, replies.drop_last());
        lemma_step(
            start,
            run(start.top(), replies.drop_last()),
            offered(start.top(), replies.drop_last()),
            replies.last(),
        );
    }
}

/// A frame and a target are compared as the times that they stand for: where
/// both are counted in ticks of positive length, a frame is no earlier than a
/// target exactly if `pts * num / den` of the one is at least that of the
/// other, as fractions.
pub proof fn law_times_are_compared_in_one_unit(frame: FrameTime, target: i64, base: Rational)
    requires
        base.is_positive(),
        frame.time_base.is_positive(),
    ensures
        frame.not_before(target, base) <==> crate::reader::pts_key(frame.pts)
            * frame.time_base.num * base.den >= target * base.num * frame.time_base.den,
{
    if frame.time_base == base {
        let p = crate::reader::pts_key(frame.pts) as int;
        let t = target as int;
        let n = base.num as int;
        let d = base.den as int;
        assert(p >= t <==> p * n * d >= t * n * d) by (nonlinear_arith)
            requires
                n > 0,
                d > 0,
        ;
    }
}

/// A call that ends with a frame shows the first frame that reaches the
/// target of the last seek, and no frame before it: every frame that was
/// offered earlier falls short of the target. So it is with a graph as
/// without. The target is then spent, so that the next call shows the very
/// next frame.
pub proof fn law_seek_is_precise(start: ReaderState, replies: Seq<ReaderReply>)
    ensures
        ({
            let end = run(start.top(), replies);
            let frames = offered(start.top(), replies);
            end.task == ReaderTask::Ended(true) ==> {
                &&& first_hit(frames, start.skip_until, start.time_base)
                &&& current(end) == frames.last()
                &&& end.skip_until is None
                &&& end.has_frame
            }
        }),
{
    lemma_run(start, replies);
}

/// Whether timestamps never go back.
pub open spec fn in_order(stamps: Seq<i64>) -> bool {
    forall|i: int, j: int| 0 <= i <= j < stamps.len() ==> stamps[i] <= stamps[j]
}

/// Whether the frames that were decoded are the first ones with these
/// timestamps, in ticks of `base`.
pub open spec fn decoded_from(frames: Seq<FrameTime>, stamps: Seq<i64>, base: Rational) -> bool {
    &&& frames.len() <= stamps.len()
    &&& forall|i: int|
        0 <= i < frames.len() ==> #[trigger] frames[i] == (FrameTime {
            pts: Some(stamps[i]),
            time_base: base,
        })
}

/// After a seek without a graph, where the input was moved to a frame before
/// which everything is earlier than the target, and frames are decoded in the
/// order of their times from there on: the frame that the next call shows has
/// the least timestamp of the whole stream that is at or after the target.
/// Where the call has seen all frames and shows none, there is no such frame.
pub proof fn law_seek_shows_the_least_frame(
    reader: ReaderState,
    target: i64,
    passed: Seq<i64>,
    ahead: Seq<i64>,
    replies: Seq<ReaderReply>,
)
    requires
        !reader.filtering,
        reader.time_base.num > 0,
        forall|i: int| 0 <= i < passed.len() ==> #[trigger] passed[i] < target,
        in_order(ahead),
        decoded_from(offered(reader.sought(target).top(), replies), ahead, reader.time_base),
    ensures
        ({
            let end = run(reader.sought(target).top(), replies);
            let stream = passed + ahead;
            &&& end.task == ReaderTask::Ended(true) ==> {
                &&& end.cur_pts matches Some(p)
                &&& p >= target
                &&& stream.contains(p)
                &&& forall|i: int|
                    0 <= i < stream.len() && #[trigger] stream[i] >= target ==> p <= stream[i]
            }
            &&& end.task == ReaderTask::Ended(false) && offered(
                reader.sought(target).top(),
                replies,
            ).len() == ahead.len() ==> forall|i: int|
                0 <= i < stream.len() ==> #[trigger] stream[i] < target
        }),
{
    let start = reader.sought(target);
    let end = run(start.top(), replies);
    let frames = offered(start.top(), replies);
    let stream = passed + ahead;
    let n = passed.len() as int;
    lemma_run(start, replies);
    assert forall|i: int| 0 <= i < stream.len() implies #[trigger] stream[i] == (if i < n {
        passed[i]
    } else {
        ahead[i - n]
    }) by {}
    if end.task == ReaderTask::Ended(true) {
        let k = frames.len() - 1;
        let p = ahead[k];
        assert(frames[k].pts == Some(p));
        assert(stream[n + k] == p);
        assert forall|i: int| 0 <= i < stream.len() && #[trigger] stream[i] >= target implies p
            <= stream[i] by {
            if n <= i < n + k {
                assert(!crate::reader::reaches(
                    frames.drop_last()[i - n],
                    start.skip_until,
                    start.time_base,
                ));
                assert(frames[i - n].pts == Some(ahead[i - n]));
            }
        }
    }
    if end.task == ReaderTask::Ended(false) && frames.len() == ahead.len() {
        assert forall|i: int| 0 <= i < stream.len() implies #[trigger] stream[i] < target by {
            if n <= i {
                assert(!crate::reader::reaches(
                    frames[i - n],
                    start.skip_until,
                    start.time_base,
                ));
            }
        }
    }
}

/// Without a target, a call shows the first frame that is offered to it.
pub proof fn law_reading_skips_nothing(start: ReaderState, replies: Seq<ReaderReply>)
    requires
        start.skip_until is None,
    ensures
        ({
            let end = run(start.top(), replies);
            let frames = offered(start.top(), replies);
            &&& end.task == ReaderTask::Ended(true) ==> frames.len() == 1 && current(end)
                == frames[0]
            &&& end.task == ReaderTask::Ended(false) ==> frames.len() == 0
        }),
{
    lemma_run(start, replies);
    let frames = offered(start.top(), replies);
    if frames.len() > 1 {
        assert(crate::reader::reaches(
            frames.drop_last()[0],
            start.skip_until,
            start.time_base,
        ));
    }
    if frames.len() > 0 {
        assert(crate::reader::reaches(frames[0], start.skip_until, start.time_base));
    }
}

/// A call that ends without a frame has drained the decoder, and the graph
/// where there is one, of everything they hold; each frame that was offered
/// on the way falls short of the target. There is then nothing to borrow.
pub proof fn law_end_is_drained(start: ReaderState, replies: Seq<ReaderReply>)
    ensures
        ({
            let end = run(start.top(), replies);
            end.task == ReaderTask::Ended(false) ==> {
                &&& end.eof_sent
                &&& end.filtering ==> end.filter_flushed
                &&& all_short(
                    offered(start.top(), replies),
                    start.skip_until,
                    start.time_base,
                )
                &&& !end.has_frame
            }
        }),
{
    lemma_run(start, replies);
}

/// After a seek, whatever went before it is forgotten: what a call then does
/// depends only on the target, the stream, and whether there is a scaler.
pub proof fn law_seek_forgets(a: ReaderState, b: ReaderState, target: i64)
    requires
        a.filtering == b.filtering,
        a.stream_index == b.stream_index,
        a.time_base == b.time_base,
        a.frame_rate == b.frame_rate,
        a.scaler_ready == b.scaler_ready,
        a.shape == b.shape,
    ensures
        a.sought(target).top() == b.sought(target).top(),
        a.time_base.num > 0 ==> a.sought(target).skip_until == Some(target),
        a.sought(target).sought(target) == a.sought(target),
{
}

/// What happens to a reader.
pub enum ReaderEvent {
    /// A call that reads the next frame begins.
    Next,
    /// The input was moved, to read on from that target.
    Seek(i64),
    /// Its task was answered.
    Reply(ReaderReply),
}

/// The reader after an event.
pub open spec fn happened(s: ReaderState, e: ReaderEvent) -> ReaderState {
    match e {
        ReaderEvent::Next => s.top(),
        ReaderEvent::Seek(target) => s.sought(target),
        ReaderEvent::Reply(r) => s.after(r),
    }
}

/// The reader after these events.
pub open spec fn track(start: ReaderState, events: Seq<ReaderEvent>) -> ReaderState
    decreases events.len(),
{
    if events.len() == 0 {
        start
    } else {
        happened(track(start, events.drop_last()), events.last())
    }
}

/// Whether each call, and each seek, began when the call before it had ended,
/// without error.
pub open spec fn orderly(start: ReaderState, events: Seq<ReaderEvent>) -> bool
    decreases events.len(),
{
    events.len() > 0 ==> orderly(start, events.drop_last()) && (events.last() is Reply || track(
        start,
        events.drop_last(),
    ).task is Ended)
}

/// The target of the last seek, in ticks of the stream, where there is one.
pub open spec fn target(start: ReaderState, events: Seq<ReaderEvent>) -> Option<i64>
    decreases events.len(),
{
    if events.len() == 0 {
        None
    } else {
        match events.last() {
            ReaderEvent::Seek(t) => if start.time_base.num > 0 {
                Some(t)
            } else {
                None
            },
            _ => target(start, events.drop_last()),
        }
    }
}

/// The finished frames that were offered since the last seek.
pub open spec fn all_offered(start: ReaderState, events: Seq<ReaderEvent>) -> Seq<FrameTime>
    decreases events.len(),
{
    if events.len() == 0 {
        Seq::empty()
    } else {
        let earlier = all_offered(start, events.drop_last());
        match events.last() {
            ReaderEvent::Next => earlier,
            ReaderEvent::Seek(_) => Seq::empty(),
            ReaderEvent::Reply(r) => extended(
                earlier,
                frame_of(track(start, events.drop_last()), r),
            ),
        }
    }
}

/// These frames from the first one on that reaches `target`, in ticks of
/// `base`; all of them without a target.
pub open spec fn from_target(
    frames: Seq<FrameTime>,
    target: Option<i64>,
    base: Rational,
) -> Seq<FrameTime>
    decreases frames.len(),
{
    if frames.len() == 0 {
        Seq::empty()
    } else {
        let earlier = from_target(frames.drop_last(), target, base);
        if earlier.len() > 0 || crate::reader::reaches(frames.last(), target, base) {
            earlier.push(frames.last())
        } else {
            earlier
        }
    }
}

/// The frames that are due since the last seek: those that were offered, from
/// the first one on that reaches its target.
pub open spec fn due(start: ReaderState, events: Seq<ReaderEvent>) -> Seq<FrameTime> {
    from_target(all_offered(start, events), target(start, events), start.time_base)
}

/// Without a target every frame is due.
pub proof fn law_all_frames_are_due_without_a_target(frames: Seq<FrameTime>, base: Rational)
    ensures
        from_target(frames, None, base) == frames,
    decreases frames.len(),
{
    if frames.len() > 0 {
        law_all_frames_are_due_without_a_target(frames.drop_last(), base);
        assert(frames.drop_last().push(frames.last()) =~= frames);
    }
}

/// How the calls since the last seek ended, one after the other: with the
/// frame that is then shown, or without one.
pub open spec fn ends(start: ReaderState, events: Seq<ReaderEvent>) -> Seq<Option<FrameTime>>
    decreases events.len(),
{
    if events.len() == 0 {
        Seq::empty()
    } else {
        let before = track(start, events.drop_last());
        let after = track(start, events);
        let earlier = ends(start, events.drop_last());
        match (events.last(), before.task, after.task) {
            (ReaderEvent::Seek(_), _, _) => Seq::empty(),
            (_, ReaderTask::Ended(_), _) => earlier,
            (_, _, ReaderTask::Ended(true)) => earlier.push(Some(current(after))),
            (_, _, ReaderTask::Ended(false)) => earlier.push(None),
            _ => earlier,
        }
    }
}

/// The frames that calls showed.
pub open spec fn shown(ends: Seq<Option<FrameTime>>) -> Seq<FrameTime>
    decreases ends.len(),
{
    if ends.len() == 0 {
        Seq::empty()
    } else {
        extended(shown(ends.drop_last()), ends.last())
    }
}

/// A reader that was just opened.
pub open spec fn newly_opened(s: ReaderState) -> bool {
    s.task == ReaderTask::Ended(false) && s.skip_until is None && !s.eof_sent && !s.has_frame
        && s.cur_pts is None && !s.graph_ready && !s.filter_flushed
}

/// Whether a call has chosen its frame and has yet to show it.
spec fn is_scaling(s: ReaderState) -> bool {
    s.task is OpenScaler || s.task is Scale
}

/// What is left of the target: it is spent once a frame is due.
spec fn aimed(s: ReaderState, start: ReaderState, events: Seq<ReaderEvent>) -> bool {
    &&& s.time_base == start.time_base
    &&& s.filtering == start.filtering
    &&& s.skip_until == (if due(start, events).len() > 0 {
        None
    } else {
        target(start, events)
    })
    &&& is_scaling(s) ==> !s.filtering
}

proof fn lemma_due(frames: Seq<FrameTime>, frame: FrameTime, target: Option<i64>, base: Rational)
    ensures
        ({
            let earlier = from_target(frames, target, base);
            from_target(frames.push(frame), target, base) == (if earlier.len() > 0
                || crate::reader::reaches(frame, target, base) {
                earlier.push(frame)
            } else {
                earlier
            })
        }),
{
    assert(frames.push(frame).drop_last() =~= frames);
}

/// How one event changes the frames that are due.
proof fn lemma_due_step(start: ReaderState, events: Seq<ReaderEvent>)
    requires
        events.len() > 0,
    ensures
        ({
            let s = track(start, events.drop_last());
            let earlier = due(start, events.drop_last());
            due(start, events) == (match events.last() {
                ReaderEvent::Next => earlier,
                ReaderEvent::Seek(_) => Seq::empty(),
                ReaderEvent::Reply(r) => match frame_of(s, r) {
                    Some(frame) => if earlier.len() > 0 || crate::reader::reaches(
                        frame,
                        target(start, events),
                        start.time_base,
                    ) {
                        earlier.push(frame)
                    } else {
                        earlier
                    },
                    None => earlier,
                },
            })
        }),
{
    let s = track(start, events.drop_last());
    match events.last() {
        ReaderEvent::Reply(r) => {
            if let Some(frame) = frame_of(s, r) {
                lemma_due(
                    all_offered(start, events.drop_last()),
                    frame,
                    target(start, events),
                    start.time_base,
                );
            }
        },
        _ => {},
    }
}

proof fn lemma_aimed(start: ReaderState, events: Seq<ReaderEvent>)
    requires
        newly_opened(start),
        orderly(start, events),
        track(start, events).task !is Failed,
    ensures
        aimed(track(start, events), start, events),
    decreases events.len(),
{
    if events.len() > 0 {
        let earlier = events.drop_last();
        assert(track(start, earlier).task !is Failed);
        lemma_aimed(start, earlier);
        lemma_due_step(start, events);
    }
}

spec fn in_turn(s: ReaderState, due: Seq<FrameTime>, shown: Seq<FrameTime>) -> bool {
    &&& is_scaling(s) ==> due == shown.push(current(s))
    &&& !is_scaling(s) ==> due == shown
}

proof fn lemma_in_turn(start: ReaderState, events: Seq<ReaderEvent>)
    requires
        newly_opened(start),
        orderly(start, events),
        track(start, events).task !is Failed,
    ensures
        in_turn(track(start, events), due(start, events), shown(ends(start, events))),
    decreases events.len(),
{
    if events.len() > 0 {
        let earlier = events.drop_last();
        let s = track(start, earlier);
        assert(s.task !is Failed);
        lemma_in_turn(start, earlier);
        lemma_aimed(start, earlier);
        lemma_due_step(start, events);
        let e = ends(start, earlier);
        assert(e.push(None).drop_last() =~= e);
        assert(e.push(Some(current(track(start, events)))).drop_last() =~= e);
    }
}

/// Since the last seek, and since the reader was opened where there was none,
/// calls show the frames that are due, with a graph as without one, in the
/// order in which they are offered, each once and none passed over.
pub proof fn law_calls_show_frames_in_order(start: ReaderState, events: Seq<ReaderEvent>)
    requires
        newly_opened(start),
        orderly(start, events),
        track(start, events).task is Ended,
    ensures
        shown(ends(start, events)) == due(start, events),
        target(start, events) is None ==> shown(ends(start, events)) == all_offered(start, events),
{
    lemma_in_turn(start, events);
    law_all_frames_are_due_without_a_target(all_offered(start, events), start.time_base);
}

/// Whether, since the last seek, the decoder was told of the end and then had
/// nothing to give, when the graph, where one was built, was told of the end
/// too.
pub open spec fn drained(start: ReaderState, events: Seq<ReaderEvent>) -> bool
    decreases events.len(),
{
    events.len() > 0 && match events.last() {
        ReaderEvent::Next => drained(start, events.drop_last()),
        ReaderEvent::Seek(_) => false,
        ReaderEvent::Reply(r) => {
            let s = track(start, events.drop_last());
            ||| drained(start, events.drop_last())
            ||| s.task is Decode && r is Nothing && s.eof_sent && (s.graph_ready
                ==> s.filter_flushed || !s.filtering)
        },
    }
}

/// Whether an event hands a frame over, be it of the decoder or of the graph.
pub open spec fn gives_frame(s: ReaderState, e: ReaderEvent) -> bool {
    match e {
        ReaderEvent::Reply(r) => {
            ||| s.task is Decode && r is Decoded
            ||| s.task is Pull && r is Filtered
        },
        _ => false,
    }
}

/// Whether decoder and graph gave no frame any more once they were drained.
pub open spec fn stays_drained(start: ReaderState, events: Seq<ReaderEvent>) -> bool
    decreases events.len(),
{
    events.len() > 0 ==> stays_drained(start, events.drop_last()) && (drained(
        start,
        events.drop_last(),
    ) ==> !gives_frame(track(start, events.drop_last()), events.last()))
}

spec fn exhaustive(
    s: ReaderState,
    due: Seq<FrameTime>,
    ends: Seq<Option<FrameTime>>,
    drained: bool,
) -> bool {
    &&& drained ==> {
        &&& s.eof_sent
        &&& s.filtering ==> s.filter_flushed
        &&& due.len() < ends.len()
        &&& s.task is Pull || s.task is Decode || s.task == ReaderTask::Ended(false)
    }
    &&& is_scaling(s) ==> due.len() == ends.len() + 1 && due.last() == current(s)
    &&& !is_scaling(s) && !drained ==> due.len() == ends.len()
    &&& s.task is Ended && ends.len() == 0 ==> !s.has_frame
    &&& s.task == ReaderTask::Ended(true) && ends.len() > 0 ==> s.has_frame && due.last()
        == current(s)
    &&& s.task == ReaderTask::Ended(false) ==> !s.has_frame && (!drained ==> ends.len() == 0)
    &&& forall|k: int|
        0 <= k < ends.len() ==> #[trigger] ends[k] == (if k < due.len() {
            Some(due[k])
        } else {
            None
        })
}

/// The frames that are due after an answer.
spec fn due_after(
    s: ReaderState,
    r: ReaderReply,
    due: Seq<FrameTime>,
    target: Option<i64>,
) -> Seq<FrameTime> {
    match frame_of(s, r) {
        Some(frame) => if due.len() > 0 || crate::reader::reaches(frame, target, s.time_base) {
            due.push(frame)
        } else {
            due
        },
        None => due,
    }
}

/// How the calls have ended after an answer.
spec fn ends_after(s: ReaderState, r: ReaderReply, ends: Seq<Option<FrameTime>>) -> Seq<
    Option<FrameTime>,
> {
    match (s.task, s.after(r).task) {
        (ReaderTask::Ended(_), _) => ends,
        (_, ReaderTask::Ended(true)) => ends.push(Some(current(s.after(r)))),
        (_, ReaderTask::Ended(false)) => ends.push(None),
        _ => ends,
    }
}

/// Whether decoder and graph are drained after an answer.
spec fn drained_after(s: ReaderState, r: ReaderReply, drained: bool) -> bool {
    drained || (s.task is Decode && r is Nothing && s.eof_sent && (s.graph_ready
        ==> s.filter_flushed || !s.filtering))
}

#[verifier::spinoff_prover]
proof fn lemma_exhaustive_offer(
    s: ReaderState,
    r: ReaderReply,
    due: Seq<FrameTime>,
    ends: Seq<Option<FrameTime>>,
    drained: bool,
    target: Option<i64>,
)
    requires
        exhaustive(s, due, ends, drained),
        s.task is Pull || s.task is Decode,
        s.after(r).task !is Failed,
        s.skip_until == (if due.len() > 0 {
            None
        } else {
            target
        }),
        drained ==> !gives_frame(s, ReaderEvent::Reply(r)),
    ensures
        exhaustive(
            s.after(r),
            due_after(s, r, due, target),
            ends_after(s, r, ends),
            drained_after(s, r, drained),
        ),
{
}

#[verifier::spinoff_prover]
proof fn lemma_exhaustive_rest(
    s: ReaderState,
    r: ReaderReply,
    due: Seq<FrameTime>,
    ends: Seq<Option<FrameTime>>,
    drained: bool,
    target: Option<i64>,
)
    requires
        exhaustive(s, due, ends, drained),
        !(s.task is Pull || s.task is Decode),
        s.after(r).task !is Failed,
    ensures
        exhaustive(
            s.after(r),
            due_after(s, r, due, target),
            ends_after(s, r, ends),
            drained_after(s, r, drained),
        ),
{
}

proof fn lemma_exhaustive(start: ReaderState, events: Seq<ReaderEvent>)
    requires
        newly_opened(start),
        orderly(start, events),
        stays_drained(start, events),
        track(start, events).task !is Failed,
    ensures
        exhaustive(
            track(start, events),
            due(start, events),
            ends(start, events),
            drained(start, events),
        ),
    decreases events.len(),
{
    if events.len() > 0 {
        let earlier = events.drop_last();
        let s = track(start, earlier);
        lemma_not_failed(s, events.last());
        lemma_exhaustive(start, earlier);
        lemma_aimed(start, earlier);
        lemma_due_step(start, events);
        if let ReaderEvent::Reply(r) = events.last() {
            let d = due(start, earlier);
            let e = ends(start, earlier);
            let t = target(start, events);
            if s.task is Pull || s.task is Decode {
                lemma_exhaustive_offer(s, r, d, e, drained(start, earlier), t);
            } else {
                lemma_exhaustive_rest(s, r, d, e, drained(start, earlier), t);
            }
            assert(due(start, events) == due_after(s, r, d, t));
            assert(ends(start, events) == ends_after(s, r, e));
            assert(drained(start, events) == drained_after(s, r, drained(start, earlier)));
        }
    }
}

/// A call that failed is not mended by an answer.
proof fn lemma_not_failed(s: ReaderState, e: ReaderEvent)
    requires
        happened(s, e).task !is Failed,
        !(e is Reply) ==> s.task is Ended,
    ensures
        s.task !is Failed,
{
}

/// Reading a file, with a graph or without one, from its beginning or from the
/// last seek on: where `D` are the frames that are due, those that decoder and
/// graph give only at the end of the file among them, call `k` shows the frame
/// `D[k]`, and every call after the last frame ends without one and leaves
/// nothing to borrow. Without a target `D` are all frames that are offered.
pub proof fn law_reading_is_exhaustive(start: ReaderState, events: Seq<ReaderEvent>)
    requires
        newly_opened(start),
        orderly(start, events),
        stays_drained(start, events),
        track(start, events).task is Ended,
    ensures
        ({
            let d = due(start, events);
            let calls = ends(start, events);
            let s = track(start, events);
            &&& d.len() <= calls.len()
            &&& forall|k: int|
                0 <= k < calls.len() ==> #[trigger] calls[k] == (if k < d.len() {
                    Some(d[k])
                } else {
                    None
                })
            &&& s.has_frame == (calls.len() > 0 && calls.last() is Some)
            &&& s.has_frame ==> calls.last() == Some(current(s))
            &&& target(start, events) is None ==> d == all_offered(start, events)
        }),
{
    lemma_exhaustive(start, events);
    law_all_frames_are_due_without_a_target(all_offered(start, events), start.time_base);
    let calls = ends(start, events);
    if calls.len() > 0 {
        assert(calls.last() == calls[calls.len() - 1]);
    }
}

/// Once decoder and graph are drained, and until a seek, a call that ends ends
/// without a frame.
pub proof fn law_no_frame_after_the_end(start: ReaderState, events: Seq<ReaderEvent>)
    requires
        newly_opened(start),
        orderly(start, events),
        stays_drained(start, events),
        drained(start, events),
        track(start, events).task is Ended,
    ensures
        track(start, events).task == ReaderTask::Ended(false),
        !track(start, events).has_frame,
        ends(start, events).len() > 0 && ends(start, events).last() is None,
{
    lemma_exhaustive(start, events);
}

/// A reader that was just opened has shown nothing, and its first call begins
/// without a target.
pub proof fn law_open_reader_is_new(filtering: bool, pick: crate::media::VideoPick)
    ensures
        newly_opened(ReaderState::opened(filtering, pick)),
{
}

/// How often `replies` answered that the graph was told of the end.
pub open spec fn flushes(start: ReaderState, replies: Seq<ReaderReply>) -> nat
    decreases replies.len(),
{
    if replies.len() == 0 {
        0
    } else {
        flushes(start, replies.drop_last()) + (if run(start, replies.drop_last()).task is Flush {
            1nat
        } else {
            0
        })
    }
}

proof fn lemma_flushes(start: ReaderState, replies: Seq<ReaderReply>)
    ensures
        ({
            let s = run(start.top(), replies);
            let pending: nat = if s.task is Flush {
                1
            } else {
                0
            };
            &&& start.filter_flushed ==> s.filter_flushed
            &&& flushes(start.top(), replies) + pending <= (if s.filter_flushed
                && !start.filter_flushed {
                1nat
            } else {
                0
            })
        }),
    decreases replies.len(),
{
    if replies.len() > 0 {
        lemma_flushes(start, replies.drop_last());
    }
}

/// Between two seeks the graph is told of the end once at most, however many
/// calls are made at the end of the stream.
pub proof fn law_graph_is_flushed_once(start: ReaderState, replies: Seq<ReaderReply>)
    ensures
        flushes(start.top(), replies) <= 1,
        start.filter_flushed ==> flushes(start.top(), replies) == 0,
        flushes(start.top(), replies) == 1 ==> run(start.top(), replies).filter_flushed,
{
    lemma_flushes(start, replies);
}

} // verus!
