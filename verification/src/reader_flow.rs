//! How packets and frames move through a reader: which packets reach the
//! decoder, which frames reach the graph, and what never changes.
use crate::media::{Failure, Rational, VideoPick};
use crate::reader::{FrameTime, ReaderReply, ReaderState, ReaderTask};
use crate::reader_laws::ReaderEvent;
use vstd::prelude::*;

verus! {

/// The streams of the packets that were read, one after the other.
pub open spec fn packets_read(start: ReaderState, events: Seq<ReaderEvent>) -> Seq<usize>
    decreases events.len(),
{
    if events.len() == 0 {
        Seq::empty()
    } else {
        let earlier = packets_read(start, events.drop_last());
        match events.last() {
            ReaderEvent::Reply(ReaderReply::Packet(i)) => if crate::reader_laws::track(
                start,
                events.drop_last(),
            ).task is Read {
                earlier.push(i)
            } else {
                earlier
            },
            _ => earlier,
        }
    }
}

/// The streams of the packets that were read and then sent to the decoder, one
/// after the other.
pub open spec fn packets_sent(start: ReaderState, events: Seq<ReaderEvent>) -> Seq<usize>
    decreases events.len(),
{
    if events.len() == 0 {
        Seq::empty()
    } else {
        let earlier = packets_sent(start, events.drop_last());
        match events.last() {
            ReaderEvent::Reply(ReaderReply::Packet(i)) => if crate::reader_laws::track(
                start,
                events.drop_last(),
            ).task is Read && crate::reader_laws::track(start, events).task is SendPacket {
                earlier.push(i)
            } else {
                earlier
            },
            _ => earlier,
        }
    }
}

/// Those of these packets that belong to one stream.
pub open spec fn of_stream(packets: Seq<usize>, stream: usize) -> Seq<usize>
    decreases packets.len(),
{
    if packets.len() == 0 {
        Seq::empty()
    } else {
        let earlier = of_stream(packets.drop_last(), stream);
        if packets.last() == stream {
            earlier.push(stream)
        } else {
            earlier
        }
    }
}

/// Whatever happens to a reader, its stream, the ticks of that stream, its
/// frame rate, and whether it has a graph stay what they were.
pub proof fn law_reader_keeps_its_stream(start: ReaderState, events: Seq<ReaderEvent>)
    ensures
        ({
            let s = crate::reader_laws::track(start, events);
            &&& s.stream_index == start.stream_index
            &&& s.time_base == start.time_base
            &&& s.frame_rate == start.frame_rate
            &&& s.filtering == start.filtering
        }),
    decreases events.len(),
{
    if events.len() > 0 {
        law_reader_keeps_its_stream(start, events.drop_last());
    }
}

/// A reader reads the stream that was picked, in the ticks of that stream, and
/// at its rate, or at thirty frames a second where that has a part that is not
/// positive; it stays so whatever happens.
pub proof fn law_reader_reads_the_picked_stream(
    filtering: bool,
    pick: VideoPick,
    events: Seq<ReaderEvent>,
)
    ensures
        ({
            let s = crate::reader_laws::track(ReaderState::opened(filtering, pick), events);
            &&& s.stream_index == pick.index
            &&& s.time_base == pick.time_base
            &&& s.filtering == filtering
            &&& pick.rate.num > 0 && pick.rate.den > 0 ==> s.frame_rate == pick.rate
            &&& !(pick.rate.num > 0 && pick.rate.den > 0) ==> s.frame_rate == (Rational {
                num: 30,
                den: 1,
            })
        }),
{
    law_reader_keeps_its_stream(ReaderState::opened(filtering, pick), events);
}

/// Over any run, the packets that are sent to the decoder are exactly those
/// that were read of the stream of the reader, in the same order.
pub proof fn law_packets_of_the_stream_are_sent(start: ReaderState, events: Seq<ReaderEvent>)
    ensures
        packets_sent(start, events) == of_stream(packets_read(start, events), start.stream_index),
    decreases events.len(),
{
    if events.len() > 0 {
        let earlier = events.drop_last();
        law_packets_of_the_stream_are_sent(start, earlier);
        law_reader_keeps_its_stream(start, earlier);
        let before = packets_read(start, earlier);
        match events.last() {
            ReaderEvent::Reply(ReaderReply::Packet(i)) => {
                assert(before.push(i).drop_last() =~= before);
            },
            _ => {},
        }
    }
}

/// A packet is sent exactly where it is of the stream of the reader, and only
/// right after it was read; one of any other stream leads back to looking for
/// a frame, and nothing is remembered of it.
pub proof fn law_packet_is_sent_if_and_only_if_it_is_of_the_stream(s: ReaderState, r: ReaderReply)
    ensures
        s.task is Read ==> (r matches ReaderReply::Packet(i) ==> {
            let next = s.after(r);
            &&& next.task is SendPacket <==> i == s.stream_index
            &&& i != s.stream_index ==> next.task == (if s.filtering && s.graph_ready {
                ReaderTask::Pull
            } else {
                ReaderTask::Decode
            })
            &&& next == (ReaderState { task: next.task, ..s })
        }),
        s.after(r).task is SendPacket ==> s.task is Read && r == ReaderReply::Packet(
            s.stream_index,
        ),
{
}

/// Whether this is an answer to that task, and not one that tells of a failure.
pub open spec fn fits(task: ReaderTask, r: ReaderReply) -> bool {
    match task {
        ReaderTask::Pull => r is Nothing || (r is Filtered && r->Filtered_1.stride >= 3
            * r->Filtered_1.width),
        ReaderTask::Decode => r is Decoded || r is Nothing,
        ReaderTask::Scale => r is Scaled && r->Scaled_0.stride >= 3 * r->Scaled_0.width,
        ReaderTask::Read => r is Packet || r is End,
        ReaderTask::Ended(_) | ReaderTask::Failed(_) => true,
        _ => r is Done,
    }
}

/// A call fails exactly where one of the media libraries failed or where the
/// answer is none to the task, a frame whose rows do not hold their pixels
/// included, and tells which of the two it was; nothing else changes. A call
/// that is over stays as it is.
pub proof fn law_reader_fails_only_for_a_reason(s: ReaderState, r: ReaderReply)
    ensures
        ({
            let next = s.after(r);
            let over = s.task is Ended || s.task is Failed;
            &&& over ==> next == s
            &&& !over && r is Failed ==> next.task == ReaderTask::Failed(Failure::Engine)
            &&& !over && !(r is Failed) && !fits(s.task, r) ==> next.task == ReaderTask::Failed(
                Failure::Protocol,
            )
            &&& !over && fits(s.task, r) ==> !(next.task is Failed)
            &&& !over && next.task is Failed ==> next == (ReaderState { task: next.task, ..s })
        }),
{
}

/// How many frames the decoder gave.
pub open spec fn frames_decoded(start: ReaderState, events: Seq<ReaderEvent>) -> nat
    decreases events.len(),
{
    if events.len() == 0 {
        0
    } else {
        let s = crate::reader_laws::track(start, events.drop_last());
        frames_decoded(start, events.drop_last()) + (if s.task is Decode && (
        events.last() matches ReaderEvent::Reply(r) && r is Decoded) {
            1nat
        } else {
            0
        })
    }
}

/// How many times the graph was fed.
pub open spec fn frames_fed(start: ReaderState, events: Seq<ReaderEvent>) -> nat
    decreases events.len(),
{
    if events.len() == 0 {
        0
    } else {
        let s = crate::reader_laws::track(start, events.drop_last());
        frames_fed(start, events.drop_last()) + (if s.task is Feed && events.last()
            == ReaderEvent::Reply(ReaderReply::Done) {
            1nat
        } else {
            0
        })
    }
}

/// With a graph, every frame that is decoded is fed to it, each once: at the
/// end of a call as many frames were fed as decoded.
pub proof fn law_decoded_frames_are_fed_to_the_graph(
    start: ReaderState,
    events: Seq<ReaderEvent>,
)
    requires
        start.filtering,
        start.task is Ended,
        crate::reader_laws::orderly(start, events),
        !(crate::reader_laws::track(start, events).task is Failed),
    ensures
        ({
            let s = crate::reader_laws::track(start, events);
            let pending: nat = if s.task is BuildGraph || s.task is Feed {
                1
            } else {
                0
            };
            &&& frames_decoded(start, events) == frames_fed(start, events) + pending
            &&& !(s.task is OpenScaler || s.task is Scale)
        }),
    decreases events.len(),
{
    if events.len() > 0 {
        let s = crate::reader_laws::track(start, events.drop_last());
        assert(!(s.task is Failed));
        law_reader_keeps_its_stream(start, events.drop_last());
        law_decoded_frames_are_fed_to_the_graph(start, events.drop_last());
    }
}

/// The end of the file is told to the decoder when it was found, and to the
/// graph when the decoder has nothing left; a packet is read only where the
/// decoder had nothing to give and knows of no end. A graph is built for the
/// first frame, and a scaler for the first frame without a graph, each once
/// until the next seek.
pub proof fn law_reader_asks_for_what_it_needs(s: ReaderState, r: ReaderReply)
    ensures
        ({
            let next = s.after(r);
            let looking = if s.filtering && s.graph_ready {
                ReaderTask::Pull
            } else {
                ReaderTask::Decode
            };
            &&& s.task is Pull && r is Nothing ==> next.task is Decode
            &&& s.task is Decode && r is Nothing && !s.eof_sent ==> next.task is Read
            &&& s.task is Decode && r is Nothing && s.eof_sent && s.filtering && s.graph_ready
                && !s.filter_flushed ==> next.task is Flush && next.filter_flushed
            &&& s.task is Decode && r is Nothing && s.eof_sent && (!s.filtering || !s.graph_ready
                || s.filter_flushed) ==> next.task == ReaderTask::Ended(false) && !next.has_frame
            &&& s.task is Decode && r is Decoded && s.filtering ==> next.task == (
            if s.graph_ready {
                ReaderTask::Feed
            } else {
                ReaderTask::BuildGraph
            })
            &&& s.task is Read && r is End ==> next.task is SendEof
            &&& s.task is SendEof && r is Done ==> next.eof_sent && next.task == looking
            &&& s.task is SendPacket && r is Done ==> next.task == looking
            &&& s.task is Feed && r is Done ==> next.task == looking
            &&& s.task is Flush && r is Done ==> next.task == looking
            &&& s.task is BuildGraph && r is Done ==> next.task is Feed && next.graph_ready
            &&& s.task is OpenScaler && r is Done ==> next.task is Scale && next.scaler_ready
            &&& !(s.task is SendEof && r is Done) ==> next.eof_sent == s.eof_sent
            &&& !(s.task is BuildGraph && r is Done) ==> next.graph_ready == s.graph_ready
            &&& !(s.task is OpenScaler && r is Done) ==> next.scaler_ready == s.scaler_ready
        }),
        s.top().task == (if s.filtering && s.graph_ready {
            ReaderTask::Pull
        } else {
            ReaderTask::Decode
        }),
        s.top() == (ReaderState { task: s.top().task, ..s }),
{
}

/// The frame that is offered becomes the current one, with its own timestamp
/// and ticks: those of the graph for one of the graph, those of the stream for
/// one of the decoder. What is shown has the shape that it was made with.
pub proof fn law_current_frame_has_its_own_time(s: ReaderState, r: ReaderReply)
    ensures
        ({
            let next = s.after(r);
            &&& s.task is Pull ==> (r matches ReaderReply::Filtered(frame, shape) ==> (
            shape.stride >= 3 * shape.width ==> {
                &&& next.cur_pts == frame.pts
                &&& next.cur_tb == frame.time_base
                &&& next.shape == Some(shape)
            }))
            &&& s.task is Decode && !s.filtering ==> (r matches ReaderReply::Decoded(pts) ==> {
                &&& next.cur_pts == pts
                &&& next.cur_tb == s.time_base
            })
            &&& s.task is Scale ==> (r matches ReaderReply::Scaled(shape) ==> (shape.stride >= 3
                * shape.width ==> {
                &&& next.shape == Some(shape)
                &&& next.has_frame
                &&& next.task == ReaderTask::Ended(true)
            }))
            &&& crate::reader_laws::frame_of(s, r) is None ==> next.cur_pts == s.cur_pts
                && next.cur_tb == s.cur_tb && next.skip_until == s.skip_until
        }),
{
}

/// Without a target every frame is shown. With one, a frame whose ticks are as
/// long as those of the target is shown exactly if its timestamp is no less;
/// with other ticks, if the time that it stands for is no less; and a frame
/// without a timestamp stands for the earliest one. A frame that is passed over
/// leaves the target, one that is shown spends it.
pub proof fn law_frame_is_shown_from_the_target_on(
    s: ReaderState,
    frame: FrameTime,
    target: i64,
)
    ensures
        s.skip_until is None ==> s.shows(frame),
        s.skip_until == Some(target) ==> {
            let pts: i64 = if frame.pts is Some {
                frame.pts->0
            } else {
                -0x8000_0000_0000_0000i64
            };
            &&& frame.time_base == s.time_base ==> (s.shows(frame) <==> pts >= target)
            &&& frame.time_base != s.time_base ==> (s.shows(frame) <==> pts * frame.time_base.num
                * s.time_base.den >= target * s.time_base.num * frame.time_base.den)
        },
        s.shows(frame) ==> s.offered(frame).skip_until is None,
        !s.shows(frame) ==> s.offered(frame).skip_until == s.skip_until,
        s.task is Pull && s.shows(frame) ==> forall|shape: crate::reader::FrameShape|
            shape.stride >= 3 * shape.width ==> (#[trigger] s.after(
                ReaderReply::Filtered(frame, shape),
            )).task == ReaderTask::Ended(true),
        s.task is Pull && !s.shows(frame) ==> forall|shape: crate::reader::FrameShape|
            shape.stride >= 3 * shape.width ==> !((#[trigger] s.after(
                ReaderReply::Filtered(frame, shape),
            )).task is Ended),
        s.task is Decode && !s.filtering && frame.time_base == s.time_base ==> {
            let next = s.after(ReaderReply::Decoded(frame.pts));
            &&& s.shows(frame) && s.scaler_ready ==> next.task is Scale
            &&& s.shows(frame) && !s.scaler_ready ==> next.task is OpenScaler
            &&& !s.shows(frame) ==> next.task is Decode
        },
{
}

/// A seek sets the target, where the ticks of the stream have a positive
/// length, and forgets the end, the graph, the current frame and its time; the
/// scaler and the stream stay.
pub proof fn law_seek_starts_over(s: ReaderState, target: i64)
    ensures
        ({
            let next = s.sought(target);
            &&& s.time_base.num > 0 ==> next.skip_until == Some(target)
            &&& s.time_base.num <= 0 ==> next.skip_until is None
            &&& !next.eof_sent && !next.has_frame && !next.filter_flushed && !next.graph_ready
            &&& next.cur_pts is None
            &&& next.cur_tb == s.time_base
            &&& next.scaler_ready == s.scaler_ready
            &&& next.shape == s.shape
            &&& next.task == s.task
            &&& next.stream_index == s.stream_index && next.time_base == s.time_base
            &&& next.frame_rate == s.frame_rate && next.filtering == s.filtering
        }),
{
}

/// A reader that was just opened knows of no end, has neither graph nor scaler,
/// and has no frame.
pub proof fn law_reader_opens_empty(filtering: bool, pick: VideoPick)
    ensures
        ({
            let s = ReaderState::opened(filtering, pick);
            &&& s.task is Ended
            &&& !s.eof_sent && !s.has_frame && !s.filter_flushed
            &&& !s.graph_ready && !s.scaler_ready
            &&& s.cur_pts is None && s.skip_until is None && s.shape is None
            &&& s.cur_tb == pick.time_base
        }),
{
}

/// The rows of every frame that a reader has made hold their pixels, of three
/// bytes each, whatever happened since it was opened.
pub proof fn law_rows_hold_their_pixels(
    filtering: bool,
    pick: VideoPick,
    events: Seq<ReaderEvent>,
)
    ensures
        crate::reader_laws::track(
            ReaderState::opened(filtering, pick),
            events,
        ).shape matches Some(shape) ==> shape.stride >= 3 * shape.width,
    decreases events.len(),
{
    if events.len() > 0 {
        law_rows_hold_their_pixels(filtering, pick, events.drop_last());
    }
}

/// A reader is sound exactly if the rows of its frame, where it has made one,
/// hold their pixels, and well formed if it also goes through a graph exactly
/// where there is a text for one.
pub proof fn law_sound_reader(r: crate::reader::VideoReader)
    ensures
        r.state.sound() <==> (r.state.shape is None || r.state.shape->0.stride >= 3
            * r.state.shape->0.width),
        r.wf() <==> r.state.sound() && (r.state.filtering <==> r.filter_spec@.len() > 0),
{
}

} // verus!
