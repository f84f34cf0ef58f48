//! What a tap collects, whatever the media libraries answer.
use crate::audio::{AudioBufView, PcmPlane, TapReply, TapState, TapTask};
use vstd::prelude::*;

verus! {

/// The state of a tap after its tasks were answered with `replies`.
pub open spec fn run(replies: Seq<TapReply>) -> TapState
    decreases replies.len(),
{
    if replies.len() == 0 {
        TapState::fresh()
    } else {
        run(replies.drop_last()).after(replies.last())
    }
}

/// The samples that a tap then holds.
pub open spec fn samples(fmt: i32, replies: Seq<TapReply>) -> AudioBufView
    decreases replies.len(),
{
    if replies.len() == 0 {
        AudioBufView::empty(fmt)
    } else {
        crate::audio::collected(
            run(replies.drop_last()),
            samples(fmt, replies.drop_last()),
            replies.last(),
        )
    }
}

/// The planes of the frames that the graph gave, in order.
pub open spec fn planes(replies: Seq<TapReply>) -> Seq<PcmPlane>
    decreases replies.len(),
{
    if replies.len() == 0 {
        Seq::empty()
    } else {
        match (run(replies.drop_last()).task, replies.last()) {
            (TapTask::Pull, TapReply::Frame(plane)) => planes(replies.drop_last()).push(plane),
            _ => planes(replies.drop_last()),
        }
    }
}

/// The 32-bit samples of these planes, one plane behind the other.
pub open spec fn singles_of(planes: Seq<PcmPlane>) -> Seq<u32>
    decreases planes.len(),
{
    if planes.len() == 0 {
        Seq::empty()
    } else if planes.last().samples == 0 {
        singles_of(planes.drop_last())
    } else {
        singles_of(planes.drop_last()) + planes.last().singles@
    }
}

/// The 64-bit samples of these planes, one plane behind the other.
pub open spec fn doubles_of(planes: Seq<PcmPlane>) -> Seq<u64>
    decreases planes.len(),
{
    if planes.len() == 0 {
        Seq::empty()
    } else if planes.last().samples == 0 {
        doubles_of(planes.drop_last())
    } else {
        doubles_of(planes.drop_last()) + planes.last().doubles@
    }
}

/// A tap holds the samples of every frame that the graph gave, in order and
/// without gaps, in the buffer of its format; the other buffer stays empty.
pub proof fn law_tap_collects_every_frame(fmt: i32, replies: Seq<TapReply>)
    requires
        fmt == crate::audio::CHUKS_FMT_SINGLE || fmt == crate::audio::CHUKS_FMT_DOUBLE,
    ensures
        samples(fmt, replies).fmt == fmt,
        fmt == crate::audio::CHUKS_FMT_DOUBLE ==> samples(fmt, replies).doubles == doubles_of(
            planes(replies),
        ) && samples(fmt, replies).singles == Seq::<u32>::empty(),
        fmt == crate::audio::CHUKS_FMT_SINGLE ==> samples(fmt, replies).singles == singles_of(
            planes(replies),
        ) && samples(fmt, replies).doubles == Seq::<u64>::empty(),
    decreases replies.len(),
{
    if replies.len() > 0 {
        let earlier = replies.drop_last();
        law_tap_collects_every_frame(fmt, earlier);
        match (run(earlier).task, replies.last()) {
            (TapTask::Pull, TapReply::Frame(plane)) => {
                assert(planes(earlier).push(plane).drop_last() =~= planes(earlier));
            },
            _ => {},
        }
    }
}

/// Whether two runs of frames match, the first with 32-bit and the second with
/// 64-bit samples: each frame counts as many samples as its counterpart, and
/// its plane holds as many values.
pub open spec fn same_lengths(a: Seq<PcmPlane>, b: Seq<PcmPlane>) -> bool {
    &&& a.len() == b.len()
    &&& forall|i: int|
        0 <= i < a.len() ==> (#[trigger] a[i]).samples == b[i].samples && a[i].singles@.len()
            == b[i].doubles@.len()
}

proof fn lemma_lengths_agree(a: Seq<PcmPlane>, b: Seq<PcmPlane>)
    requires
        same_lengths(a, b),
    ensures
        singles_of(a).len() == doubles_of(b).len(),
    decreases a.len(),
{
    if a.len() > 0 {
        assert(a[a.len() - 1].samples == b[b.len() - 1].samples);
        lemma_lengths_agree(a.drop_last(), b.drop_last());
    }
}

/// The length of a tap does not depend on its format: where the graph gives
/// frames of the same lengths, a tap of 32-bit samples and one of 64-bit
/// samples hold equally many.
pub proof fn law_length_is_the_same_in_both_formats(a: Seq<TapReply>, b: Seq<TapReply>)
    requires
        same_lengths(planes(a), planes(b)),
    ensures
        samples(crate::audio::CHUKS_FMT_SINGLE, a).count() == samples(
            crate::audio::CHUKS_FMT_DOUBLE,
            b,
        ).count(),
{
    law_tap_collects_every_frame(crate::audio::CHUKS_FMT_SINGLE, a);
    law_tap_collects_every_frame(crate::audio::CHUKS_FMT_DOUBLE, b);
    lemma_lengths_agree(planes(a), planes(b));
}

/// How many samples these planes count.
pub open spec fn total_samples(planes: Seq<PcmPlane>) -> nat
    decreases planes.len(),
{
    if planes.len() == 0 {
        0
    } else {
        total_samples(planes.drop_last()) + planes.last().samples as nat
    }
}

/// Whether each plane holds one value for each sample that it counts, in the
/// format of that code: so it is with packed mono.
pub open spec fn is_mono(planes: Seq<PcmPlane>, fmt: i32) -> bool {
    forall|i: int|
        0 <= i < planes.len() ==> (#[trigger] planes[i]).samples == (if fmt
            == crate::audio::CHUKS_FMT_DOUBLE {
            planes[i].doubles@.len()
        } else {
            planes[i].singles@.len()
        })
}

proof fn lemma_total(planes: Seq<PcmPlane>, fmt: i32)
    requires
        is_mono(planes, fmt),
    ensures
        fmt == crate::audio::CHUKS_FMT_DOUBLE ==> doubles_of(planes).len() == total_samples(
            planes,
        ),
        fmt != crate::audio::CHUKS_FMT_DOUBLE ==> singles_of(planes).len() == total_samples(
            planes,
        ),
    decreases planes.len(),
{
    if planes.len() > 0 {
        assert(planes.last() == planes[planes.len() - 1]);
        assert(is_mono(planes.drop_last(), fmt)) by {
            assert forall|i: int| 0 <= i < planes.drop_last().len() implies (
            #[trigger] planes.drop_last()[i]).samples == (if fmt
                == crate::audio::CHUKS_FMT_DOUBLE {
                planes.drop_last()[i].doubles@.len()
            } else {
                planes.drop_last()[i].singles@.len()
            }) by {
                assert(planes.drop_last()[i] == planes[i]);
            }
        }
        lemma_total(planes.drop_last(), fmt);
    }
}

/// A tap holds one value for each sample that the graph gave, in either
/// format: one for each instant of the output.
pub proof fn law_one_value_for_each_sample(fmt: i32, replies: Seq<TapReply>)
    requires
        fmt == crate::audio::CHUKS_FMT_SINGLE || fmt == crate::audio::CHUKS_FMT_DOUBLE,
        is_mono(planes(replies), fmt),
    ensures
        samples(fmt, replies).count() == total_samples(planes(replies)),
{
    law_tap_collects_every_frame(fmt, replies);
    lemma_total(planes(replies), fmt);
}

/// How often the decoder was sent a packet.
pub open spec fn packets_sent(replies: Seq<TapReply>) -> nat
    decreases replies.len(),
{
    if replies.len() == 0 {
        0
    } else {
        packets_sent(replies.drop_last()) + (if run(replies.drop_last()).task is SendPacket
            && replies.last() is Done {
            1nat
        } else {
            0
        })
    }
}

/// How many packets of the stream `index` were read.
pub open spec fn packets_read(replies: Seq<TapReply>, index: usize) -> nat
    decreases replies.len(),
{
    if replies.len() == 0 {
        0
    } else {
        packets_read(replies.drop_last(), index) + (if run(replies.drop_last()).task is Read
            && replies.last() == TapReply::Packet(index) {
            1nat
        } else {
            0
        })
    }
}

spec fn sent(replies: Seq<TapReply>) -> bool {
    let s = run(replies);
    &&& s.task is OpenInput || s.task is PickStream ==> packets_sent(replies) == 0 && forall|
        i: usize,
    | #[trigger]
        packets_read(replies, i) == 0
    &&& s.task !is Failed ==> packets_read(replies, s.stream_index) == packets_sent(replies) + (
    if s.task is SendPacket {
        1nat
    } else {
        0
    })
    &&& s.flushed ==> s.eof
    &&& s.task is Finished ==> s.flushed
    &&& s.task is Flush ==> s.eof
}

proof fn lemma_sent(replies: Seq<TapReply>)
    ensures
        sent(replies),
    decreases replies.len(),
{
    if replies.len() > 0 {
        let earlier = replies.drop_last();
        lemma_sent(earlier);
        let s = run(replies);
        if run(earlier).task is PickStream {
            assert(packets_read(earlier, s.stream_index) == 0);
        }
        assert forall|i: usize| s.task is PickStream implies #[trigger] packets_read(replies, i)
            == 0 by {
            assert(packets_read(earlier, i) == 0);
        }
    }
}

/// A finished tap has sent every packet of the chosen stream to the decoder,
/// and no other; it has then told the decoder and the graph of the end, and
/// has stopped only when the graph had no more to give.
pub proof fn law_finished_tap_is_drained(replies: Seq<TapReply>)
    ensures
        ({
            let s = run(replies);
            s.task is Finished ==> {
                &&& s.eof
                &&& s.flushed
                &&& packets_sent(replies) == packets_read(replies, s.stream_index)
            }
        }),
{
    lemma_sent(replies);
}

/// How many frames the decoder gave.
pub open spec fn frames_decoded(replies: Seq<TapReply>) -> nat
    decreases replies.len(),
{
    if replies.len() == 0 {
        0
    } else {
        frames_decoded(replies.drop_last()) + (if run(replies.drop_last()).task is Receive
            && replies.last() == TapReply::Got(true) {
            1nat
        } else {
            0
        })
    }
}

/// How many frames were fed to the graph.
pub open spec fn frames_fed(replies: Seq<TapReply>) -> nat
    decreases replies.len(),
{
    if replies.len() == 0 {
        0
    } else {
        frames_fed(replies.drop_last()) + (if run(replies.drop_last()).task is Feed
            && replies.last() is Done {
            1nat
        } else {
            0
        })
    }
}

proof fn lemma_fed(replies: Seq<TapReply>)
    ensures
        run(replies).task !is Failed ==> frames_decoded(replies) == frames_fed(replies) + (if run(
            replies,
        ).task is Feed {
            1nat
        } else {
            0
        }),
    decreases replies.len(),
{
    if replies.len() > 0 {
        lemma_fed(replies.drop_last());
    }
}

/// A finished tap has fed every frame that the decoder gave to the graph, each
/// once.
pub proof fn law_every_decoded_frame_is_fed(replies: Seq<TapReply>)
    ensures
        run(replies).task is Finished ==> frames_fed(replies) == frames_decoded(replies),
{
    lemma_fed(replies);
}

/// What a tap was last answered while it waited for `task`.
pub open spec fn answer_to(replies: Seq<TapReply>, task: TapTask) -> Option<TapReply>
    decreases replies.len(),
{
    if replies.len() == 0 {
        None
    } else if run(replies.drop_last()).task == task {
        Some(replies.last())
    } else {
        answer_to(replies.drop_last(), task)
    }
}

/// In every run a tap reads the stream that was picked, and a tap that reads or
/// has read packets has picked one.
pub proof fn law_tap_reads_the_picked_stream(replies: Seq<TapReply>)
    ensures
        ({
            let s = run(replies);
            let pick = answer_to(replies, TapTask::PickStream);
            &&& pick matches Some(TapReply::Picked(Some(i))) ==> s.stream_index == i
            &&& !(s.task is OpenInput || s.task is PickStream || s.task is Failed) ==> (
            pick matches Some(TapReply::Picked(Some(_))))
        }),
    decreases replies.len(),
{
    if replies.len() > 0 {
        law_tap_reads_the_picked_stream(replies.drop_last());
    }
}

/// A packet is sent to the decoder exactly where it is of the picked stream;
/// one of any other stream is passed over and nothing is remembered of it.
pub proof fn law_tap_sends_packets_of_its_stream(s: TapState, r: TapReply)
    ensures
        s.task is Read ==> (r matches TapReply::Packet(i) ==> {
            &&& s.after(r).task is SendPacket <==> i == s.stream_index
            &&& i != s.stream_index ==> s.after(r) == s
        }),
        s.after(r).task is SendPacket ==> s.task is Read && r == TapReply::Packet(s.stream_index),
{
}

/// Whether this is an answer to that task, and not one that tells of a failure.
pub open spec fn fits(task: TapTask, r: TapReply) -> bool {
    match task {
        TapTask::PickStream => r is Picked,
        TapTask::Read => r is Packet || r is End,
        TapTask::Receive => r is Got,
        TapTask::Pull => r is Frame || r is Nothing,
        TapTask::Finished | TapTask::Failed(_) => true,
        _ => r is Done,
    }
}

/// A tap fails exactly where one of the media libraries failed, where the file
/// has no audio, or where the answer is none to the task, and tells which of
/// these it was; nothing else changes. A tap that is over stays as it is.
pub proof fn law_tap_fails_only_for_a_reason(s: TapState, r: TapReply)
    ensures
        ({
            let next = s.after(r);
            let over = s.task is Finished || s.task is Failed;
            let missing = s.task is PickStream && r == TapReply::Picked(None);
            &&& over ==> next == s
            &&& !over && r is Failed ==> next.task == TapTask::Failed(
                crate::media::Failure::Engine,
            )
            &&& missing ==> next.task == TapTask::Failed(crate::media::Failure::StreamNotFound)
            &&& !over && !(r is Failed) && !fits(s.task, r) ==> next.task == TapTask::Failed(
                crate::media::Failure::Protocol,
            )
            &&& !over && fits(s.task, r) && !missing ==> !(next.task is Failed)
            &&& !over && next.task is Failed ==> next == (TapState { task: next.task, ..s })
        }),
{
}

/// A tap opens its input, picks the stream, and makes decoder and graph before
/// it reads. After each packet it takes all frames of the decoder, and after
/// each frame all that the graph has ready; the end is told to the decoder when
/// it was found, and to the graph when the decoder has nothing left.
pub proof fn law_tap_works_in_order(s: TapState, r: TapReply)
    ensures
        TapState::fresh().task is OpenInput,
        !TapState::fresh().eof && !TapState::fresh().flushed,
        ({
            let next = s.after(r);
            &&& s.task is OpenInput && r is Done ==> next.task is PickStream
            &&& s.task is PickStream && r is Picked && r->Picked_0 is Some
                ==> next.task is OpenDecoder
            &&& s.task is OpenDecoder && r is Done ==> next.task is BuildGraph
            &&& s.task is BuildGraph && r is Done ==> next.task is Read
            &&& s.task is Read && r is End ==> next.task is SendEof
            &&& s.task is SendPacket && r is Done ==> next.task is Receive
            &&& s.task is SendEof && r is Done ==> next.task is Receive && next.eof
            &&& !(s.task is SendEof && r is Done) ==> next.eof == s.eof
            &&& s.task is Receive && r == TapReply::Got(true) ==> next.task is Feed
            &&& s.task is Receive && r == TapReply::Got(false) && !s.eof ==> next.task is Read
            &&& s.task is Receive && r == TapReply::Got(false) && s.eof ==> next.task is Flush
            &&& s.task is Feed && r is Done ==> next.task is Pull
            &&& s.task is Flush && r is Done ==> next.task is Pull && next.flushed
            &&& !(s.task is Flush && r is Done) ==> next.flushed == s.flushed
            &&& s.task is Pull && r is Frame ==> next.task is Pull
            &&& s.task is Pull && r is Nothing && !s.flushed ==> next.task is Receive
            &&& s.task is Pull && r is Nothing && s.flushed ==> next.task is Finished
        }),
{
}

/// The number of samples of a buffer is the length of the one that its format
/// uses, and a frame without samples adds none, whatever its plane holds.
pub proof fn law_buffer_counts_what_it_uses(buf: AudioBufView, plane: PcmPlane)
    ensures
        buf.fmt == 1 ==> buf.count() == buf.doubles.len(),
        buf.fmt != 1 ==> buf.count() == buf.singles.len(),
        plane.samples == 0 ==> buf.appended(plane) == buf,
        plane.samples > 0 && buf.fmt == 1 ==> {
            &&& buf.appended(plane).doubles == buf.doubles + plane.doubles@
            &&& buf.appended(plane).singles == buf.singles
        },
        plane.samples > 0 && buf.fmt != 1 ==> {
            &&& buf.appended(plane).singles == buf.singles + plane.singles@
            &&& buf.appended(plane).doubles == buf.doubles
        },
        buf.appended(plane).fmt == buf.fmt,
        AudioBufView::empty(buf.fmt).fmt == buf.fmt,
        AudioBufView::empty(buf.fmt).count() == 0,
{
}

} // verus!
