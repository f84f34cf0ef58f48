//! What holds of every frame that is written and of every file that is
//! closed.
use crate::writer::{VideoWriter, WriterReply, WriterTask};
use vstd::prelude::*;

verus! {

/// Where the rows of a buffer do not overlap, a copied frame is found in it
/// pixel by pixel, and the bytes between and behind its rows are untouched.
pub proof fn law_frame_is_copied(
    dst: Seq<u8>,
    dst_stride: nat,
    data: Seq<u8>,
    stride: nat,
    row: nat,
    rows: nat,
)
    requires
        row <= dst_stride,
        crate::writer::rows_fit(dst.len(), dst_stride, row, rows),
        crate::writer::rows_fit(data.len(), stride, row, rows),
    ensures
        ({
            let out = crate::writer::copied(dst, dst_stride, data, stride, row, rows);
            &&& out.len() == dst.len()
            &&& forall|y: int, x: int|
                0 <= y < rows && 0 <= x < row ==> #[trigger] out[y * dst_stride + x]
                    == data[y * stride + x]
            &&& forall|i: int|
                0 <= i < dst.len() && (forall|y: int|
                    0 <= y < rows ==> !(#[trigger] (y * dst_stride) <= i < y * dst_stride + row))
                    ==> #[trigger] out[i] == dst[i]
        }),
    decreases rows,
{
    let out = crate::writer::copied(dst, dst_stride, data, stride, row, rows);
    if rows > 0 {
        let last = (rows - 1) as nat;
        assert(crate::writer::rows_fit(dst.len(), dst_stride, row, last)) by (nonlinear_arith)
            requires
                crate::writer::rows_fit(dst.len(), dst_stride, row, rows),
                last == rows - 1,
        ;
        assert(crate::writer::rows_fit(data.len(), stride, row, last)) by (nonlinear_arith)
            requires
                crate::writer::rows_fit(data.len(), stride, row, rows),
                last == rows - 1,
        ;
        law_frame_is_copied(dst, dst_stride, data, stride, row, last);
        let earlier = crate::writer::copied(dst, dst_stride, data, stride, row, last);
        assert(last * stride >= 0 && last * dst_stride >= 0) by (nonlinear_arith);
        assert forall|y: int, x: int| 0 <= y < rows && 0 <= x < row implies #[trigger] out[y
            * dst_stride + x] == data[y * stride + x] by {
            if y < last {
                assert(0 <= y * dst_stride + x < last * dst_stride) by (nonlinear_arith)
                    requires
                        0 <= y < last,
                        0 <= x < row,
                        row <= dst_stride,
                ;
                assert(earlier[y * dst_stride + x] == data[y * stride + x]);
            }
        }
        assert forall|i: int|
            0 <= i < dst.len() && (forall|y: int|
                0 <= y < rows ==> !(#[trigger] (y * dst_stride) <= i < y * dst_stride
                    + row)) implies #[trigger] out[i] == dst[i] by {
            assert(!(last * dst_stride <= i < last * dst_stride + row));
            assert(earlier[i] == dst[i]);
        }
    }
}

/// A frame whose rows are padded to the stride of a reader is accepted as it
/// is, and so is a packed one whose stride is given as zero.
pub proof fn law_reader_frames_are_accepted(width: u32, height: u32, byte_len: i32, stride: i32)
    requires
        stride >= 0,
        stride > 0 ==> stride >= width * 3,
        byte_len >= crate::writer::input_stride(width, stride) * height as nat,
    ensures
        crate::writer::refusal(width, height, true, byte_len, stride) is None,
{
}

/// What happens to a writer.
pub enum WriterEvent {
    /// A call that writes a frame begins.
    Write,
    /// The call that closes it begins.
    Close,
    /// Its task was answered.
    Reply(WriterReply),
}

/// The writer after an event.
pub open spec fn happened(w: VideoWriter, e: WriterEvent) -> VideoWriter {
    match e {
        WriterEvent::Write => w.at(WriterTask::Scale),
        WriterEvent::Close => w.at(WriterTask::SendEof),
        WriterEvent::Reply(r) => w.after(r),
    }
}

/// The writer after these events.
pub open spec fn run(start: VideoWriter, events: Seq<WriterEvent>) -> VideoWriter
    decreases events.len(),
{
    if events.len() == 0 {
        start
    } else {
        happened(run(start, events.drop_last()), events.last())
    }
}

/// The timestamps of the frames that the encoder was asked to take.
pub open spec fn stamps(start: VideoWriter, events: Seq<WriterEvent>) -> Seq<i64>
    decreases events.len(),
{
    if events.len() == 0 {
        Seq::empty()
    } else {
        let earlier = stamps(start, events.drop_last());
        let before = run(start, events.drop_last());
        match (before.task, run(start, events).task) {
            (WriterTask::Scale, WriterTask::EncodeFrame(pts)) => earlier.push(pts),
            _ => earlier,
        }
    }
}

/// How many calls that write a frame have succeeded.
pub open spec fn frames_written(start: VideoWriter, events: Seq<WriterEvent>) -> nat
    decreases events.len(),
{
    if events.len() == 0 {
        0
    } else {
        let before = run(start, events.drop_last());
        frames_written(start, events.drop_last()) + (if before.task is Receive && run(
            start,
            events,
        ).task is Ready {
            1nat
        } else {
            0
        })
    }
}

spec fn numbered(w: VideoWriter, stamps: Seq<i64>, written: nat) -> bool {
    &&& w.count == written
    &&& w.pts == stamps.len()
    &&& forall|i: int| 0 <= i < stamps.len() ==> #[trigger] stamps[i] == i
    &&& w.task matches WriterTask::Closed(n) ==> n == written && w.closing
    &&& w.task is WriteTrailer ==> w.closing
}

proof fn lemma_numbered(start: VideoWriter, events: Seq<WriterEvent>)
    requires
        start.count == 0,
        start.pts == 0,
        start.task is OpenOutput,
        events.len() < i64::MAX,
    ensures
        numbered(run(start, events), stamps(start, events), frames_written(start, events)),
        stamps(start, events).len() <= events.len(),
        frames_written(start, events) <= events.len(),
    decreases events.len(),
{
    if events.len() > 0 {
        lemma_numbered(start, events.drop_last());
    }
}

/// The frames of a file are numbered from zero without gaps, in the order in
/// which the encoder was asked to take them, whatever calls fail in between.
pub proof fn law_frames_are_numbered(
    width: u32,
    height: u32,
    fps: crate::media::Rational,
    events: Seq<WriterEvent>,
)
    requires
        events.len() < i64::MAX,
    ensures
        ({
            let start = VideoWriter::fresh(width, height, fps);
            let given = stamps(start, events);
            &&& forall|i: int| 0 <= i < given.len() ==> #[trigger] given[i] == i
            &&& run(start, events).pts == given.len()
        }),
{
    lemma_numbered(VideoWriter::fresh(width, height, fps), events);
}

/// A closed file reports how many calls that write a frame have succeeded: a
/// frame that the scaler, the encoder or the muxer refused is not among them.
/// It has told the encoder of the end.
pub proof fn law_written_frames_are_counted(
    width: u32,
    height: u32,
    fps: crate::media::Rational,
    events: Seq<WriterEvent>,
)
    requires
        events.len() < i64::MAX,
    ensures
        ({
            let start = VideoWriter::fresh(width, height, fps);
            let w = run(start, events);
            &&& w.count == frames_written(start, events)
            &&& w.task matches WriterTask::Closed(n) ==> n == frames_written(start, events)
                && w.closing
        }),
{
    lemma_numbered(VideoWriter::fresh(width, height, fps), events);
}

/// How many packets the encoder gave.
pub open spec fn packets_given(start: VideoWriter, events: Seq<WriterEvent>) -> nat
    decreases events.len(),
{
    if events.len() == 0 {
        0
    } else {
        packets_given(start, events.drop_last()) + (if run(start, events.drop_last()).task
            is Receive && events.last() == WriterEvent::Reply(WriterReply::Got(true)) {
            1nat
        } else {
            0
        })
    }
}

/// How many packets were written.
pub open spec fn packets_written(start: VideoWriter, events: Seq<WriterEvent>) -> nat
    decreases events.len(),
{
    if events.len() == 0 {
        0
    } else {
        packets_written(start, events.drop_last()) + (if run(start, events.drop_last()).task
            is WritePacket && events.last() == WriterEvent::Reply(WriterReply::Done) {
            1nat
        } else {
            0
        })
    }
}

/// How many packets could not be written.
pub open spec fn packets_lost(start: VideoWriter, events: Seq<WriterEvent>) -> nat
    decreases events.len(),
{
    if events.len() == 0 {
        0
    } else {
        packets_lost(start, events.drop_last()) + (if run(start, events.drop_last()).task
            is WritePacket && events.last() != WriterEvent::Reply(WriterReply::Done) {
            1nat
        } else {
            0
        })
    }
}

proof fn lemma_packets(start: VideoWriter, events: Seq<WriterEvent>)
    requires
        start.task is OpenOutput,
    ensures
        packets_given(start, events) == packets_written(start, events) + packets_lost(
            start,
            events,
        ) + (if run(start, events).task is WritePacket {
            1nat
        } else {
            0
        }),
    decreases events.len(),
{
    if events.len() > 0 {
        lemma_packets(start, events.drop_last());
    }
}

/// Between two calls, every packet that the encoder gave has been written,
/// but for those that the muxer refused.
pub proof fn law_packets_are_written(
    width: u32,
    height: u32,
    fps: crate::media::Rational,
    events: Seq<WriterEvent>,
)
    ensures
        ({
            let start = VideoWriter::fresh(width, height, fps);
            run(start, events).task !is WritePacket ==> packets_given(start, events)
                == packets_written(start, events) + packets_lost(start, events)
        }),
{
    lemma_packets(VideoWriter::fresh(width, height, fps), events);
}

/// What a writer was last answered while it waited for `task`.
pub open spec fn answer_to(
    start: VideoWriter,
    events: Seq<WriterEvent>,
    task: WriterTask,
) -> Option<WriterReply>
    decreases events.len(),
{
    if events.len() == 0 {
        None
    } else {
        match events.last() {
            WriterEvent::Reply(r) if run(start, events.drop_last()).task == task => Some(r),
            _ => answer_to(start, events.drop_last(), task),
        }
    }
}

/// For every frame rate with positive parts, a writer encodes at exactly that
/// rate, and at thirty frames a second otherwise; its frames have the size that
/// was asked for. It stays so, whatever happens, until the file is closed.
pub proof fn law_writer_keeps_size_and_rate(
    width: u32,
    height: u32,
    fps_num: i32,
    fps_den: i32,
    events: Seq<WriterEvent>,
)
    ensures
        ({
            let fps = crate::media::Rational { num: fps_num, den: fps_den };
            let w = run(VideoWriter::fresh(width, height, fps), events);
            &&& w.width == width
            &&& w.height == height
            &&& fps_num > 0 && fps_den > 0 ==> w.rate.num == fps_num && w.rate.den == fps_den
            &&& !(fps_num > 0 && fps_den > 0) ==> w.rate.num == 30 && w.rate.den == 1
        }),
    decreases events.len(),
{
    if events.len() > 0 {
        law_writer_keeps_size_and_rate(width, height, fps_num, fps_den, events.drop_last());
    }
}

/// In every run a packet of the encoder is written to the stream that was
/// added, and rescaled from the time base that the encoder was opened with to
/// the one that the header gave to the stream; the encoder is told of global
/// headers as the output wanted it.
pub proof fn law_writer_settings_follow_the_answers(
    width: u32,
    height: u32,
    fps: crate::media::Rational,
    events: Seq<WriterEvent>,
)
    ensures
        ({
            let start = VideoWriter::fresh(width, height, fps);
            let w = run(start, events);
            &&& answer_to(start, events, WriterTask::OpenOutput) matches Some(WriterReply::Output(g))
                ==> w.global_header == g
            &&& answer_to(start, events, WriterTask::OpenEncoder) matches Some(
                WriterReply::Encoder(tb),
            ) ==> w.enc_tb == tb
            &&& answer_to(start, events, WriterTask::AddStream) matches Some(
                WriterReply::Stream(i),
            ) ==> w.ost_index == i
            &&& answer_to(start, events, WriterTask::WriteHeader) matches Some(
                WriterReply::Header(tb),
            ) ==> w.ost_tb == tb
        }),
    decreases events.len(),
{
    if events.len() > 0 {
        law_writer_settings_follow_the_answers(width, height, fps, events.drop_last());
    }
}

/// Whether each frame was written, and the file closed, by a writer that was
/// ready.
pub open spec fn orderly(start: VideoWriter, events: Seq<WriterEvent>) -> bool
    decreases events.len(),
{
    events.len() > 0 ==> orderly(start, events.drop_last()) && (events.last() is Reply || run(
        start,
        events.drop_last(),
    ).task is Ready)
}

/// Whether a writer that waits for `task` is past its output, encoder, stream
/// and header, of which so many come first.
spec fn past(task: WriterTask, steps: nat) -> bool {
    &&& !(task is Failed)
    &&& !(task is OpenOutput)
    &&& steps > 1 ==> !(task is FindEncoder || task is OpenEncoder)
    &&& steps > 2 ==> !(task is AddStream)
    &&& steps > 3 ==> !(task is WriteHeader)
}

proof fn lemma_answered(start: VideoWriter, events: Seq<WriterEvent>)
    requires
        start.task is OpenOutput,
        orderly(start, events),
    ensures
        ({
            let w = run(start, events);
            &&& past(w.task, 1) ==> (answer_to(start, events, WriterTask::OpenOutput) matches Some(
                WriterReply::Output(_),
            ))
            &&& past(w.task, 2) ==> (answer_to(start, events, WriterTask::OpenEncoder) matches Some(
                WriterReply::Encoder(_),
            ))
            &&& past(w.task, 3) ==> (answer_to(start, events, WriterTask::AddStream) matches Some(
                WriterReply::Stream(_),
            ))
            &&& past(w.task, 4) ==> (answer_to(start, events, WriterTask::WriteHeader) matches Some(
                WriterReply::Header(_),
            ))
        }),
    decreases events.len(),
{
    if events.len() > 0 {
        lemma_answered(start, events.drop_last());
    }
}

/// A writer that takes frames, encodes one, writes a packet or closes the file
/// was told how: its output, its encoder, its stream and its header were all
/// answered for.
pub proof fn law_ready_writer_is_set_up(
    width: u32,
    height: u32,
    fps: crate::media::Rational,
    events: Seq<WriterEvent>,
)
    requires
        orderly(VideoWriter::fresh(width, height, fps), events),
    ensures
        ({
            let start = VideoWriter::fresh(width, height, fps);
            let task = run(start, events).task;
            task is Ready || task is Scale || task is EncodeFrame || task is SendEof
                || task is Receive || task is WritePacket || task is WriteTrailer
                || task is Closed ==> {
                &&& answer_to(start, events, WriterTask::OpenOutput) matches Some(
                    WriterReply::Output(_),
                )
                &&& answer_to(start, events, WriterTask::OpenEncoder) matches Some(
                    WriterReply::Encoder(_),
                )
                &&& answer_to(start, events, WriterTask::AddStream) matches Some(
                    WriterReply::Stream(_),
                )
                &&& answer_to(start, events, WriterTask::WriteHeader) matches Some(
                    WriterReply::Header(_),
                )
            }
        }),
{
    lemma_answered(VideoWriter::fresh(width, height, fps), events);
}

/// Whether this is an answer to that task, and not one that tells of a failure.
pub open spec fn fits(task: WriterTask, r: WriterReply) -> bool {
    match task {
        WriterTask::OpenOutput => r is Output,
        WriterTask::FindEncoder | WriterTask::Receive => r is Got,
        WriterTask::OpenEncoder => r is Encoder,
        WriterTask::AddStream => r is Stream,
        WriterTask::WriteHeader => r is Header,
        WriterTask::Ready | WriterTask::Closed(_) | WriterTask::Failed(_) => true,
        _ => r is Done,
    }
}

/// A call fails exactly where one of the media libraries failed, where no
/// encoder of the family is built in, or where the answer is none to the task,
/// and tells which of these it was; nothing else changes. A call that is over
/// stays as it is.
pub proof fn law_writer_fails_only_for_a_reason(w: VideoWriter, r: WriterReply)
    ensures
        ({
            let next = w.after(r);
            let over = w.task is Ready || w.task is Closed || w.task is Failed;
            let missing = w.task is FindEncoder && r == WriterReply::Got(false);
            &&& over ==> next == w
            &&& !over && r is Failed ==> next.task == WriterTask::Failed(
                crate::media::Failure::Engine,
            )
            &&& missing ==> next.task == WriterTask::Failed(crate::media::Failure::EncoderNotFound)
            &&& !over && !(r is Failed) && !fits(w.task, r) ==> next.task == WriterTask::Failed(
                crate::media::Failure::Protocol,
            )
            &&& !over && fits(w.task, r) && !missing ==> !(next.task is Failed)
            &&& !over && next.task is Failed ==> next == (VideoWriter { task: next.task, ..w })
        }),
{
}

/// A writer opens its output, then the encoder, adds the stream, writes the
/// header and makes the scaler, and is then ready. A frame is scaled, encoded,
/// and followed by asking for packets until there are none; each packet is
/// written at once. Closing tells the encoder of the end, drains it in the same
/// way, and ends with the trailer.
pub proof fn law_writer_works_in_order(w: VideoWriter, r: WriterReply)
    ensures
        VideoWriter::fresh(w.width, w.height, w.rate).task is OpenOutput,
        VideoWriter::fresh(w.width, w.height, w.rate).pts == 0,
        VideoWriter::fresh(w.width, w.height, w.rate).count == 0,
        !VideoWriter::fresh(w.width, w.height, w.rate).closing,
        ({
            let next = w.after(r);
            &&& w.task is OpenOutput && r is Output ==> next.task is FindEncoder
            &&& w.task is FindEncoder && r == WriterReply::Got(true) ==> next.task is OpenEncoder
            &&& w.task is OpenEncoder && r is Encoder ==> next.task is AddStream
            &&& w.task is AddStream && r is Stream ==> next.task is WriteHeader
            &&& w.task is WriteHeader && r is Header ==> next.task is OpenScaler
            &&& w.task is OpenScaler && r is Done ==> next.task is Ready
            &&& w.task is Scale && r is Done && w.pts < i64::MAX ==> next.task
                == WriterTask::EncodeFrame(w.pts) && next.pts == w.pts + 1
            &&& !(w.task is Scale && r is Done) ==> next.pts == w.pts
            &&& w.task is EncodeFrame && r is Done ==> next.task is Receive
            &&& w.task is SendEof && r is Done ==> next.task is Receive && next.closing
            &&& !(w.task is SendEof && r is Done) ==> next.closing == w.closing
            &&& w.task is Receive && r == WriterReply::Got(true) ==> next.task is WritePacket
            &&& w.task is Receive && r == WriterReply::Got(false) && !w.closing
                ==> next.task is Ready
            &&& w.task is Receive && r == WriterReply::Got(false) && w.closing
                ==> next.task is WriteTrailer && next.count == w.count
            &&& w.task is WritePacket && r is Done ==> next.task is Receive
            &&& w.task is WriteTrailer && r is Done ==> next.task == WriterTask::Closed(w.count)
        }),
{
}

/// Another frame can be counted as long as neither its timestamp nor the number
/// of frames is the last one, and any size is accepted that is positive and not
/// too large for the media libraries.
pub proof fn law_writer_limits(w: VideoWriter)
    ensures
        w.has_room() <==> w.pts < i64::MAX && w.count < i64::MAX,
        w.wf() <==> 1 <= w.width <= 0x7fff_ffff && 1 <= w.height <= 0x7fff_ffff,
{
}

/// Rows are copied one after the other: with no rows nothing changes, and each
/// further row changes only the bytes that it covers, to those of the frame.
pub proof fn law_rows_are_copied_one_by_one(
    dst: Seq<u8>,
    dst_stride: nat,
    data: Seq<u8>,
    stride: nat,
    row: nat,
    y: nat,
    i: int,
)
    requires
        0 <= i < dst.len(),
        y * stride + row <= data.len(),
    ensures
        crate::writer::copied(dst, dst_stride, data, stride, row, 0) == dst,
        ({
            let before = crate::writer::copied(dst, dst_stride, data, stride, row, y);
            let after = crate::writer::copied(dst, dst_stride, data, stride, row, y + 1);
            &&& after.len() == dst.len()
            &&& y * dst_stride <= i < y * dst_stride + row ==> after[i] == data[i - y * dst_stride
                + y * stride]
            &&& !(y * dst_stride <= i < y * dst_stride + row) ==> after[i] == before[i]
        }),
    decreases y,
{
    assert(y * stride >= 0) by (nonlinear_arith)
        requires
            y >= 0,
            stride >= 0,
    ;
    if y > 0 {
        assert((y - 1) * stride + row <= data.len()) by (nonlinear_arith)
            requires
                y * stride + row <= data.len(),
                stride >= 0,
        ;
        law_rows_are_copied_one_by_one(dst, dst_stride, data, stride, row, (y - 1) as nat, i);
        assert((y - 1) as nat + 1 == y);
    }
    assert(((y + 1) - 1) as nat == y);
    let before = crate::writer::copied(dst, dst_stride, data, stride, row, y);
    let source = data.subrange((y * stride) as int, (y * stride + row) as int);
    assert(source.len() == row);
    assert(crate::writer::copied(dst, dst_stride, data, stride, row, y + 1)
        == crate::writer::overlay(before, (y * dst_stride) as int, source));
    if y * dst_stride <= i < y * dst_stride + row {
        assert(source[i - y * dst_stride] == data[i - y * dst_stride + y * stride]);
    }
}

/// Rows lie within a buffer exactly if there are none, or if the last one ends
/// within it.
pub proof fn law_last_row_must_fit(len: nat, stride: nat, row: nat, rows: nat)
    ensures
        crate::writer::rows_fit(len, stride, row, rows) <==> (rows == 0 || (rows - 1) * stride + row
            <= len),
{
}

} // verus!
