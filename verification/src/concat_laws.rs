//! What a joining job writes, for every list of files.
use crate::concat::{Concat, ConcatReply, ConcatTask, PacketTimes, Reach};
use vstd::prelude::*;

verus! {

/// A packet of a file: its stream, and its times in the file.
pub struct InputPacket {
    pub stream: usize,
    pub times: PacketTimes,
}

/// A file: its duration in microseconds, as it reports it, the time at which
/// its own timestamps begin, where that is known, and its packets.
pub struct InputFile {
    pub duration: i64,
    pub start: Option<i64>,
    pub packets: Seq<InputPacket>,
}

impl InputFile {
    /// The time at which its own timestamps begin.
    pub open spec fn first(self) -> int {
        crate::concat::start_or_zero(self.start) as int
    }
}

/// A packet of the output: its file, its stream, and the time in microseconds
/// that its timestamps are moved by.
pub struct Copied {
    pub file: nat,
    pub stream: usize,
    pub offset_us: i64,
}

/// What a job leaves behind: the packets in the order in which they were
/// written, and its last state.
pub struct ConcatRun {
    pub written: Seq<Copied>,
    pub end: Concat,
}

/// What the job does with its files, where no call fails; `packets` are those
/// that are left of the open file.
pub open spec fn drive(job: Concat, files: Seq<InputFile>, packets: Seq<InputPacket>) -> ConcatRun
    decreases
            files.len() - job.current,
            if job.task is OpenInput {
                1int
            } else {
                0
            },
            2 * packets.len() + (if job.task is WritePacket {
                1int
            } else {
                0
            }),
{
    if job.task is OpenInput && job.current < files.len() {
        let file = files[job.current as int];
        drive(job.after(ConcatReply::Opened(file.duration, file.start)), files, file.packets)
    } else if job.task is Read && packets.len() > 0 {
        drive(
            job.after(ConcatReply::Packet(packets[0].stream, packets[0].times)),
            files,
            packets.skip(1),
        )
    } else if job.task is Read && job.current < files.len() && job.current < usize::MAX {
        drive(job.after(ConcatReply::End), files, packets)
    } else if job.task is WritePacket {
        let rest = drive(job.after(ConcatReply::Done), files, packets);
        let packet = Copied {
            file: job.current as nat,
            stream: job.task->WritePacket_0,
            offset_us: job.offset_us,
        };
        ConcatRun { written: seq![packet] + rest.written, end: rest.end }
    } else if job.task is WriteTrailer {
        ConcatRun { written: Seq::empty(), end: job.after(ConcatReply::Done) }
    } else {
        ConcatRun { written: Seq::empty(), end: job }
    }
}

/// A duration, where it is positive.
pub open spec fn counted(duration: i64) -> nat {
    if duration > 0 {
        duration as nat
    } else {
        0
    }
}

/// The durations of the files before the one of number `k`, added up.
pub open spec fn elapsed(files: Seq<InputFile>, k: nat) -> nat
    decreases k,
{
    if k == 0 {
        0
    } else {
        elapsed(files, (k - 1) as nat) + counted(files[k - 1].duration)
    }
}

/// A time of a packet once it is moved by `offset`.
pub open spec fn shifted(t: Option<i64>, offset: int) -> Option<int> {
    match t {
        Some(t) => Some(t + offset),
        None => None,
    }
}

/// How far packets reach, from `reach` on, once those of `packets` that the
/// output has a stream for are written, moved by `offset`.
pub open spec fn reach_after(
    reach: Reach,
    packets: Seq<InputPacket>,
    nstreams: usize,
    offset: int,
) -> Reach
    decreases packets.len(),
{
    if packets.len() == 0 {
        reach
    } else if packets[0].stream < nstreams {
        reach_after(
            reach.with(
                shifted(packets[0].times.dts, offset),
                shifted(packets[0].times.end, offset),
            ),
            packets.skip(1),
            nstreams,
            offset,
        )
    } else {
        reach_after(reach, packets.skip(1), nstreams, offset)
    }
}

/// How far the output has come before a file.
#[verifier::ext_equal]
pub struct Timeline {
    /// The running duration.
    pub running: int,
    /// The last file reports its duration.
    pub reported: bool,
    /// How far the packets reach.
    pub reach: Reach,
}

impl Timeline {
    /// The offset of a file whose own timestamps begin at `start`.
    pub open spec fn offset_for(self, start: int) -> int {
        self.reach.begin(self.running, self.reported, start)
    }
}

/// How far the output has come before the file of number `k`.
pub open spec fn timeline(files: Seq<InputFile>, nstreams: usize, k: nat) -> Timeline
    decreases k,
{
    if k == 0 {
        Timeline { running: 0, reported: true, reach: Reach::nothing() }
    } else {
        let t = timeline(files, nstreams, (k - 1) as nat);
        let file = files[k - 1];
        let offset = t.offset_for(file.first());
        Timeline {
            running: offset + counted(file.duration),
            reported: file.duration > 0,
            reach: reach_after(t.reach.opened(), file.packets, nstreams, offset),
        }
    }
}

/// The time that the file of number `k` is moved by.
pub open spec fn offset(files: Seq<InputFile>, nstreams: usize, k: nat) -> int {
    timeline(files, nstreams, k).offset_for(files[k as int].first())
}

/// The packets of one file that the output has a stream for, moved by
/// `offset_us`.
pub open spec fn of_file(
    file: nat,
    packets: Seq<InputPacket>,
    nstreams: usize,
    offset_us: int,
) -> Seq<Copied>
    decreases packets.len(),
{
    if packets.len() == 0 {
        Seq::empty()
    } else if packets[0].stream < nstreams {
        seq![Copied { file, stream: packets[0].stream, offset_us: offset_us as i64 }] + of_file(
            file,
            packets.skip(1),
            nstreams,
            offset_us,
        )
    } else {
        of_file(file, packets.skip(1), nstreams, offset_us)
    }
}

/// The packets of all files from number `k` on, each file moved to where it
/// begins.
pub open spec fn joined(files: Seq<InputFile>, nstreams: usize, k: nat) -> Seq<Copied>
    decreases files.len() - k,
{
    if k < files.len() {
        of_file(k, files[k as int].packets, nstreams, offset(files, nstreams, k)) + joined(
            files,
            nstreams,
            k + 1,
        )
    } else {
        Seq::empty()
    }
}

/// Whether a packet can be counted once it is moved.
pub open spec fn packet_fits(packet: InputPacket, offset: int) -> bool {
    &&& shifted(packet.times.end, offset) matches Some(e) ==> i64::MIN <= e <= i64::MAX
    &&& shifted(packet.times.dts, offset) matches Some(d) ==> i64::MIN <= d < i64::MAX
}

/// Whether those of these packets that the output has a stream for can be
/// counted once they are moved.
pub open spec fn packets_fit(packets: Seq<InputPacket>, nstreams: usize, offset: int) -> bool {
    forall|i: int|
        0 <= i < packets.len() && (#[trigger] packets[i]).stream < nstreams ==> packet_fits(
            packets[i],
            offset,
        )
}

/// Whether all times of a job can be counted.
pub open spec fn times_fit(files: Seq<InputFile>, nstreams: usize) -> bool {
    forall|k: nat|
        #![trigger timeline(files, nstreams, k)]
        k < files.len() ==> offset(files, nstreams, k) + counted(files[k as int].duration)
            <= i64::MAX && packets_fit(
            files[k as int].packets,
            nstreams,
            offset(files, nstreams, k),
        )
}

proof fn lemma_running(files: Seq<InputFile>, nstreams: usize, k: nat)
    ensures
        timeline(files, nstreams, k).running >= 0,
    decreases k,
{
    if k > 0 {
        lemma_running(files, nstreams, (k - 1) as nat);
    }
}

spec fn sound(job: Concat, files: Seq<InputFile>, left: nat) -> bool {
    &&& job.files == files.len()
    &&& job.current <= files.len()
    &&& files.len() < usize::MAX
    &&& times_fit(files, job.nstreams)
    &&& 0 <= job.count
    &&& job.count + left <= i64::MAX
}

proof fn lemma_drive_file(job: Concat, files: Seq<InputFile>, packets: Seq<InputPacket>)
    requires
        job.task is Read,
        job.current < files.len(),
        job.dur_us == files[job.current as int].duration,
        ({
            let k = job.current as nat;
            let here = offset(files, job.nstreams, k);
            &&& job.offset_us == here
            &&& packets_fit(packets, job.nstreams, here)
            &&& reach_after(job.reach(), packets, job.nstreams, here) == timeline(
                files,
                job.nstreams,
                k + 1,
            ).reach
            &&& sound(
                job,
                files,
                of_file(k, packets, job.nstreams, here).len() + joined(
                    files,
                    job.nstreams,
                    k + 1,
                ).len(),
            )
        }),
    ensures
        ({
            let k = job.current as nat;
            let here = of_file(k, packets, job.nstreams, offset(files, job.nstreams, k));
            let all = here + joined(files, job.nstreams, k + 1);
            let run = drive(job, files, packets);
            &&& run.written == all
            &&& run.end.task == ConcatTask::Finished((job.count + all.len()) as i64)
        }),
    decreases files.len() - job.current, 0nat, packets.len(),
{
    let k = job.current as nat;
    let at = offset(files, job.nstreams, k);
    let here = of_file(k, packets, job.nstreams, at);
    let later = joined(files, job.nstreams, k + 1);
    if packets.len() == 0 {
        let next = job.after(ConcatReply::End);
        assert(timeline(files, job.nstreams, k).running <= at);
        assert(next.offset_us == timeline(files, job.nstreams, k + 1).running);
        assert(here + later =~= later);
        lemma_drive_files(next, files, packets);
    } else {
        let rest = packets.skip(1);
        assert(packets_fit(rest, job.nstreams, at)) by {
            assert forall|i: int|
                0 <= i < rest.len() && (#[trigger] rest[i]).stream
                    < job.nstreams implies packet_fits(rest[i], at) by {
                assert(rest[i] == packets[i + 1]);
            }
        }
        if packets[0].stream < job.nstreams {
            let mid = job.after(ConcatReply::Packet(packets[0].stream, packets[0].times));
            let next = mid.after(ConcatReply::Done);
            let there = of_file(k, rest, job.nstreams, at);
            assert(packet_fits(packets[0], at));
            assert(next.reach() == job.reach().with(
                shifted(packets[0].times.dts, at),
                shifted(packets[0].times.end, at),
            ));
            lemma_drive_file(next, files, rest);
            assert(here + later =~= seq![here[0]] + (there + later));
            assert(drive(mid, files, rest).written == seq![here[0]] + drive(
                next,
                files,
                rest,
            ).written);
        } else {
            lemma_drive_file(job, files, rest);
        }
    }
}

proof fn lemma_drive_files(job: Concat, files: Seq<InputFile>, packets: Seq<InputPacket>)
    requires
        job == job.next_file(),
        sound(job, files, joined(files, job.nstreams, job.current as nat).len()),
        ({
            let t = timeline(files, job.nstreams, job.current as nat);
            job.offset_us == t.running && job.reported == t.reported && job.reach() == t.reach
        }),
    ensures
        ({
            let all = joined(files, job.nstreams, job.current as nat);
            let run = drive(job, files, packets);
            &&& run.written == all
            &&& run.end.task == ConcatTask::Finished((job.count + all.len()) as i64)
        }),
    decreases files.len() - job.current, 1nat, packets.len(),
{
    if job.current < files.len() {
        let k = job.current as nat;
        let file = files[k as int];
        let next = job.after(ConcatReply::Opened(file.duration, file.start));
        lemma_running(files, job.nstreams, k);
        assert(timeline(files, job.nstreams, k).running <= offset(files, job.nstreams, k));
        assert(next.offset_us == offset(files, job.nstreams, k));
        assert(next.reach() == job.reach().opened());
        lemma_drive_file(next, files, file.packets);
    }
}

/// A job whose header was just written, with so many streams in the output.
pub open spec fn headed(files: usize, nstreams: usize) -> Concat {
    Concat { nstreams, ..Concat::fresh(files) }.next_file()
}

/// A job takes the streams of the output from the first file, one after the
/// other, and then writes the header: after so many answers it stands at the
/// stream of that number.
pub proof fn law_streams_come_from_the_first_file(files: usize, nstreams: usize, i: usize)
    requires
        i <= nstreams,
    ensures
        ({
            let opened = Concat::fresh(files).after(ConcatReply::Done).after(
                ConcatReply::Streams(nstreams),
            );
            let job = added(opened, i as nat);
            &&& job == opened.add_from(i as int)
            &&& i == nstreams ==> job.task is WriteHeader && job.after(
                ConcatReply::Header(nstreams),
            ) == headed(files, nstreams)
        }),
    decreases i,
{
    if i > 0 {
        law_streams_come_from_the_first_file(files, nstreams, (i - 1) as usize);
    }
}

/// The job after so many streams were added.
pub open spec fn added(job: Concat, n: nat) -> Concat
    decreases n,
{
    if n == 0 {
        job
    } else {
        added(job, (n - 1) as nat).after(ConcatReply::Done)
    }
}

/// A job writes the packets of all files in order, those of each file moved
/// by the same time, whatever their stream; packets of streams that the output
/// does not have are passed over. It ends with the trailer and reports how
/// many packets there were.
pub proof fn law_files_are_joined(files: Seq<InputFile>, nstreams: usize)
    requires
        files.len() < usize::MAX,
        times_fit(files, nstreams),
        joined(files, nstreams, 0).len() <= i64::MAX,
    ensures
        ({
            let run = drive(headed(files.len() as usize, nstreams), files, Seq::empty());
            let all = joined(files, nstreams, 0);
            &&& run.written == all
            &&& run.end.task == ConcatTask::Finished(all.len() as i64)
        }),
{
    lemma_drive_files(headed(files.len() as usize, nstreams), files, Seq::empty());
}

/// Whether one reach has at least the latest decoding time of another, and a
/// packet of such a time is over later than it is decoded.
spec fn beyond(reach: Reach, dts: Option<int>) -> bool {
    &&& dts matches Some(d) ==> reach.dts is Some && d <= reach.dts->0
    &&& reach.dts matches Some(d) ==> reach.next is Some && d < reach.next->0
}

proof fn lemma_reach(
    reach: Reach,
    packets: Seq<InputPacket>,
    nstreams: usize,
    offset: int,
    i: int,
)
    requires
        beyond(reach, None),
    ensures
        ({
            let far = reach_after(reach, packets, nstreams, offset);
            &&& beyond(far, reach.dts)
            &&& reach.end matches Some(e) ==> far.end is Some && e <= far.end->0
            &&& 0 <= i < packets.len() && packets[i].stream < nstreams ==> {
                &&& beyond(far, shifted(packets[i].times.dts, offset))
                &&& shifted(packets[i].times.end, offset) matches Some(e) ==> far.end is Some && e
                    <= far.end->0
            }
        }),
    decreases packets.len(),
{
    if packets.len() > 0 {
        let rest = packets.skip(1);
        let next = if packets[0].stream < nstreams {
            reach.with(
                shifted(packets[0].times.dts, offset),
                shifted(packets[0].times.end, offset),
            )
        } else {
            reach
        };
        lemma_reach(next, rest, nstreams, offset, i - 1);
        if i > 0 {
            assert(0 <= i - 1 < rest.len() ==> rest[i - 1] == packets[i]);
        }
    }
}

proof fn lemma_dts_grows(files: Seq<InputFile>, nstreams: usize, i: nat, j: nat)
    requires
        i <= j,
    ensures
        beyond(timeline(files, nstreams, j).reach, timeline(files, nstreams, i).reach.dts),
    decreases j,
{
    if j > 0 {
        let k = (j - 1) as nat;
        lemma_dts_grows(
            files,
            nstreams,
            if i <= k {
                i
            } else {
                k
            },
            k,
        );
        lemma_reach(
            timeline(files, nstreams, k).reach.opened(),
            files[k as int].packets,
            nstreams,
            offset(files, nstreams, k),
            0,
        );
    }
}

/// Decoding times increase strictly from one file to the next, whether the
/// files report their durations or not: every packet is decoded before
/// anything of a later file begins, as long as no timestamp of that file lies
/// before the time at which it says to begin.
pub proof fn law_decoding_times_increase(
    files: Seq<InputFile>,
    nstreams: usize,
    i: nat,
    p: int,
    j: nat,
    t: int,
)
    requires
        i < j < files.len(),
        0 <= p < files[i as int].packets.len(),
        files[i as int].packets[p].stream < nstreams,
        files[i as int].packets[p].times.dts is Some,
        t >= files[j as int].first(),
    ensures
        offset(files, nstreams, i) + files[i as int].packets[p].times.dts->0 < offset(
            files,
            nstreams,
            j,
        ) + t,
{
    lemma_dts_grows(files, nstreams, i, i);
    lemma_reach(
        timeline(files, nstreams, i).reach.opened(),
        files[i as int].packets,
        nstreams,
        offset(files, nstreams, i),
        p,
    );
    lemma_dts_grows(files, nstreams, i + 1, j);
}

proof fn lemma_offsets_grow(files: Seq<InputFile>, nstreams: usize, i: nat, j: nat)
    requires
        i <= j,
    ensures
        offset(files, nstreams, i) <= offset(files, nstreams, j),
    decreases j,
{
    if i < j {
        lemma_offsets_grow(files, nstreams, i, (j - 1) as nat);
    }
}

/// A file that reports no duration is followed where it ends: none of its
/// packets ends after a later file begins, as long as no timestamp of that
/// file lies before the time at which the very next file says to begin.
pub proof fn law_unreported_file_is_followed_where_it_ends(
    files: Seq<InputFile>,
    nstreams: usize,
    i: nat,
    p: int,
    j: nat,
    t: int,
)
    requires
        i < j < files.len(),
        files[i as int].duration <= 0,
        0 <= p < files[i as int].packets.len(),
        files[i as int].packets[p].stream < nstreams,
        files[i as int].packets[p].times.end is Some,
        t >= files[i + 1int].first(),
    ensures
        offset(files, nstreams, i) + files[i as int].packets[p].times.end->0 <= offset(
            files,
            nstreams,
            j,
        ) + t,
{
    lemma_dts_grows(files, nstreams, i, i);
    lemma_reach(
        timeline(files, nstreams, i).reach.opened(),
        files[i as int].packets,
        nstreams,
        offset(files, nstreams, i),
        p,
    );
    lemma_offsets_grow(files, nstreams, i + 1, j);
}

/// No file begins before the one ahead of it has lasted as long as it reports.
pub proof fn law_files_last_their_durations(files: Seq<InputFile>, nstreams: usize, k: nat)
    requires
        k + 1 < files.len(),
    ensures
        offset(files, nstreams, k) + counted(files[k as int].duration) <= offset(
            files,
            nstreams,
            k + 1,
        ),
{
}

/// A reported duration is kept: the next file begins when it is over, however
/// long the packets last, unless a decoding time that was written reaches into
/// that file.
pub proof fn law_reported_duration_is_kept(files: Seq<InputFile>, nstreams: usize, k: nat)
    requires
        k + 1 < files.len(),
        files[k as int].duration > 0,
        !timeline(files, nstreams, k + 1).reach.attains(
            offset(files, nstreams, k) + files[k as int].duration + files[k + 1int].first(),
        ),
    ensures
        offset(files, nstreams, k + 1) == offset(files, nstreams, k) + files[k as int].duration,
{
}

/// Whether all files begin their timestamps at `start`, all but the last one
/// report a duration, and every packet is decoded before its file is over.
pub open spec fn well_reported(files: Seq<InputFile>, start: int) -> bool {
    &&& forall|i: int| 0 <= i < files.len() ==> (#[trigger] files[i]).first() == start
    &&& forall|i: int| 0 <= i < files.len() - 1 ==> (#[trigger] files[i]).duration > 0
    &&& forall|i: int, p: int|
        #![trigger files[i].packets[p]]
        0 <= i < files.len() - 1 && 0 <= p < files[i].packets.len() ==> (
        files[i].packets[p].times.dts matches Some(d) ==> d < start + files[i].duration)
}

/// Where files report their durations and no packet is decoded when its file
/// is over, each file is moved by the durations of the files before it, added
/// up; how long a packet lasts does not matter.
pub proof fn law_offset_is_the_running_duration(
    files: Seq<InputFile>,
    nstreams: usize,
    start: int,
    k: nat,
)
    requires
        k < files.len(),
        well_reported(files, start),
    ensures
        offset(files, nstreams, k) == elapsed(files, k),
{
    lemma_timeline_is_elapsed(files, nstreams, start, k);
}

proof fn lemma_timeline_is_elapsed(files: Seq<InputFile>, nstreams: usize, start: int, k: nat)
    requires
        k < files.len(),
        well_reported(files, start),
    ensures
        ({
            let t = timeline(files, nstreams, k);
            &&& t.running == elapsed(files, k)
            &&& t.reported
            &&& !t.reach.attains(elapsed(files, k) + start)
        }),
    decreases k,
{
    if k > 0 {
        let j = (k - 1) as nat;
        let packets = files[j as int].packets;
        lemma_timeline_is_elapsed(files, nstreams, start, j);
        assert(files[j as int].first() == start && files[j as int].duration > 0);
        assert forall|p: int| 0 <= p < packets.len() implies ((
        #[trigger] packets[p]).times.dts matches Some(d) ==> d + elapsed(files, j) < elapsed(
            files,
            k,
        ) + start) by {
            assert(files[j as int].packets[p] == packets[p]);
        }
        lemma_dts_bound(
            timeline(files, nstreams, j).reach.opened(),
            packets,
            nstreams,
            elapsed(files, j) as int,
            elapsed(files, k) + start,
        );
    }
}

proof fn lemma_dts_bound(
    reach: Reach,
    packets: Seq<InputPacket>,
    nstreams: usize,
    offset: int,
    bound: int,
)
    requires
        !reach.attains(bound),
        forall|p: int|
            0 <= p < packets.len() ==> ((#[trigger] packets[p]).times.dts matches Some(d) ==> d
                + offset < bound),
    ensures
        !reach_after(reach, packets, nstreams, offset).attains(bound),
    decreases packets.len(),
{
    if packets.len() > 0 {
        let rest = packets.skip(1);
        let next = if packets[0].stream < nstreams {
            reach.with(
                shifted(packets[0].times.dts, offset),
                shifted(packets[0].times.end, offset),
            )
        } else {
            reach
        };
        assert forall|p: int| 0 <= p < rest.len() implies ((#[trigger] rest[p]).times.dts matches Some(
            d,
        ) ==> d + offset < bound) by {
            assert(rest[p] == packets[p + 1]);
        }
        lemma_dts_bound(next, rest, nstreams, offset, bound);
    }
}

/// A packet ends after both of its timestamps, as far as that can be counted.
pub proof fn law_packet_ends_after_its_timestamps(pts: Option<i64>, dts: Option<i64>, duration: i64)
    ensures
        pts matches Some(t) ==> (t < i64::MAX ==> crate::concat::end_of(pts, dts, duration) is Some
            && crate::concat::end_of(pts, dts, duration)->0 > t),
        dts matches Some(t) ==> (t < i64::MAX ==> crate::concat::end_of(pts, dts, duration) is Some
            && crate::concat::end_of(pts, dts, duration)->0 > t),
{
}

/// Within a file the distance between any two timestamps stays what it was,
/// and what has no timestamp gets none.
pub proof fn law_moving_keeps_distances(a: Option<i64>, b: Option<i64>, shift: i64)
    ensures
        crate::concat::moved(a, shift) is Some <==> a is Some,
        a is Some && b is Some ==> crate::concat::moved(a, shift)->0 - crate::concat::moved(
            b,
            shift,
        )->0 == a->0 - b->0,
        crate::concat::moved(a, 0) == (match a {
            Some(t) => Some(t as int),
            None => None,
        }),
{
}

/// A timestamp is moved by exactly the shift, however large, and one that is
/// missing stays missing; it can be moved wherever the sum can be counted.
pub proof fn law_moving_adds_the_shift(t: i64, shift: i64)
    ensures
        crate::concat::moved(Some(t), shift) == Some(t + shift),
        crate::concat::moved(None, shift) == None::<int>,
        crate::concat::can_move(Some(t), shift) <==> i64::MIN <= t + shift <= i64::MAX,
        crate::concat::can_move(None, shift),
{
}

/// A packet of the file of number `i` that is decoded at the time `t` of its
/// file is written at `t` and the offset of its file, added up; and of any two
/// packets of different files, the one of the earlier file is decoded first, as
/// long as the later file has no timestamp before the one that it begins at.
pub proof fn law_written_times_increase(
    files: Seq<InputFile>,
    nstreams: usize,
    i: nat,
    p: int,
    j: nat,
    q: int,
)
    requires
        times_fit(files, nstreams),
        i < j < files.len(),
        0 <= p < files[i as int].packets.len(),
        0 <= q < files[j as int].packets.len(),
        files[i as int].packets[p].stream < nstreams,
        files[j as int].packets[q].stream < nstreams,
        files[i as int].packets[p].times.dts is Some,
        files[j as int].packets[q].times.dts is Some,
        files[j as int].packets[q].times.dts->0 >= (match files[j as int].start {
            Some(t) => t as int,
            None => 0,
        }),
    ensures
        ({
            let a = offset(files, nstreams, i);
            let b = offset(files, nstreams, j);
            let s = files[i as int].packets[p].times.dts;
            let t = files[j as int].packets[q].times.dts;
            let first = crate::concat::moved(s, a as i64);
            let second = crate::concat::moved(t, b as i64);
            &&& first == Some(s->0 + a)
            &&& second == Some(t->0 + b)
            &&& first->0 < second->0
        }),
{
    lemma_running(files, nstreams, i);
    lemma_running(files, nstreams, j);
    assert(timeline(files, nstreams, i).running <= offset(files, nstreams, i));
    assert(timeline(files, nstreams, j).running <= offset(files, nstreams, j));
    assert(0 <= offset(files, nstreams, i) <= i64::MAX);
    assert(0 <= offset(files, nstreams, j) <= i64::MAX);
    law_decoding_times_increase(
        files,
        nstreams,
        i,
        p,
        j,
        files[j as int].packets[q].times.dts->0 as int,
    );
}

/// The first file is not moved, and no file is moved back.
pub proof fn law_first_file_is_not_moved(files: Seq<InputFile>, nstreams: usize, k: nat)
    ensures
        offset(files, nstreams, 0) == 0,
        offset(files, nstreams, k) >= 0,
{
    lemma_running(files, nstreams, k);
}

/// Whether a packet that is written of one of the files before number `k` is
/// decoded at `time` or later.
pub open spec fn reached(files: Seq<InputFile>, nstreams: usize, k: nat, time: int) -> bool {
    exists|i: nat, p: int| #[trigger] decoded_by(files, nstreams, k, i, p, time)
}

/// Whether packet `p` of file `i`, one of the files before number `k`, is
/// written and decoded at `time` or later.
pub open spec fn decoded_by(
    files: Seq<InputFile>,
    nstreams: usize,
    k: nat,
    i: nat,
    p: int,
    time: int,
) -> bool {
    &&& i < k
    &&& 0 <= p < files[i as int].packets.len()
    &&& files[i as int].packets[p].stream < nstreams
    &&& files[i as int].packets[p].times.dts matches Some(d)
    &&& offset(files, nstreams, i) + d >= time
}

/// Where a reach of a file comes from: the packet that gives it.
proof fn lemma_dts_has_a_packet(
    reach: Reach,
    packets: Seq<InputPacket>,
    nstreams: usize,
    offset: int,
) -> (p: int)
    ensures
        ({
            let far = reach_after(reach, packets, nstreams, offset);
            ||| far.dts == reach.dts
            ||| (0 <= p < packets.len() && packets[p].stream < nstreams
                && packets[p].times.dts is Some && far.dts == Some(
                offset + packets[p].times.dts->0,
            ))
        }),
    decreases packets.len(),
{
    if packets.len() == 0 {
        0
    } else {
        let rest = packets.skip(1);
        let next = if packets[0].stream < nstreams {
            reach.with(
                shifted(packets[0].times.dts, offset),
                shifted(packets[0].times.end, offset),
            )
        } else {
            reach
        };
        let p = lemma_dts_has_a_packet(next, rest, nstreams, offset);
        if reach_after(next, rest, nstreams, offset).dts == next.dts {
            0
        } else {
            assert(rest[p] == packets[p + 1]);
            p + 1
        }
    }
}

/// Where the end of a file comes from: the packet that gives it.
proof fn lemma_end_has_a_packet(
    reach: Reach,
    packets: Seq<InputPacket>,
    nstreams: usize,
    offset: int,
) -> (p: int)
    ensures
        ({
            let far = reach_after(reach, packets, nstreams, offset);
            ||| far.end == reach.end
            ||| (0 <= p < packets.len() && packets[p].stream < nstreams
                && packets[p].times.end is Some && far.end == Some(
                offset + packets[p].times.end->0,
            ))
        }),
    decreases packets.len(),
{
    if packets.len() == 0 {
        0
    } else {
        let rest = packets.skip(1);
        let next = if packets[0].stream < nstreams {
            reach.with(
                shifted(packets[0].times.dts, offset),
                shifted(packets[0].times.end, offset),
            )
        } else {
            reach
        };
        let p = lemma_end_has_a_packet(next, rest, nstreams, offset);
        if reach_after(next, rest, nstreams, offset).end == next.end {
            0
        } else {
            assert(rest[p] == packets[p + 1]);
            p + 1
        }
    }
}

/// Where the time at which the last packet is over comes from: the packet that
/// gives it.
proof fn lemma_next_has_a_packet(
    reach: Reach,
    packets: Seq<InputPacket>,
    nstreams: usize,
    offset: int,
) -> (p: int)
    ensures
        ({
            let far = reach_after(reach, packets, nstreams, offset);
            ||| far.next == reach.next
            ||| (0 <= p < packets.len() && packets[p].stream < nstreams && far.next is Some && (
            (packets[p].times.end is Some && far.next->0 == offset + packets[p].times.end->0) || (
            packets[p].times.dts is Some && far.next->0 == offset + packets[p].times.dts->0 + 1)))
        }),
    decreases packets.len(),
{
    if packets.len() == 0 {
        0
    } else {
        let rest = packets.skip(1);
        let next = if packets[0].stream < nstreams {
            reach.with(
                shifted(packets[0].times.dts, offset),
                shifted(packets[0].times.end, offset),
            )
        } else {
            reach
        };
        let p = lemma_next_has_a_packet(next, rest, nstreams, offset);
        if reach_after(next, rest, nstreams, offset).next == next.next {
            0
        } else {
            assert(rest[p] == packets[p + 1]);
            p + 1
        }
    }
}

/// The latest decoding time before a file reaches a time exactly where some
/// packet does.
proof fn lemma_reached(files: Seq<InputFile>, nstreams: usize, k: nat, time: int)
    ensures
        timeline(files, nstreams, k).reach.attains(time) <==> reached(files, nstreams, k, time),
    decreases k,
{
    if k > 0 {
        let j = (k - 1) as nat;
        let packets = files[j as int].packets;
        let at = offset(files, nstreams, j);
        let before = timeline(files, nstreams, j).reach;
        lemma_reached(files, nstreams, j, time);
        lemma_dts_grows(files, nstreams, j, j);
        if timeline(files, nstreams, k).reach.attains(time) {
            let p = lemma_dts_has_a_packet(before.opened(), packets, nstreams, at);
            if timeline(files, nstreams, k).reach.dts == before.dts {
                let (i, q) = choose|i: nat, q: int| #[trigger]
                    decoded_by(files, nstreams, j, i, q, time);
                assert(decoded_by(files, nstreams, k, i, q, time));
            } else {
                assert(decoded_by(files, nstreams, k, j, p, time));
            }
        }
        if reached(files, nstreams, k, time) {
            let (i, q) = choose|i: nat, q: int| #[trigger]
                decoded_by(files, nstreams, k, i, q, time);
            lemma_dts_grows(files, nstreams, i, i);
            lemma_reach(
                timeline(files, nstreams, i).reach.opened(),
                files[i as int].packets,
                nstreams,
                offset(files, nstreams, i),
                q,
            );
            lemma_dts_grows(files, nstreams, i + 1, k);
        }
    } else {
        assert(!reached(files, nstreams, k, time)) by {
            if reached(files, nstreams, k, time) {
                let (i, q) = choose|i: nat, q: int| #[trigger]
                    decoded_by(files, nstreams, k, i, q, time);
            }
        }
    }
}

/// A file that reports its duration is followed exactly when that is over,
/// unless a packet that was written is decoded when the next file begins, or
/// later.
pub proof fn law_next_file_begins_when_the_duration_is_over(
    files: Seq<InputFile>,
    nstreams: usize,
    k: nat,
)
    requires
        k + 1 < files.len(),
        files[k as int].duration > 0,
        !reached(
            files,
            nstreams,
            k + 1,
            offset(files, nstreams, k) + files[k as int].duration + (match files[k + 1int].start {
                Some(t) => t as int,
                None => 0,
            }),
        ),
    ensures
        offset(files, nstreams, k + 1) == offset(files, nstreams, k) + files[k as int].duration,
{
    lemma_reached(
        files,
        nstreams,
        k + 1,
        offset(files, nstreams, k) + files[k as int].duration + files[k + 1int].first(),
    );
}

/// Where a packet that was written is decoded when the next file would begin,
/// or later, that file begins after all packets of the one before it have
/// ended.
pub proof fn law_reached_file_begins_where_packets_end(
    files: Seq<InputFile>,
    nstreams: usize,
    k: nat,
    p: int,
)
    requires
        k + 1 < files.len(),
        reached(
            files,
            nstreams,
            k + 1,
            offset(files, nstreams, k) + (if files[k as int].duration > 0 {
                files[k as int].duration as int
            } else {
                0
            }) + (match files[k + 1int].start {
                Some(t) => t as int,
                None => 0,
            }),
        ),
        0 <= p < files[k as int].packets.len(),
        files[k as int].packets[p].stream < nstreams,
        files[k as int].packets[p].times.end is Some,
    ensures
        offset(files, nstreams, k) + files[k as int].packets[p].times.end->0 <= offset(
            files,
            nstreams,
            k + 1,
        ) + (match files[k + 1int].start {
            Some(t) => t as int,
            None => 0,
        }),
{
    lemma_reached(
        files,
        nstreams,
        k + 1,
        offset(files, nstreams, k) + counted(files[k as int].duration) + files[k + 1int].first(),
    );
    lemma_dts_grows(files, nstreams, k, k);
    lemma_reach(
        timeline(files, nstreams, k).reach.opened(),
        files[k as int].packets,
        nstreams,
        offset(files, nstreams, k),
        p,
    );
}

/// Whether packet `p` of file `i`, one of the files before number `k`, is
/// written and ends at `time`, or is decoded one microsecond before.
pub open spec fn over_at(
    files: Seq<InputFile>,
    nstreams: usize,
    k: nat,
    i: nat,
    p: int,
    time: int,
) -> bool {
    let packet = files[i as int].packets[p];
    &&& i < k
    &&& 0 <= p < files[i as int].packets.len()
    &&& packet.stream < nstreams
    &&& (packet.times.end is Some && offset(files, nstreams, i) + packet.times.end->0 == time) || (
    packet.times.dts is Some && offset(files, nstreams, i) + packet.times.dts->0 + 1 == time)
}

proof fn lemma_next_is_over(files: Seq<InputFile>, nstreams: usize, k: nat)
    ensures
        timeline(files, nstreams, k).reach.next matches Some(n) ==> exists|i: nat, p: int|
            #[trigger] over_at(files, nstreams, k, i, p, n),
    decreases k,
{
    if k > 0 {
        let j = (k - 1) as nat;
        let before = timeline(files, nstreams, j).reach;
        lemma_next_is_over(files, nstreams, j);
        let p = lemma_next_has_a_packet(
            before.opened(),
            files[j as int].packets,
            nstreams,
            offset(files, nstreams, j),
        );
        if timeline(files, nstreams, k).reach.next is Some {
            let n = timeline(files, nstreams, k).reach.next->0;
            if timeline(files, nstreams, k).reach.next == before.next {
                let (i, q) = choose|i: nat, q: int| #[trigger]
                    over_at(files, nstreams, j, i, q, n);
                assert(over_at(files, nstreams, k, i, q, n));
            } else {
                assert(over_at(files, nstreams, k, j, p, n));
            }
        }
    }
}

/// No file is moved further than it has to be: it begins when the file before
/// it has lasted as long as it reports, or else right when some packet that was
/// written is over.
pub proof fn law_no_file_begins_later_than_needed(
    files: Seq<InputFile>,
    nstreams: usize,
    k: nat,
    start: int,
)
    requires
        k + 1 < files.len(),
        files[k + 1int].start matches Some(t) ==> start == t,
        files[k + 1int].start is None ==> start == 0,
    ensures
        ({
            let time = offset(files, nstreams, k + 1) + start;
            ||| offset(files, nstreams, k + 1) == offset(files, nstreams, k) + (
            if files[k as int].duration > 0 {
                files[k as int].duration as int
            } else {
                0
            })
            ||| exists|i: nat, p: int| #[trigger] over_at(files, nstreams, k + 1, i, p, time)
        }),
{
    let running = offset(files, nstreams, k) + counted(files[k as int].duration);
    let time = offset(files, nstreams, k + 1) + start;
    let reach = timeline(files, nstreams, k + 1).reach;
    lemma_next_is_over(files, nstreams, k + 1);
    let p = lemma_end_has_a_packet(
        timeline(files, nstreams, k).reach.opened(),
        files[k as int].packets,
        nstreams,
        offset(files, nstreams, k),
    );
    if time != running + start {
        if reach.end == Some(time) {
            assert(over_at(files, nstreams, k + 1, k, p, time));
        } else {
            assert(reach.next == Some(time));
        }
    }
}

/// A packet ends when its duration, or one tick where that is less, is over
/// after the later of its timestamps; a time that cannot be counted is the last
/// one that can, and what has no timestamp has no end.
pub proof fn law_packet_end_is_timestamp_and_duration(t: i64, u: i64, duration: i64)
    requires
        u <= t,
    ensures
        ({
            let length: int = if duration >= 1 {
                duration as int
            } else {
                1
            };
            let end = Some(
                if t + length <= i64::MAX {
                    t + length
                } else {
                    i64::MAX as int
                },
            );
            &&& crate::concat::end_of(Some(t), Some(u), duration) == end
            &&& crate::concat::end_of(Some(u), Some(t), duration) == end
            &&& crate::concat::end_of(Some(t), None, duration) == end
            &&& crate::concat::end_of(None, Some(t), duration) == end
            &&& crate::concat::end_of(None, None, duration) == None::<int>
        }),
{
}

/// An answer can be taken exactly where every sum that it leads to can be
/// counted: the packets, the files, the running duration, the decoding time of
/// the packet at hand, and the offset of a file that was opened.
pub proof fn law_room_is_what_can_be_counted(job: Concat, reply: ConcatReply)
    ensures
        job.has_room(reply) <==> {
            &&& job.count < i64::MAX
            &&& job.current < usize::MAX
            &&& job.dur_us > 0 ==> job.offset_us + job.dur_us <= i64::MAX
            &&& job.packet.dts matches Some(d) ==> i64::MIN <= d + job.offset_us < i64::MAX
            &&& reply matches ConcatReply::Opened(_, start) ==> job.offset_for(start) <= i64::MAX
        },
{
}

/// Whether this is an answer to that task, and not one that tells of a failure.
pub open spec fn fits(task: ConcatTask, reply: ConcatReply) -> bool {
    match task {
        ConcatTask::OpenFirst => reply is Streams,
        ConcatTask::WriteHeader => reply is Header,
        ConcatTask::OpenInput(_) => reply is Opened,
        ConcatTask::Read => reply is Packet || reply is End,
        ConcatTask::Finished(_) | ConcatTask::Failed(_) => true,
        _ => reply is Done,
    }
}

/// A job fails exactly where a call failed or where the answer is none to the
/// task, and tells which of the two it was. A job that is over stays as it is,
/// and one that ends well reports how many packets were written.
pub proof fn law_concat_fails_only_for_a_reason(job: Concat, reply: ConcatReply)
    ensures
        ({
            let next = job.after(reply);
            let over = job.task is Finished || job.task is Failed;
            &&& over ==> next == job
            &&& !over && reply is Failed ==> next.task == ConcatTask::Failed(
                crate::media::Failure::Engine,
            )
            &&& !over && !(reply is Failed) && !fits(job.task, reply) ==> next.task
                == ConcatTask::Failed(crate::media::Failure::Protocol)
            &&& !over && fits(job.task, reply) ==> !(next.task is Failed)
            &&& !over && next.task is Failed ==> next.count == job.count && next.current
                == job.current && next.offset_us == job.offset_us
            &&& !over ==> (next.task is Finished <==> job.task is WriteTrailer && reply is Done)
            &&& !over && next.task is Finished ==> next.task == ConcatTask::Finished(job.count)
        }),
{
}

/// A packet is written exactly where the output has a stream of its number, to
/// that stream and with its own times; others are passed over. While the
/// packets of a file move, its offset, its duration and its number stay what
/// they are, and every packet that is written counts.
pub proof fn law_packets_go_to_their_streams(job: Concat, reply: ConcatReply)
    ensures
        ({
            let next = job.after(reply);
            &&& job.task is Read ==> (reply matches ConcatReply::Packet(stream, times) ==> {
                &&& stream < job.nstreams ==> next.task == ConcatTask::WritePacket(stream)
                    && next.packet == times
                &&& stream >= job.nstreams ==> next == job
            })
            &&& (job.task is Read && reply is Packet) || job.task is WritePacket ==> {
                &&& next.offset_us == job.offset_us
                &&& next.dur_us == job.dur_us
                &&& next.current == job.current
            }
            &&& job.task is WritePacket && reply is Done && job.count < i64::MAX ==> next.count
                == job.count + 1 && next.task is Read
            &&& !(job.task is WritePacket && reply is Done) ==> next.count == job.count
            &&& next.files == job.files
            &&& job.task is WriteHeader ==> (reply matches ConcatReply::Header(n) ==> next.nstreams
                == n && next.task == (if job.current < job.files {
                ConcatTask::OpenInput(job.current)
            } else {
                ConcatTask::WriteTrailer
            }))
            &&& job.task is OpenFirst ==> (reply matches ConcatReply::Streams(n) ==> next.nstreams
                == n)
            &&& !(job.task is OpenFirst || job.task is WriteHeader) ==> next.nstreams
                == job.nstreams
            &&& job.task is Read && reply is End && job.current < usize::MAX ==> next.current
                == job.current + 1
            &&& !(job.task is Read && reply is End) ==> next.current == job.current
            &&& job.task is OpenInput ==> (reply matches ConcatReply::Opened(d, _) ==> next.dur_us
                == d && next.task is Read)
        }),
{
}

/// Whether the latest decoding time is `dts`, and the packet of that time is
/// not over before `end`.
spec fn covers(reach: Reach, dts: int, end: int) -> bool {
    reach.dts == Some(dts) && reach.next is Some && reach.next->0 >= end
}

proof fn lemma_latest_in_file(
    reach: Reach,
    packets: Seq<InputPacket>,
    nstreams: usize,
    offset: int,
    p: int,
    dts: int,
    end: int,
)
    requires
        p < 0 ==> covers(reach, dts, end),
        p >= 0 ==> {
            &&& !reach.attains(dts + 1)
            &&& 0 <= p < packets.len()
            &&& packets[p].stream < nstreams
            &&& shifted(packets[p].times.dts, offset) == Some(dts)
            &&& shifted(packets[p].times.end, offset) == Some(end)
        },
        forall|q: int|
            0 <= q < packets.len() && q > p && (#[trigger] packets[q]).stream < nstreams ==> (
            packets[q].times.dts matches Some(d) ==> d + offset < dts),
        forall|q: int|
            0 <= q < packets.len() && q < p && (#[trigger] packets[q]).stream < nstreams ==> (
            packets[q].times.dts matches Some(d) ==> d + offset <= dts),
    ensures
        covers(reach_after(reach, packets, nstreams, offset), dts, end),
    decreases packets.len(),
{
    if packets.len() > 0 {
        let rest = packets.skip(1);
        let next = if packets[0].stream < nstreams {
            reach.with(
                shifted(packets[0].times.dts, offset),
                shifted(packets[0].times.end, offset),
            )
        } else {
            reach
        };
        assert forall|q: int|
            0 <= q < rest.len() && q > p - 1 && (#[trigger] rest[q]).stream < nstreams implies (
        rest[q].times.dts matches Some(d) ==> d + offset < dts) by {
            assert(rest[q] == packets[q + 1]);
        }
        assert forall|q: int|
            0 <= q < rest.len() && q < p - 1 && (#[trigger] rest[q]).stream < nstreams implies (
        rest[q].times.dts matches Some(d) ==> d + offset <= dts) by {
            assert(rest[q] == packets[q + 1]);
        }
        if p > 0 {
            assert(rest[p - 1] == packets[p]);
            assert(packets[0].stream < nstreams ==> (packets[0].times.dts matches Some(d) ==> d
                + offset <= dts));
        }
        lemma_latest_in_file(next, rest, nstreams, offset, p - 1, dts, end);
    }
}

/// Whether packet `p` of file `i` is written, with these times, no packet of
/// the files before number `k` is decoded later, and none that is written after
/// it is decoded at the same time.
pub open spec fn is_latest(
    files: Seq<InputFile>,
    nstreams: usize,
    k: nat,
    i: nat,
    p: int,
    dts: int,
    end: int,
) -> bool {
    &&& i < k
    &&& 0 <= p < files[i as int].packets.len()
    &&& files[i as int].packets[p].stream < nstreams
    &&& files[i as int].packets[p].times.dts is Some
    &&& files[i as int].packets[p].times.end is Some
    &&& offset(files, nstreams, i) + files[i as int].packets[p].times.dts->0 == dts
    &&& offset(files, nstreams, i) + files[i as int].packets[p].times.end->0 == end
    &&& forall|j: nat, q: int|
        (j > i || (j == i && q > p)) ==> !(#[trigger] decoded_by(files, nstreams, k, j, q, dts))
    &&& forall|j: nat, q: int| !(#[trigger] decoded_by(files, nstreams, k, j, q, dts + 1))
}

proof fn lemma_latest(
    files: Seq<InputFile>,
    nstreams: usize,
    k: nat,
    i: nat,
    p: int,
    dts: int,
    end: int,
)
    requires
        is_latest(files, nstreams, k, i, p, dts, end),
    ensures
        covers(timeline(files, nstreams, k).reach, dts, end),
    decreases k,
{
    let j = (k - 1) as nat;
    let packets = files[j as int].packets;
    let at = offset(files, nstreams, j);
    let before = timeline(files, nstreams, j).reach.opened();
    assert forall|q: int|
        0 <= q < packets.len() && (j > i || q > p) && (#[trigger] packets[q]).stream
            < nstreams implies (packets[q].times.dts matches Some(d) ==> d + at < dts) by {
        assert(!decoded_by(files, nstreams, k, j, q, dts));
    }
    assert forall|q: int|
        0 <= q < packets.len() && (#[trigger] packets[q]).stream < nstreams implies (
    packets[q].times.dts matches Some(d) ==> d + at <= dts) by {
        assert(!decoded_by(files, nstreams, k, j, q, dts + 1));
    }
    if j == i {
        lemma_reached(files, nstreams, j, dts + 1);
        assert(!reached(files, nstreams, j, dts + 1)) by {
            if reached(files, nstreams, j, dts + 1) {
                let (a, q) = choose|a: nat, q: int| #[trigger]
                    decoded_by(files, nstreams, j, a, q, dts + 1);
                assert(decoded_by(files, nstreams, k, a, q, dts + 1));
            }
        }
        assert(!before.attains(dts + 1));
        lemma_latest_in_file(before, packets, nstreams, at, p, dts, end);
    } else {
        assert(is_latest(files, nstreams, j, i, p, dts, end)) by {
            assert forall|a: nat, q: int|
                (a > i || (a == i && q > p)) implies !(#[trigger] decoded_by(
                files,
                nstreams,
                j,
                a,
                q,
                dts,
            )) by {
                assert(!decoded_by(files, nstreams, k, a, q, dts));
            }
            assert forall|a: nat, q: int| !(#[trigger] decoded_by(
                files,
                nstreams,
                j,
                a,
                q,
                dts + 1,
            )) by {
                assert(!decoded_by(files, nstreams, k, a, q, dts + 1));
            }
        }
        lemma_latest(files, nstreams, j, i, p, dts, end);
        lemma_latest_in_file(before, packets, nstreams, at, -1, dts, end);
    }
}

/// A time that can be counted stays what it is, and any other becomes the
/// nearest one that can.
pub proof fn law_capped_time_is_the_nearest(t: int)
    ensures
        i64::MIN <= t <= i64::MAX ==> crate::concat::capped(Some(t)) == Some(t),
        t > i64::MAX ==> crate::concat::capped(Some(t)) == Some(i64::MAX as int),
        t < i64::MIN ==> crate::concat::capped(Some(t)) == Some(i64::MIN as int),
        crate::concat::capped(None) == None::<int>,
{
}

/// Where a packet that was written is decoded when the next file would begin,
/// or later, that file begins after the packet that is decoded last has ended,
/// whichever file that one is of.
pub proof fn law_reached_file_waits_for_the_latest_packet(
    files: Seq<InputFile>,
    nstreams: usize,
    k: nat,
    i: nat,
    p: int,
    dts: int,
    end: int,
    start: int,
)
    requires
        k + 1 < files.len(),
        files[k + 1int].start matches Some(t) ==> start == t,
        files[k + 1int].start is None ==> start == 0,
        is_latest(files, nstreams, k + 1, i, p, dts, end),
        dts >= offset(files, nstreams, k) + (if files[k as int].duration > 0 {
            files[k as int].duration as int
        } else {
            0
        }) + start,
    ensures
        end <= offset(files, nstreams, k + 1) + start,
        dts < offset(files, nstreams, k + 1) + start,
{
    lemma_latest(files, nstreams, k + 1, i, p, dts, end);
    lemma_dts_grows(files, nstreams, k + 1, k + 1);
}

/// A file that reports no duration, and into whose successor no decoding time
/// reaches, is followed at once or right when one of its own packets ends, and
/// not later for the sake of packets of other files.
pub proof fn law_unreported_file_is_followed_no_later(
    files: Seq<InputFile>,
    nstreams: usize,
    k: nat,
    start: int,
)
    requires
        k + 1 < files.len(),
        files[k as int].duration <= 0,
        files[k + 1int].start matches Some(t) ==> start == t,
        files[k + 1int].start is None ==> start == 0,
        !reached(files, nstreams, k + 1, offset(files, nstreams, k) + start),
    ensures
        offset(files, nstreams, k + 1) == offset(files, nstreams, k) || exists|p: int|
            {
                &&& 0 <= p < files[k as int].packets.len()
                &&& (#[trigger] files[k as int].packets[p]).stream < nstreams
                &&& files[k as int].packets[p].times.end is Some
                &&& offset(files, nstreams, k) + files[k as int].packets[p].times.end->0 == offset(
                    files,
                    nstreams,
                    k + 1,
                ) + start
            },
{
    lemma_reached(files, nstreams, k + 1, offset(files, nstreams, k) + start);
    let p = lemma_end_has_a_packet(
        timeline(files, nstreams, k).reach.opened(),
        files[k as int].packets,
        nstreams,
        offset(files, nstreams, k),
    );
    if offset(files, nstreams, k + 1) != offset(files, nstreams, k) {
        assert(files[k as int].packets[p].stream < nstreams);
    }
}

/// A job opens its output and then the first file, adds a stream for each one
/// of that file, in their order, and writes the header; then it opens one file
/// after the other, by their numbers, reads each to its end, and ends with the
/// trailer once there are no more.
pub proof fn law_concat_works_in_order(job: Concat, reply: ConcatReply)
    ensures
        Concat::fresh(job.files).task is OpenOutput,
        Concat::fresh(job.files).files == job.files,
        Concat::fresh(job.files).current == 0,
        Concat::fresh(job.files).count == 0,
        Concat::fresh(job.files).offset_us == 0,
        ({
            let next = job.after(reply);
            &&& job.task is OpenOutput && reply is Done ==> next.task is OpenFirst
            &&& job.task is OpenFirst ==> (reply matches ConcatReply::Streams(n) ==> {
                &&& n > 0 ==> next.task == ConcatTask::AddStream(0)
                &&& n == 0 ==> next.task is WriteHeader
            })
            &&& job.task matches ConcatTask::AddStream(i) ==> (reply is Done ==> {
                &&& i + 1 < job.nstreams ==> next.task == ConcatTask::AddStream((i + 1) as usize)
                &&& i + 1 >= job.nstreams ==> next.task is WriteHeader
            })
            &&& job.task is Read && reply is End && job.current < usize::MAX ==> {
                &&& job.current + 1 < job.files ==> next.task == ConcatTask::OpenInput(
                    (job.current + 1) as usize,
                )
                &&& job.current + 1 >= job.files ==> next.task is WriteTrailer
            }
        }),
{
}

} // verus!
