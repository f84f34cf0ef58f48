use chuks_ffmpeg::concat::{
    chuks_ffmpeg_concat_add, chuks_ffmpeg_concat_new, chuks_ffmpeg_concat_run, finish_concat_run,
    packet_end, shift_timestamp, Concat, ConcatReply, ConcatTask, PacketTimes,
};
use chuks_ffmpeg::media::{Failure, PacketStamp, Rational, StreamPick};
use chuks_ffmpeg::mux::{
    chuks_ffmpeg_mux, finish_mux, ordering_dts, Mux, MuxReply, MuxTask,
};
use chuks_ffmpeg::session::{chuks_ffmpeg_last_error, Session};

fn message(s: &Session) -> String {
    chuks_ffmpeg_last_error(s).unwrap_or_default()
}

fn set_up_mux() -> Mux {
    let mut m = Mux::new();
    let replies = [
        (MuxTask::OpenVideoInput, MuxReply::Done),
        (MuxTask::OpenAudioInput, MuxReply::Done),
        (
            MuxTask::PickVideo,
            MuxReply::Picked(Some(StreamPick { index: 0, time_base: Rational::new(1, 15360) })),
        ),
        (
            MuxTask::PickAudio,
            MuxReply::Picked(Some(StreamPick { index: 1, time_base: Rational::new(1, 44100) })),
        ),
        (MuxTask::OpenOutput, MuxReply::Done),
        (MuxTask::AddVideo, MuxReply::Done),
        (MuxTask::AddAudio, MuxReply::Done),
        (
            MuxTask::WriteHeader,
            MuxReply::Header(Rational::new(1, 90000), Rational::new(1, 48000)),
        ),
    ];
    for (task, reply) in replies {
        assert_eq!(m.task, task);
        m.advance(reply);
    }
    m
}

fn drive_mux(video: &[(usize, i64)], audio: &[(usize, i64)]) -> (Vec<(bool, i64)>, MuxTask) {
    let mut m = set_up_mux();
    let mut written = Vec::new();
    let (mut v, mut a) = (0, 0);
    loop {
        let reply = match m.task {
            MuxTask::ReadVideo if v < video.len() => {
                v += 1;
                MuxReply::Packet(video[v - 1].0, video[v - 1].1)
            }
            MuxTask::ReadAudio if a < audio.len() => {
                a += 1;
                MuxReply::Packet(audio[a - 1].0, audio[a - 1].1)
            }
            MuxTask::ReadVideo | MuxTask::ReadAudio => MuxReply::End,
            MuxTask::WriteVideo => {
                written.push((true, m.video.pending.unwrap_or(-1)));
                MuxReply::Done
            }
            MuxTask::WriteAudio => {
                written.push((false, m.audio.pending.unwrap_or(-1)));
                MuxReply::Done
            }
            MuxTask::WriteTrailer => MuxReply::Done,
            task => return (written, task),
        };
        m.advance(reply);
    }
}

#[test]
fn mux_merges_by_time() {
    let (written, end) = drive_mux(
        &[(0, 0), (0, 40), (0, 80)],
        &[(1, 0), (1, 23), (1, 46), (1, 200)],
    );
    assert_eq!(
        written,
        [
            (true, 0),
            (false, 0),
            (false, 23),
            (true, 40),
            (false, 46),
            (true, 80),
            (false, 200)
        ]
    );
    assert_eq!(end, MuxTask::Finished(3));
}

#[test]
fn mux_skips_other_streams() {
    let (written, end) = drive_mux(&[(3, 5), (0, 10), (1, 0)], &[(0, 1), (1, 2), (2, 3)]);
    assert_eq!(written, [(false, 2), (true, 10)]);
    assert_eq!(end, MuxTask::Finished(1));
}

#[test]
fn mux_of_empty_inputs_still_closes_the_file() {
    let (written, end) = drive_mux(&[], &[]);
    assert!(written.is_empty());
    assert_eq!(end, MuxTask::Finished(0));
    let (written, end) = drive_mux(&[], &[(1, 4), (1, 8)]);
    assert_eq!(written, [(false, 4), (false, 8)]);
    assert_eq!(end, MuxTask::Finished(0));
}

#[test]
fn mux_needs_both_streams() {
    let mut m = Mux::new();
    m.advance(MuxReply::Done);
    m.advance(MuxReply::Done);
    let mut other = m;
    m.advance(MuxReply::Picked(None));
    assert_eq!(m.task, MuxTask::Failed(Failure::StreamNotFound));
    other.advance(MuxReply::Picked(Some(StreamPick {
        index: 0,
        time_base: Rational::new(1, 25),
    })));
    other.advance(MuxReply::Picked(None));
    assert_eq!(other.task, MuxTask::Failed(Failure::StreamNotFound));
}

#[test]
fn mux_stops_at_a_failed_call() {
    let mut m = Mux::new();
    m.advance(MuxReply::Failed);
    assert_eq!(m.task, MuxTask::Failed(Failure::Engine));
    let mut m = set_up_mux();
    m.advance(MuxReply::Done);
    assert_eq!(m.task, MuxTask::Failed(Failure::Protocol));
}

#[test]
fn mux_stamps_both_streams() {
    let m = set_up_mux();
    assert_eq!(
        m.video_stamp(),
        PacketStamp {
            stream: 0,
            duration: None,
            from: Rational::new(1, 15360),
            to: Rational::new(1, 90000),
            forget_position: true,
        }
    );
    assert_eq!(
        m.audio_stamp(),
        PacketStamp {
            stream: 1,
            duration: None,
            from: Rational::new(1, 44100),
            to: Rational::new(1, 48000),
            forget_position: true,
        }
    );
}

#[test]
fn packet_without_dts_is_ordered_at_zero() {
    assert_eq!(ordering_dts(None), 0);
    assert_eq!(ordering_dts(Some(-512)), -512);
}

#[test]
fn mux_request_names_what_is_missing() {
    let mut s = Session::new();
    let p: Option<&[u8]> = Some(b"x.mp4");
    assert!(matches!(chuks_ffmpeg_mux(&mut s, None, None, None), Err(-1)));
    assert_eq!(message(&s), "mux: null video path");
    assert!(matches!(chuks_ffmpeg_mux(&mut s, p, None, None), Err(-1)));
    assert_eq!(message(&s), "mux: null audio path");
    assert!(matches!(chuks_ffmpeg_mux(&mut s, p, p, Some(&[0xc0])), Err(-1)));
    assert_eq!(message(&s), "mux: null out path");
    match chuks_ffmpeg_mux(&mut s, Some(b"v.mp4"), Some(b"a.m4a"), Some(b"o.mp4")) {
        Ok(q) => {
            assert_eq!(q.video, "v.mp4");
            assert_eq!(q.audio, "a.m4a");
            assert_eq!(q.output, "o.mp4");
        }
        Err(_) => panic!("refused"),
    }
}

#[test]
fn mux_reports_packets_or_error() {
    let mut s = Session::new();
    assert_eq!(finish_mux(&mut s, Ok(12)), 12);
    assert_eq!(finish_mux(&mut s, Err("Stream not found".to_string())), -1);
    assert_eq!(message(&s), "mux: Stream not found");
}

/// Each file gives its duration, its start, and for each packet its stream,
/// its decoding time and the time at which it ends.
fn drive_concat(
    nstreams: usize,
    files: &[(i64, i64, &[(usize, i64, i64)])],
) -> (Vec<(usize, usize, i64)>, ConcatTask) {
    let mut c = Concat::new(files.len());
    let mut written = Vec::new();
    let mut added = Vec::new();
    let mut next = 0;
    loop {
        let reply = match c.task {
            ConcatTask::OpenOutput => ConcatReply::Done,
            ConcatTask::OpenFirst => ConcatReply::Streams(nstreams),
            ConcatTask::AddStream(i) => {
                added.push(i);
                ConcatReply::Done
            }
            ConcatTask::WriteHeader => {
                assert_eq!(added, (0..nstreams).collect::<Vec<usize>>());
                ConcatReply::Header(nstreams)
            }
            ConcatTask::OpenInput(k) => {
                assert_eq!(k, c.current);
                next = 0;
                ConcatReply::Opened(files[k].0, Some(files[k].1))
            }
            ConcatTask::Read => {
                if next < files[c.current].2.len() {
                    next += 1;
                    let (stream, dts, end) = files[c.current].2[next - 1];
                    ConcatReply::Packet(stream, PacketTimes { dts: Some(dts), end: Some(end) })
                } else {
                    ConcatReply::End
                }
            }
            ConcatTask::WritePacket(stream) => {
                written.push((c.current, stream, c.offset_us));
                ConcatReply::Done
            }
            ConcatTask::WriteTrailer => ConcatReply::Done,
            task => return (written, task),
        };
        assert!(c.can_take(reply));
        c.advance(reply);
    }
}

#[test]
fn files_are_joined_end_to_end() {
    let (written, end) = drive_concat(
        2,
        &[
            (2_000_000, 0, &[(0, 0, 1_000_000), (1, 0, 1_990_000), (0, 1_000_000, 2_000_000)]),
            (1_500_000, 0, &[(1, 0, 700_000), (0, 0, 1_500_000)]),
            (3_000_000, 0, &[(0, 0, 1_000_000)]),
        ],
    );
    assert_eq!(
        written,
        [
            (0, 0, 0),
            (0, 1, 0),
            (0, 0, 0),
            (1, 1, 2_000_000),
            (1, 0, 2_000_000),
            (2, 0, 3_500_000)
        ]
    );
    assert_eq!(end, ConcatTask::Finished(6));
}

#[test]
fn file_without_duration_is_followed_where_it_ends() {
    let (written, end) = drive_concat(
        2,
        &[
            (-1, 0, &[(0, 1_960_000, 2_000_000), (1, 1_880_000, 1_900_000)]),
            (0, 0, &[(0, 960_000, 1_000_000)]),
            (5_000_000, 0, &[(0, 0, 10)]),
            (7, 0, &[(1, 0, 7)]),
        ],
    );
    assert_eq!(
        written,
        [
            (0, 0, 0),
            (0, 1, 0),
            (1, 0, 2_000_000),
            (2, 0, 3_000_000),
            (3, 1, 8_000_000)
        ]
    );
    assert_eq!(end, ConcatTask::Finished(5));
}

#[test]
fn reported_duration_is_kept_however_long_packets_last() {
    let (written, _) = drive_concat(
        1,
        &[
            (2_000_000, 0, &[(0, 0, 40_000), (0, 1_960_000, 2_500_000)]),
            (2_000_000, 0, &[(0, 0, 900_000_000)]),
            (2_000_000, 0, &[(0, 0, 40_000)]),
        ],
    );
    assert_eq!(
        written,
        [(0, 0, 0), (0, 0, 0), (1, 0, 2_000_000), (2, 0, 4_000_000)]
    );
}

#[test]
fn file_that_decodes_past_its_duration_is_followed_where_it_ends() {
    let (written, _) = drive_concat(
        1,
        &[
            (1_000, 0, &[(0, 0, 500), (0, 1_000, 1_500)]),
            (1_000, 0, &[(0, 0, 1_000)]),
        ],
    );
    assert_eq!(written, [(0, 0, 0), (0, 0, 0), (1, 0, 1_500)]);
}

#[test]
fn unreported_file_is_measured_by_its_own_packets() {
    let (written, _) = drive_concat(
        1,
        &[
            (2_000, 0, &[(0, 1_900, 90_000)]),
            (0, 0, &[(0, 60, 100)]),
            (5, 0, &[(0, 0, 5)]),
        ],
    );
    assert_eq!(written, [(0, 0, 0), (1, 0, 2_000), (2, 0, 2_100)]);
}

#[test]
fn late_decoding_time_is_remembered_past_an_empty_file() {
    let (written, _) = drive_concat(
        1,
        &[
            (2_000, 0, &[(0, 2_200, 2_240)]),
            (0, 5_000, &[]),
            (5, 0, &[(0, 0, 5)]),
        ],
    );
    assert_eq!(written, [(0, 0, 0), (2, 0, 2_240)]);
}

#[test]
fn files_that_start_late_are_joined_without_a_gap() {
    let (written, _) = drive_concat(
        1,
        &[
            (2_000_000, 1_400_000, &[(0, 3_360_000, 3_400_000)]),
            (2_000_000, 1_400_000, &[(0, 3_360_000, 3_400_000)]),
            (2_000_000, 0, &[(0, 1_960_000, 2_000_000)]),
        ],
    );
    assert_eq!(written, [(0, 0, 0), (1, 0, 2_000_000), (2, 0, 5_400_000)]);
}

#[test]
fn unknown_start_counts_as_zero() {
    let mut known = Concat::new(1);
    let mut unknown = Concat::new(1);
    for reply in [
        ConcatReply::Done,
        ConcatReply::Streams(1),
        ConcatReply::Done,
        ConcatReply::Header(1),
    ] {
        known.advance(reply);
        unknown.advance(reply);
    }
    known.advance(ConcatReply::Opened(10, Some(0)));
    unknown.advance(ConcatReply::Opened(10, None));
    assert_eq!(known, unknown);
    assert_eq!(known.task, ConcatTask::Read);
}

#[test]
fn endless_packet_of_a_reported_file_does_no_harm() {
    let (written, end) = drive_concat(
        1,
        &[(10, 0, &[(0, 0, 10)]), (10, 0, &[(0, 0, i64::MAX)]), (10, 0, &[(0, 0, 10)])],
    );
    assert_eq!(written, [(0, 0, 0), (1, 0, 10), (2, 0, 20)]);
    assert_eq!(end, ConcatTask::Finished(3));
}

#[test]
fn packet_ends_a_tick_after_its_last_timestamp_at_least() {
    assert_eq!(packet_end(Some(10), Some(4), 5), Some(15));
    assert_eq!(packet_end(Some(4), Some(10), 0), Some(11));
    assert_eq!(packet_end(None, Some(-3), -9), Some(-2));
    assert_eq!(packet_end(Some(7), None, 1), Some(8));
    assert_eq!(packet_end(None, None, 5), None);
    assert_eq!(packet_end(Some(i64::MAX - 1), None, 5), Some(i64::MAX));
}

#[test]
fn times_out_of_range_are_not_taken() {
    let mut c = Concat::new(2);
    for reply in [
        ConcatReply::Done,
        ConcatReply::Streams(1),
        ConcatReply::Done,
        ConcatReply::Header(1),
        ConcatReply::Opened(i64::MAX, Some(0)),
        ConcatReply::End,
    ] {
        assert!(c.can_take(reply));
        c.advance(reply);
    }
    assert_eq!(c.offset_us, i64::MAX);
    assert!(c.can_take(ConcatReply::Opened(1, Some(0))));
    c.advance(ConcatReply::Opened(1, Some(0)));
    assert!(!c.can_take(ConcatReply::End));
}

#[test]
fn packets_without_an_output_stream_are_passed_over() {
    let (written, end) = drive_concat(
        1,
        &[(10, 0, &[(0, 0, 10), (1, 900, 900)]), (10, 0, &[(2, 0, 5), (0, 0, 10)])],
    );
    assert_eq!(written, [(0, 0, 0), (1, 0, 10)]);
    assert_eq!(end, ConcatTask::Finished(2));
}

#[test]
fn first_file_without_streams_gives_an_empty_output() {
    let (written, end) = drive_concat(0, &[(10, 0, &[(0, 0, 5), (1, 0, 6)])]);
    assert!(written.is_empty());
    assert_eq!(end, ConcatTask::Finished(0));
}

#[test]
fn concat_stops_at_a_failed_call() {
    let mut c = Concat::new(1);
    c.advance(ConcatReply::Failed);
    assert_eq!(c.task, ConcatTask::Failed(Failure::Engine));
    let mut c = Concat::new(1);
    c.advance(ConcatReply::End);
    assert_eq!(c.task, ConcatTask::Failed(Failure::Protocol));
}

#[test]
fn timestamps_move_together() {
    assert_eq!(shift_timestamp(Some(100), 900), Some(1000));
    assert_eq!(shift_timestamp(Some(-1024), 900), Some(-124));
    assert_eq!(shift_timestamp(None, 900), None);
}

#[test]
fn concat_is_put_together_file_by_file() {
    let mut s = Session::new();
    let mut b = chuks_ffmpeg_concat_new();
    assert_eq!(chuks_ffmpeg_concat_add(&mut s, Some(&mut b), Some(b"0.mp4")), 0);
    assert_eq!(chuks_ffmpeg_concat_add(&mut s, Some(&mut b), Some(b"1.mp4")), 0);
    assert_eq!(chuks_ffmpeg_concat_add(&mut s, Some(&mut b), None), -1);
    assert_eq!(message(&s), "concat_add: null path");
    assert_eq!(b.inputs, ["0.mp4", "1.mp4"]);
    match chuks_ffmpeg_concat_run(&mut s, Some(b), Some(b"all.mp4")) {
        Ok(q) => {
            assert_eq!(q.inputs, ["0.mp4", "1.mp4"]);
            assert_eq!(q.output, "all.mp4");
            assert_eq!(q.job, Concat::new(2));
        }
        Err(_) => panic!("refused"),
    }
}

#[test]
fn concat_requests_name_what_is_missing() {
    let mut s = Session::new();
    assert_eq!(chuks_ffmpeg_concat_add(&mut s, None, Some(b"0.mp4")), -1);
    assert_eq!(message(&s), "concat_add: null builder");
    assert!(matches!(chuks_ffmpeg_concat_run(&mut s, None, None), Err(-1)));
    assert_eq!(message(&s), "concat_run: null builder");
    let b = chuks_ffmpeg_concat_new();
    assert!(matches!(chuks_ffmpeg_concat_run(&mut s, Some(b), None), Err(-1)));
    assert_eq!(message(&s), "concat_run: null out path");
    let b = chuks_ffmpeg_concat_new();
    assert!(matches!(chuks_ffmpeg_concat_run(&mut s, Some(b), Some(b"o.mp4")), Err(-1)));
    assert_eq!(message(&s), "concat_run: no input files added");
}

#[test]
fn concat_reports_packets_or_error() {
    let mut s = Session::new();
    assert_eq!(finish_concat_run(&mut s, Ok(77)), 77);
    assert_eq!(finish_concat_run(&mut s, Err("Invalid argument".to_string())), -1);
    assert_eq!(message(&s), "concat: Invalid argument");
}
