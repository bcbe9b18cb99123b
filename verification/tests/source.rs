use std::sync::Arc;

use emulated_camera::frame::{Frame, Plane, FRAME_SIZE, HEIGHT, UV_SIZE, WIDTH, Y_SIZE};
use emulated_camera::path::HostPath;
use emulated_camera::source::{
    FillAction, FillEvent, FillOutcome, MediaSource, OneShotAction, OneShotEvent, OneShotReader,
    SourceState, StartAction, StartEvent, StopAction, StopEvent, FIRST_FRAME_DEADLINE_SECS,
    ONE_SHOT_DEADLINE_SECS,
};
use emulated_camera::stream::{
    EndOfStream, StreamAction, StreamEvent, StreamReader, BACKOFF_STEP_MS, MAX_RETRIES,
};

type Source = MediaSource<u32, &'static str>;

fn source(path: &str) -> Source {
    MediaSource::new(
        HostPath::new(path.as_bytes().to_vec()),
        HostPath::new(b"ffmpeg".to_vec()),
    )
}

fn pattern(seed: usize) -> Vec<u8> {
    (0..FRAME_SIZE).map(|i| ((i + seed) % 251) as u8).collect()
}

fn frame(seed: usize) -> Frame {
    Frame::new(&pattern(seed)).unwrap()
}

/// Fills three sinks, of which the one at `broken` refuses what is written to it.
fn fill(source: &Source, broken: Option<Plane>) -> (Result<FillOutcome, i32>, [Vec<u8>; 3]) {
    let mut sinks = [Vec::new(), Vec::new(), Vec::new()];
    let mut event = FillEvent::Requested;
    loop {
        match source.fill(event) {
            FillAction::Done(result) => return (result, sinks),
            FillAction::Write(write) => {
                if Some(write.plane()) == broken {
                    event = FillEvent::WriteFailed(write);
                    continue;
                }
                let sink = match write.plane() {
                    Plane::Y => &mut sinks[0],
                    Plane::U => &mut sinks[1],
                    Plane::V => &mut sinks[2],
                };
                sink.extend_from_slice(write.bytes());
                event = FillEvent::Written(write);
            }
        }
    }
}

/// Starts a video source; its decoder is `child`. Hands back the number of the run.
fn start_video(source: &mut Source, child: u32) -> u64 {
    assert!(matches!(
        source.ensure_started(StartEvent::Requested),
        StartAction::Teardown { .. }
    ));
    assert!(matches!(
        source.ensure_started(StartEvent::TornDown),
        StartAction::Reap(None)
    ));
    assert!(matches!(
        source.ensure_started(StartEvent::Reaped),
        StartAction::SpawnStream(_)
    ));
    assert_eq!(source.state(), SourceState::Running);
    let StartAction::StartStream { run, deadline_secs: 5 } = source.ensure_started(StartEvent::Spawned(child)) else {
        panic!("no stream to start");
    };
    assert!(matches!(
        source.ensure_started(StartEvent::StreamStarted {
            reader: "reader",
            watchdog: "watchdog"
        }),
        StartAction::Done
    ));
    run
}

/// Stops a source of which the reader left `leftover` behind.
fn stop(source: &mut Source, leftover: Option<u32>) {
    source.stop(StopEvent::Requested);
    match source.stop(StopEvent::TornDown) {
        StopAction::Reap(child) => assert_eq!(child, leftover),
        _ => panic!("nothing to reap"),
    }
    assert!(matches!(source.stop(StopEvent::Reaped), StopAction::Done));
    assert_eq!(source.state(), SourceState::Idle);
}

/// Hands a whole frame to the reader.
fn feed(source: &mut Source, reader: &mut StreamReader, seed: usize) -> StreamAction<u32> {
    source.read_stream(reader, StreamEvent::Data(pattern(seed)))
}

#[test]
fn sizes_of_the_planes() {
    assert_eq!((WIDTH, HEIGHT), (640, 480));
    assert_eq!(Y_SIZE, 307200);
    assert_eq!(UV_SIZE, 76800);
    assert_eq!(FRAME_SIZE, 460800);
}

#[test]
fn a_frame_needs_all_its_planes() {
    assert!(Frame::new(&vec![0; FRAME_SIZE - 1]).is_none());
    assert!(Frame::new(&[]).is_none());
    assert!(Frame::new(&vec![0; FRAME_SIZE]).is_some());
    let mut bytes = pattern(3);
    bytes.push(99);
    let frame = Frame::new(&bytes).unwrap();
    assert_eq!(frame.plane(Plane::Y), &bytes[..Y_SIZE]);
    assert_eq!(frame.plane(Plane::U), &bytes[Y_SIZE..Y_SIZE + UV_SIZE]);
    assert_eq!(frame.plane(Plane::V), &bytes[Y_SIZE + UV_SIZE..FRAME_SIZE]);
}

#[test]
fn filling_without_a_frame() {
    let (result, sinks) = fill(&source("clip.mp4"), None);
    assert_eq!(result, Ok(FillOutcome::NoFrame));
    assert_eq!(sinks, [Vec::new(), Vec::new(), Vec::new()]);
    let mut failed = source("clip.mp4");
    failed.set_failed_for_test();
    assert_eq!(fill(&failed, None).0, Ok(FillOutcome::NoFrame));
}

#[test]
fn filling_writes_the_whole_frame() {
    let mut source = source("clip.mp4");
    let mut bytes = pattern(7);
    bytes.push(99);
    source.set_latest_frame_for_test(Arc::new(Frame::new(&bytes).unwrap()));
    let (result, sinks) = fill(&source, None);
    assert_eq!(result, Ok(FillOutcome::Live));
    assert_eq!(sinks.concat(), &bytes[..FRAME_SIZE]);
    assert_eq!(sinks[0].len(), Y_SIZE);
    assert_eq!(sinks[1].len(), UV_SIZE);
    assert_eq!(sinks[2].len(), UV_SIZE);
    source.set_failed_for_test();
    let (result, sinks) = fill(&source, None);
    assert_eq!(result, Ok(FillOutcome::Frozen));
    assert_eq!(sinks.concat(), &bytes[..FRAME_SIZE]);
}

#[test]
fn a_sink_that_refuses_a_plane() {
    let mut source = source("clip.mp4");
    source.set_latest_frame_for_test(Arc::new(frame(0)));
    let (result, sinks) = fill(&source, Some(Plane::Y));
    assert_eq!(result, Err(5));
    assert_eq!(result, Err(libc::EIO));
    assert_eq!(sinks, [Vec::new(), Vec::new(), Vec::new()]);
    let (result, sinks) = fill(&source, Some(Plane::U));
    assert_eq!(result, Err(libc::EIO));
    assert_eq!((sinks[0].len(), sinks[1].len(), sinks[2].len()), (Y_SIZE, 0, 0));
    let (result, sinks) = fill(&source, Some(Plane::V));
    assert_eq!(result, Err(libc::EIO));
    assert_eq!((sinks[0].len(), sinks[1].len(), sinks[2].len()), (Y_SIZE, UV_SIZE, 0));
}

#[test]
fn a_frame_that_arrives_meanwhile_does_not_tear_the_planes() {
    let mut source = source("clip.mp4");
    source.set_latest_frame_for_test(Arc::new(frame(1)));
    let FillAction::Write(y) = source.fill(FillEvent::Requested) else {
        panic!("nothing to write");
    };
    let mut written = y.bytes().to_vec();
    source.set_latest_frame_for_test(Arc::new(frame(2)));
    let FillAction::Write(u) = source.fill(FillEvent::Written(y)) else {
        panic!("nothing to write");
    };
    written.extend_from_slice(u.bytes());
    let FillAction::Write(v) = source.fill(FillEvent::Written(u)) else {
        panic!("nothing to write");
    };
    written.extend_from_slice(v.bytes());
    assert_eq!(written, pattern(1));
    source.set_failed_for_test();
    assert!(matches!(
        source.fill(FillEvent::Written(v)),
        FillAction::Done(Ok(FillOutcome::Frozen))
    ));
}

#[test]
fn starting_twice_starts_once() {
    let mut source = source("clip.mp4");
    assert_eq!(source.state(), SourceState::Idle);
    start_video(&mut source, 1);
    assert!(matches!(
        source.ensure_started(StartEvent::Requested),
        StartAction::Done
    ));
    assert_eq!(source.state(), SourceState::Running);
    assert!(!source.stop_requested());
}

#[test]
fn stopping_hands_out_what_runs() {
    let mut source = source("clip.mp4");
    start_video(&mut source, 1);
    match source.stop(StopEvent::Requested) {
        StopAction::Teardown { child, reader, watchdog } => {
            assert_eq!(child, Some(1));
            assert_eq!(reader, Some("reader"));
            assert_eq!(watchdog, Some("watchdog"));
        }
        _ => panic!("no teardown"),
    }
    assert!(source.stop_requested());
    assert_eq!(source.state(), SourceState::Running);
    assert!(matches!(source.stop(StopEvent::TornDown), StopAction::Reap(None)));
    assert_eq!(source.state(), SourceState::Running);
    assert!(matches!(source.stop(StopEvent::Reaped), StopAction::Done));
    assert_eq!(source.state(), SourceState::Idle);
    assert!(matches!(
        source.stop(StopEvent::Requested),
        StopAction::Teardown { child: None, reader: None, watchdog: None }
    ));
    assert!(matches!(source.stop(StopEvent::TornDown), StopAction::Reap(None)));
    assert!(matches!(source.stop(StopEvent::Reaped), StopAction::Done));
}

#[test]
fn a_decoder_that_is_spawned_during_a_stop_is_reaped() {
    let mut source = source("clip.mp4");
    start_video(&mut source, 1);
    let mut reader = StreamReader::new();
    assert!(matches!(
        source.read_stream(&mut reader, StreamEvent::Ended),
        StreamAction::Backoff(100)
    ));
    assert!(matches!(
        source.read_stream(&mut reader, StreamEvent::BackedOff),
        StreamAction::Reap(Some(1))
    ));
    assert!(matches!(
        source.read_stream(&mut reader, StreamEvent::Reaped),
        StreamAction::Spawn(_)
    ));
    assert!(matches!(
        source.stop(StopEvent::Requested),
        StopAction::Teardown { child: None, reader: Some("reader"), watchdog: Some("watchdog") }
    ));
    assert!(matches!(
        source.read_stream(&mut reader, StreamEvent::Respawned(2)),
        StreamAction::Exit
    ));
    assert!(matches!(source.stop(StopEvent::TornDown), StopAction::Reap(Some(2))));
    assert!(matches!(source.stop(StopEvent::Reaped), StopAction::Done));
    assert_eq!(source.state(), SourceState::Idle);
}

#[test]
fn a_failed_source_can_be_started_again() {
    let mut source = source("clip.mp4");
    let run = start_video(&mut source, 1);
    source.set_failed_for_test();
    assert!(matches!(
        source.ensure_started(StartEvent::Requested),
        StartAction::Teardown {
            child: Some(1),
            reader: Some("reader"),
            watchdog: Some("watchdog")
        }
    ));
    assert!(matches!(
        source.ensure_started(StartEvent::TornDown),
        StartAction::Reap(None)
    ));
    assert!(matches!(
        source.ensure_started(StartEvent::Reaped),
        StartAction::SpawnStream(_)
    ));
    assert_eq!(source.state(), SourceState::Running);
    assert!(!source.stop_requested());
    let StartAction::StartStream { run: next, .. } = source.ensure_started(StartEvent::Spawned(2)) else {
        panic!("no stream to start");
    };
    assert_ne!(next, run);
}

#[test]
fn a_stream_decoder_that_cannot_be_spawned() {
    let mut source = source("clip.mp4");
    source.ensure_started(StartEvent::Requested);
    source.ensure_started(StartEvent::TornDown);
    source.ensure_started(StartEvent::Reaped);
    assert!(matches!(
        source.ensure_started(StartEvent::SpawnFailed),
        StartAction::Done
    ));
    assert_eq!(source.state(), SourceState::Failed);
}

#[test]
fn a_still_image_is_decoded_once() {
    let mut source = source("photo.jpg");
    source.ensure_started(StartEvent::Requested);
    source.ensure_started(StartEvent::TornDown);
    assert!(matches!(
        source.ensure_started(StartEvent::Reaped),
        StartAction::StartOneShot
    ));
    source.ensure_started(StartEvent::OneShotStarted("reader"));
    let mut reader = OneShotReader::new();
    match source.decode_one_shot(&mut reader, OneShotEvent::Begin) {
        OneShotAction::Spawn(line) => {
            assert_eq!(line.program.as_bytes(), b"ffmpeg");
            assert_eq!(line.args[4], "photo.jpg");
            assert_eq!(line.args[9..11], ["-frames:v", "1"]);
        }
        _ => panic!("nothing to spawn"),
    }
    let OneShotAction::StartReading { run, deadline_secs, wanted } =
        source.decode_one_shot(&mut reader, OneShotEvent::Spawned(4))
    else {
        panic!("nothing to read");
    };
    assert_eq!(wanted, FRAME_SIZE);
    let bytes = pattern(5);
    assert!(matches!(
        source.decode_one_shot(&mut reader, OneShotEvent::Data(bytes[..1000].to_vec())),
        OneShotAction::Read(459800)
    ));
    assert_eq!(fill(&source, None).0, Ok(FillOutcome::NoFrame));
    let mut rest = bytes[1000..].to_vec();
    rest.extend_from_slice(&[7, 7, 7]);
    assert!(matches!(
        source.decode_one_shot(&mut reader, OneShotEvent::Data(rest)),
        OneShotAction::Reap(Some(4))
    ));
    assert_eq!(source.one_shot_deadline(run), None);
    assert_eq!(source.state(), SourceState::Running);
    let (result, sinks) = fill(&source, None);
    assert_eq!(result, Ok(FillOutcome::Live));
    assert_eq!(sinks.concat(), bytes);
    assert_eq!((deadline_secs, ONE_SHOT_DEADLINE_SECS), (5, 5));
}

#[test]
fn a_still_image_that_cannot_be_decoded() {
    let mut reader = OneShotReader::new();
    let mut unspawned = source("photo.jpg");
    assert!(matches!(
        unspawned.decode_one_shot(&mut reader, OneShotEvent::SpawnFailed),
        OneShotAction::Exit
    ));
    assert_eq!(unspawned.state(), SourceState::Failed);
    let mut late = source("photo.jpg");
    let OneShotAction::StartReading { run, .. } =
        late.decode_one_shot(&mut reader, OneShotEvent::Spawned(4))
    else {
        panic!("nothing to read");
    };
    assert_eq!(late.one_shot_deadline(run + 1), None);
    assert_eq!(late.one_shot_deadline(run), Some(4));
    late.decode_one_shot(&mut reader, OneShotEvent::Data(vec![1; FRAME_SIZE - 1]));
    assert!(matches!(
        late.decode_one_shot(&mut reader, OneShotEvent::Ended),
        OneShotAction::KillAndReap(None)
    ));
    assert_eq!(late.state(), SourceState::Failed);
    assert_eq!(fill(&late, None).0, Ok(FillOutcome::NoFrame));
}

#[test]
fn a_stream_delivers_frames() {
    let mut source = source("clip.mp4");
    start_video(&mut source, 1);
    let mut reader = StreamReader::new();
    assert!(matches!(
        source.read_stream(&mut reader, StreamEvent::Begin),
        StreamAction::Read(FRAME_SIZE)
    ));
    for seed in 0..3 {
        assert!(matches!(
            feed(&mut source, &mut reader, seed),
            StreamAction::Read(FRAME_SIZE)
        ));
        let (result, sinks) = fill(&source, None);
        assert_eq!(result, Ok(FillOutcome::Live));
        assert_eq!(sinks.concat(), pattern(seed));
    }
    assert_eq!(reader.frames_decoded(), 3);
}

#[test]
fn frames_are_cut_from_what_the_pipe_delivers() {
    let mut source = source("clip.mp4");
    start_video(&mut source, 1);
    let mut reader = StreamReader::new();
    let written = [pattern(0), pattern(10), pattern(20), vec![9; 5]].concat();
    let mut shown = Vec::new();
    for chunk in written.chunks(65536) {
        let before = reader.frames_decoded();
        let wanted = match source.read_stream(&mut reader, StreamEvent::Data(chunk.to_vec())) {
            StreamAction::Read(wanted) => wanted,
            _ => panic!("nothing to read"),
        };
        assert!(0 < wanted && wanted <= FRAME_SIZE);
        if reader.frames_decoded() > before {
            shown.push(fill(&source, None).1.concat());
        }
    }
    assert_eq!(shown, [pattern(0), pattern(10), pattern(20)]);
    assert_eq!(reader.frames_decoded(), 3);
    let twice = [pattern(30)[5..].to_vec(), pattern(40)].concat();
    source.read_stream(&mut reader, StreamEvent::Data(twice));
    assert_eq!(reader.frames_decoded(), 5);
    assert_eq!(fill(&source, None).1.concat(), pattern(40));
}

#[test]
fn a_partial_frame_is_dropped_with_its_decoder() {
    let mut source = source("clip.mp4");
    start_video(&mut source, 1);
    let mut reader = StreamReader::new();
    feed(&mut source, &mut reader, 1);
    feed(&mut source, &mut reader, 2);
    assert!(matches!(
        source.read_stream(&mut reader, StreamEvent::Data(vec![3; 100])),
        StreamAction::Read(460700)
    ));
    source.read_stream(&mut reader, StreamEvent::Ended);
    assert_eq!(fill(&source, None).1.concat(), pattern(2));
    source.read_stream(&mut reader, StreamEvent::Reaped);
    assert!(matches!(
        source.read_stream(&mut reader, StreamEvent::Respawned(2)),
        StreamAction::Read(FRAME_SIZE)
    ));
    feed(&mut source, &mut reader, 4);
    assert_eq!(fill(&source, None).1.concat(), pattern(4));
}

#[test]
fn a_finished_stream_is_played_again() {
    let mut source = source("clip.mp4");
    start_video(&mut source, 1);
    let mut reader = StreamReader::new();
    source.read_stream(&mut reader, StreamEvent::Ended);
    assert_eq!(reader.retry_count(), 1);
    feed(&mut source, &mut reader, 0);
    feed(&mut source, &mut reader, 1);
    assert_eq!(reader.at_end(false), EndOfStream::Loop);
    assert!(matches!(
        source.read_stream(&mut reader, StreamEvent::Ended),
        StreamAction::Reap(Some(1))
    ));
    assert_eq!((reader.frames_decoded(), reader.retry_count()), (0, 0));
    assert!(matches!(
        source.read_stream(&mut reader, StreamEvent::Reaped),
        StreamAction::Spawn(_)
    ));
    assert!(matches!(
        source.read_stream(&mut reader, StreamEvent::Respawned(2)),
        StreamAction::Read(FRAME_SIZE)
    ));
    assert_eq!(source.state(), SourceState::Running);
}

#[test]
fn a_single_frame_is_a_static_scene() {
    let mut source = source("clip.mp4");
    start_video(&mut source, 1);
    let mut reader = StreamReader::new();
    feed(&mut source, &mut reader, 8);
    assert_eq!(reader.at_end(false), EndOfStream::StaticScene);
    assert!(matches!(
        source.read_stream(&mut reader, StreamEvent::Ended),
        StreamAction::Exit
    ));
    assert_eq!(reader.retry_count(), 0);
    assert_eq!(source.state(), SourceState::Running);
    let (result, sinks) = fill(&source, None);
    assert_eq!(result, Ok(FillOutcome::Live));
    assert_eq!(sinks.concat(), pattern(8));
}

#[test]
fn a_decoder_without_frames_is_retried_five_times() {
    let mut source = source("clip.mp4");
    start_video(&mut source, 0);
    source.set_latest_frame_for_test(Arc::new(frame(9)));
    let mut reader = StreamReader::new();
    let mut pauses = Vec::new();
    for child in 1..6 {
        match source.read_stream(&mut reader, StreamEvent::Ended) {
            StreamAction::Backoff(ms) => pauses.push(ms),
            _ => panic!("no pause"),
        }
        assert_eq!(source.state(), SourceState::Running);
        match source.read_stream(&mut reader, StreamEvent::BackedOff) {
            StreamAction::Reap(dead) => assert_eq!(dead, Some(child - 1)),
            _ => panic!("nothing to reap"),
        }
        source.read_stream(&mut reader, StreamEvent::Reaped);
        assert!(matches!(
            source.read_stream(&mut reader, StreamEvent::Respawned(child)),
            StreamAction::Read(FRAME_SIZE)
        ));
    }
    assert_eq!(pauses, [100, 200, 300, 400, 500]);
    assert_eq!(reader.at_end(false), EndOfStream::Exhausted);
    assert!(matches!(
        source.read_stream(&mut reader, StreamEvent::Ended),
        StreamAction::Exit
    ));
    assert_eq!(source.state(), SourceState::Failed);
    assert_eq!(fill(&source, None).0, Ok(FillOutcome::Frozen));
    assert_eq!((MAX_RETRIES, BACKOFF_STEP_MS), (5, 100));
}

#[test]
fn a_decoder_that_cannot_be_replaced() {
    let mut mute = source("clip.mp4");
    start_video(&mut mute, 1);
    let mut reader = StreamReader::new();
    assert!(matches!(
        mute.read_stream(&mut reader, StreamEvent::RespawnedWithoutPipe(2)),
        StreamAction::Abandon(2)
    ));
    assert_eq!(mute.state(), SourceState::Failed);
    let mut missing = source("clip.mp4");
    start_video(&mut missing, 1);
    assert!(matches!(
        missing.read_stream(&mut reader, StreamEvent::RespawnFailed),
        StreamAction::Exit
    ));
    assert_eq!(missing.state(), SourceState::Failed);
}

#[test]
fn a_stopped_reader_ends() {
    let mut source = source("clip.mp4");
    start_video(&mut source, 1);
    source.stop(StopEvent::Requested);
    let mut reader = StreamReader::new();
    assert_eq!(reader.at_end(true), EndOfStream::Stopped);
    assert!(matches!(
        source.read_stream(&mut reader, StreamEvent::Begin),
        StreamAction::Exit
    ));
    assert!(matches!(
        source.read_stream(&mut reader, StreamEvent::Data(pattern(0)[..10].to_vec())),
        StreamAction::Read(460790)
    ));
    assert!(matches!(
        source.read_stream(&mut reader, StreamEvent::Data(pattern(0)[10..].to_vec())),
        StreamAction::Exit
    ));
    assert!(matches!(
        source.read_stream(&mut reader, StreamEvent::Ended),
        StreamAction::Exit
    ));
    assert_eq!(source.state(), SourceState::Running);
}

#[test]
fn the_watchdog_of_the_first_frame() {
    let mut source = source("clip.mp4");
    let run = start_video(&mut source, 1);
    assert_eq!(source.first_frame_deadline(run), Some(1));
    assert_eq!(source.state(), SourceState::Failed);
    assert_eq!(FIRST_FRAME_DEADLINE_SECS, 5);
    let mut early = self::source("clip.mp4");
    let run = start_video(&mut early, 1);
    feed(&mut early, &mut StreamReader::new(), 0);
    assert_eq!(early.first_frame_deadline(run), None);
    assert_eq!(early.state(), SourceState::Running);
    let mut stopped = self::source("clip.mp4");
    assert_eq!(stopped.first_frame_deadline(0), None);
    assert_eq!(stopped.state(), SourceState::Idle);
}

#[test]
fn the_watchdog_of_an_earlier_run() {
    let mut source = source("clip.mp4");
    let first = start_video(&mut source, 1);
    stop(&mut source, None);
    let second = start_video(&mut source, 2);
    assert_ne!(first, second);
    assert_eq!(source.first_frame_deadline(first), None);
    assert_eq!(source.state(), SourceState::Running);
    assert_eq!(source.first_frame_deadline(second), Some(2));
    assert_eq!(source.state(), SourceState::Failed);
}

#[test]
fn a_frame_after_the_deadline_is_live() {
    let mut source = source("clip.mp4");
    let run = start_video(&mut source, 1);
    source.set_latest_frame_for_test(Arc::new(frame(1)));
    assert_eq!(source.first_frame_deadline(run), Some(1));
    assert_eq!(fill(&source, None).0, Ok(FillOutcome::Frozen));
    let mut reader = StreamReader::new();
    assert!(matches!(
        source.read_stream(&mut reader, StreamEvent::Ended),
        StreamAction::Backoff(100)
    ));
    assert!(matches!(
        source.read_stream(&mut reader, StreamEvent::BackedOff),
        StreamAction::Reap(None)
    ));
    source.read_stream(&mut reader, StreamEvent::Reaped);
    source.read_stream(&mut reader, StreamEvent::Respawned(2));
    assert_eq!(source.state(), SourceState::Failed);
    feed(&mut source, &mut reader, 2);
    assert_eq!(source.state(), SourceState::Running);
    let (result, sinks) = fill(&source, None);
    assert_eq!(result, Ok(FillOutcome::Live));
    assert_eq!(sinks.concat(), pattern(2));
}

#[test]
fn the_commands_of_a_source() {
    let mut source = source("/media/clip.mp4");
    source.ensure_started(StartEvent::Requested);
    source.ensure_started(StartEvent::TornDown);
    let StartAction::SpawnStream(first) = source.ensure_started(StartEvent::Reaped) else {
        panic!("nothing to spawn");
    };
    let StreamAction::Spawn(again) =
        source.read_stream(&mut StreamReader::new(), StreamEvent::Reaped)
    else {
        panic!("nothing to spawn");
    };
    for line in [first, again] {
        assert_eq!(line.program.as_bytes(), b"ffmpeg");
        assert_eq!(line.args[3..6], ["-stream_loop", "-1", "-re"]);
        assert_eq!(line.args[7], "/media/clip.mp4");
    }
}
