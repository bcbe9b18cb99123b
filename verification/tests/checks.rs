use emulated_camera::checks::{
    judge_probe, CheckAction, CheckEvent, Ending, ProbeAction, ProbeEvent, Timeout, Verdict,
    CHECK_TIMEOUT_SECS,
};
use emulated_camera::command::{
    one_shot_command, stream_command, CommandLine, Stream,
};
use emulated_camera::path::HostPath;
use emulated_camera::source::MediaSource;

fn host(path: &str) -> HostPath {
    HostPath::new(path.as_bytes().to_vec())
}

fn check(event: CheckEvent) -> CheckAction {
    MediaSource::check_cheap(&host("/media/clip.mp4"), &host("/bin/ffmpeg"), event)
}

fn check_verdict(event: CheckEvent) -> Verdict {
    match check(event) {
        CheckAction::Done(verdict) => verdict,
        _ => panic!("no verdict"),
    }
}

fn exited(success: bool, status: &str, stderr: &str) -> Ending {
    Ending::Exited {
        success,
        status: status.to_owned(),
        stderr: stderr.to_owned(),
    }
}

fn args(command: &CommandLine) -> Vec<&str> {
    command.args.iter().map(|a| a.as_str()).collect()
}

#[test]
fn the_check_asks_its_questions_in_order() {
    assert!(matches!(check(CheckEvent::Requested), CheckAction::TestExists));
    assert!(matches!(check(CheckEvent::Exists(true)), CheckAction::TestIsFile));
    match check(CheckEvent::IsFile(true)) {
        CheckAction::Spawn(command) => {
            assert_eq!(command.program.as_bytes(), b"/bin/ffmpeg");
            assert_eq!(args(&command), ["-version"]);
            assert_eq!(command.stdin, Stream::Inherit);
            assert_eq!(command.stdout, Stream::Null);
            assert_eq!(command.stderr, Stream::Null);
        }
        _ => panic!("no command"),
    }
    match check(CheckEvent::Spawned) {
        CheckAction::Await(secs) => assert_eq!(secs, 2),
        _ => panic!("no waiting"),
    }
    assert_eq!(CHECK_TIMEOUT_SECS, 2);
    assert_eq!(
        check_verdict(CheckEvent::Ended(exited(true, "exit status: 0", ""))),
        Ok(())
    );
}

#[test]
fn the_check_gives_its_reasons() {
    assert_eq!(
        check_verdict(CheckEvent::Exists(false)),
        Err("File '/media/clip.mp4' does not exist".to_owned())
    );
    assert_eq!(
        check_verdict(CheckEvent::IsFile(false)),
        Err("Path '/media/clip.mp4' is not a regular file".to_owned())
    );
    assert_eq!(
        check_verdict(CheckEvent::SpawnFailed("not found".to_owned())),
        Err("Failed to execute '/bin/ffmpeg': not found".to_owned())
    );
    assert_eq!(
        check_verdict(CheckEvent::Ended(exited(false, "ExitStatus(256)", "ignored"))),
        Err("ffmpeg returned non-zero exit code: ExitStatus(256)".to_owned())
    );
    assert_eq!(
        check_verdict(CheckEvent::Ended(Ending::WaitFailed("interrupted".to_owned()))),
        Err("Failed to wait for ffmpeg: interrupted".to_owned())
    );
    assert_eq!(
        check_verdict(CheckEvent::Ended(Ending::TimedOut)),
        Err("ffmpeg check timed out after 2 seconds".to_owned())
    );
    assert_eq!(
        check_verdict(CheckEvent::Ended(Ending::Poisoned)),
        Err("Mutex poisoned during ffmpeg check".to_owned())
    );
}

#[test]
fn a_reason_shows_a_broken_path_as_well_as_it_can() {
    let path = HostPath::new(b"/media/\xff".to_vec());
    match MediaSource::check_cheap(&path, &host("ffmpeg"), CheckEvent::Exists(false)) {
        CheckAction::Done(verdict) => assert_eq!(
            verdict,
            Err("File '/media/\u{fffd}' does not exist".to_owned())
        ),
        _ => panic!("no verdict"),
    }
}

fn probe(path: &HostPath, timeout: Timeout, event: ProbeEvent) -> ProbeAction {
    MediaSource::probe_decode(path, &host("ffmpeg"), timeout, event)
}

fn probe_verdict(timeout: Timeout, event: ProbeEvent) -> Verdict {
    match probe(&host("clip.mp4"), timeout, event) {
        ProbeAction::Done(verdict) => verdict,
        _ => panic!("no verdict"),
    }
}

#[test]
fn the_probe_decodes_one_frame() {
    let timeout = Timeout::from_secs(5);
    match probe(&host("clip.mp4"), timeout, ProbeEvent::Requested) {
        ProbeAction::Spawn(command) => {
            assert_eq!(
                args(&command),
                ["-nostdin", "-v", "error", "-i", "clip.mp4", "-frames:v", "1", "-f", "null", "-"]
            );
            assert_eq!(command.program.as_bytes(), b"ffmpeg");
            assert_eq!(command.stdin, Stream::Inherit);
            assert_eq!(command.stdout, Stream::Null);
            assert_eq!(command.stderr, Stream::Piped);
        }
        _ => panic!("no command"),
    }
    match probe(&host("clip.mp4"), timeout, ProbeEvent::Spawned) {
        ProbeAction::Await(limit) => assert_eq!(limit, timeout),
        _ => panic!("no waiting"),
    }
    assert_eq!(
        probe_verdict(timeout, ProbeEvent::Ended(exited(true, "exit status: 0", "warning"))),
        Ok(())
    );
}

#[test]
fn the_probe_gives_its_reasons() {
    let timeout = Timeout::from_secs(5);
    match probe(&HostPath::new(b"\xff.mp4".to_vec()), timeout, ProbeEvent::Requested) {
        ProbeAction::Done(verdict) => {
            assert_eq!(verdict, Err("Invalid path encoding".to_owned()))
        }
        _ => panic!("no verdict"),
    }
    assert_eq!(
        probe_verdict(timeout, ProbeEvent::SpawnFailed("not found".to_owned())),
        Err("Failed to spawn probe process: not found".to_owned())
    );
    assert_eq!(
        probe_verdict(
            timeout,
            ProbeEvent::Ended(exited(false, "ExitStatus(256)", " \tmoov atom  not found\u{2003}\n"))
        ),
        Err("ffmpeg exit code ExitStatus(256). Stderr output: moov atom  not found".to_owned())
    );
    assert_eq!(
        probe_verdict(timeout, ProbeEvent::Ended(Ending::WaitFailed("interrupted".to_owned()))),
        Err("Failed to wait for probe process: interrupted".to_owned())
    );
    assert_eq!(
        probe_verdict(timeout, ProbeEvent::Ended(Ending::TimedOut)),
        Err("Decode probe timed out after 5s".to_owned())
    );
    assert_eq!(
        probe_verdict(
            Timeout { secs: 1, nanos: 500_000_000 },
            ProbeEvent::Ended(Ending::TimedOut)
        ),
        Err("Decode probe timed out after 1.5s".to_owned())
    );
    assert_eq!(
        probe_verdict(timeout, ProbeEvent::Ended(Ending::Poisoned)),
        Err("Mutex poisoned during decode probe".to_owned())
    );
}

#[test]
fn white_space_is_trimmed_as_the_standard_library_trims_it() {
    for code in 0..0x11_0000u32 {
        if let Some(c) = char::from_u32(code) {
            let listed = matches!(code,
                0x09..=0x0d | 0x20 | 0x85 | 0xa0 | 0x1680 | 0x2000..=0x200a | 0x2028 | 0x2029
                    | 0x202f | 0x205f | 0x3000);
            assert_eq!(c.is_whitespace(), listed, "{:x}", code);
        }
    }
    assert_eq!(
        judge_probe(exited(false, "1", "\u{a0}a\u{3000}"), ""),
        Err("ffmpeg exit code 1. Stderr output: a".to_owned())
    );
    assert_eq!(
        judge_probe(exited(false, "1", " \n "), ""),
        Err("ffmpeg exit code 1. Stderr output: ".to_owned())
    );
    assert_eq!(
        judge_probe(Ending::TimedOut, "3 days"),
        Err("Decode probe timed out after 3 days".to_owned())
    );
}

#[test]
fn the_one_shot_decoder() {
    let command = one_shot_command(&host("/media/photo.png"), &host("ffmpeg"));
    assert_eq!(
        args(&command),
        [
            "-nostdin", "-loglevel", "error", "-i", "/media/photo.png", "-vf", "scale=640:480",
            "-pix_fmt", "yuv420p", "-frames:v", "1", "-f", "rawvideo", "pipe:1",
        ]
    );
    assert_eq!(command.program.as_bytes(), b"ffmpeg");
    assert_eq!(command.stdin, Stream::Null);
    assert_eq!(command.stdout, Stream::Piped);
    assert_eq!(command.stderr, Stream::Inherit);
}

#[test]
fn the_stream_decoder() {
    let command = stream_command(&host("/media/clip.mp4"), &host("/bin/ffmpeg"));
    assert_eq!(
        args(&command),
        [
            "-nostdin", "-loglevel", "error", "-stream_loop", "-1", "-re", "-i", "/media/clip.mp4",
            "-vf", "scale=640:480", "-an", "-sn", "-dn", "-pix_fmt", "yuv420p", "-f", "rawvideo",
            "pipe:1",
        ]
    );
    assert_eq!(command.program.as_bytes(), b"/bin/ffmpeg");
    assert_eq!(command.stdin, Stream::Null);
    assert_eq!(command.stdout, Stream::Piped);
    assert_eq!(command.stderr, Stream::Inherit);
    let broken = stream_command(&HostPath::new(b"\xff".to_vec()), &host("ffmpeg"));
    assert_eq!(broken.args[7], "");
}
