//! The checks of a media file before it is served.

use vstd::prelude::*;

use crate::command::probe_command;
use crate::command::version_command;
use crate::command::CommandLine;
use crate::command::CommandView;
use crate::path::HostPath;
use crate::source::MediaSource;
use crate::text::printable;
use crate::text::std_duration_debug;
use crate::text::std_trim;
use crate::text::text_of;

verus! {

/// Seconds that FFmpeg has to print its version in.
pub const CHECK_TIMEOUT_SECS: u64 = 2;

/// How a child process that was waited for has ended.
pub enum Ending {
    /// It has exited with the status `status`; `stderr` is what it wrote to its error pipe.
    Exited { success: bool, status: String, stderr: String },
    /// Waiting for it failed.
    WaitFailed(String),
    /// It was still running when its time was up, and was killed and reaped.
    TimedOut,
    /// The lock of its handle is poisoned.
    Poisoned,
}

/// A verdict on a media file, with the reason for a rejection.
pub type Verdict = Result<(), String>;

/// The contents of a [`Verdict`].
pub open spec fn verdict_view(verdict: Verdict) -> Result<(), Seq<char>> {
    match verdict {
        Ok(_) => Ok(()),
        Err(reason) => Err(reason@),
    }
}

/// What has happened during the check of the file and of FFmpeg.
pub enum CheckEvent {
    /// The check is to be made.
    Requested,
    /// Whether something exists at the path.
    Exists(bool),
    /// Whether a regular file is at the path.
    IsFile(bool),
    /// FFmpeg was spawned.
    Spawned,
    /// FFmpeg could not be spawned.
    SpawnFailed(String),
    /// FFmpeg has ended.
    Ended(Ending),
}

/// What the check has to do.
pub enum CheckAction {
    /// Find out whether something exists at the path.
    TestExists,
    /// Find out whether a regular file is at the path.
    TestIsFile,
    /// Spawn FFmpeg.
    Spawn(CommandLine),
    /// Wait for FFmpeg to end; kill and reap it after so many seconds.
    Await(u64),
    /// Nothing more: this is the verdict.
    Done(Verdict),
}

/// The contents of a [`CheckAction`].
pub enum CheckStep {
    TestExists,
    TestIsFile,
    Spawn(CommandView),
    Await(u64),
    Done(Result<(), Seq<char>>),
}

impl View for CheckAction {
    type V = CheckStep;

    open spec fn view(&self) -> CheckStep {
        match *self {
            CheckAction::TestExists => CheckStep::TestExists,
            CheckAction::TestIsFile => CheckStep::TestIsFile,
            CheckAction::Spawn(command) => CheckStep::Spawn(command@),
            CheckAction::Await(secs) => CheckStep::Await(secs),
            CheckAction::Done(verdict) => CheckStep::Done(verdict_view(verdict)),
        }
    }
}

/// The verdict of the check once FFmpeg has ended.
pub open spec fn check_verdict(ending: Ending) -> Result<(), Seq<char>> {
    match ending {
        Ending::Exited { success, status, .. } => if success {
            Ok(())
        } else {
            Err("ffmpeg returned non-zero exit code: "@ + status@)
        },
        Ending::WaitFailed(error) => Err("Failed to wait for ffmpeg: "@ + error@),
        Ending::TimedOut => Err("ffmpeg check timed out after 2 seconds"@),
        Ending::Poisoned => Err("Mutex poisoned during ffmpeg check"@),
    }
}

/// The next step of the check: the path has to exist and be a regular file, and FFmpeg has to
/// print its version in time.
pub open spec fn check_step(path: Seq<u8>, ffmpeg: Seq<u8>, event: CheckEvent) -> CheckStep {
    match event {
        CheckEvent::Requested => CheckStep::TestExists,
        CheckEvent::Exists(exists) => if exists {
            CheckStep::TestIsFile
        } else {
            CheckStep::Done(Err("File '"@ + printable(path) + "' does not exist"@))
        },
        CheckEvent::IsFile(is_file) => if is_file {
            CheckStep::Spawn(crate::command::version_view(ffmpeg))
        } else {
            CheckStep::Done(Err("Path '"@ + printable(path) + "' is not a regular file"@))
        },
        CheckEvent::Spawned => CheckStep::Await(CHECK_TIMEOUT_SECS),
        CheckEvent::SpawnFailed(error) => CheckStep::Done(
            Err("Failed to execute '"@ + printable(ffmpeg) + "': "@ + error@),
        ),
        CheckEvent::Ended(ending) => CheckStep::Done(check_verdict(ending)),
    }
}

/// How long a decode probe may take.
#[derive(Debug, Clone, Copy, PartialEq, Eq, Structural)]
pub struct Timeout {
    /// Whole seconds.
    pub secs: u64,
    /// The rest in nanoseconds, less than a second.
    pub nanos: u32,
}

impl Timeout {
    /// The rest is less than a second.
    pub open spec fn valid(self) -> bool {
        self.nanos < 1_000_000_000
    }

    /// So many whole seconds.
    pub fn from_secs(secs: u64) -> (timeout: Self)
        ensures
            timeout == (Timeout { secs, nanos: 0 }),
            timeout.valid(),
    {
        Timeout { secs, nanos: 0 }
    }
}

/// What has happened during the decode probe.
pub enum ProbeEvent {
    /// The probe is to be made.
    Requested,
    /// FFmpeg was spawned.
    Spawned,
    /// FFmpeg could not be spawned.
    SpawnFailed(String),
    /// FFmpeg has ended.
    Ended(Ending),
}

/// What the probe has to do.
pub enum ProbeAction {
    /// Spawn FFmpeg.
    Spawn(CommandLine),
    /// Collect what FFmpeg writes to its error pipe and wait for it to end; kill and reap it when
    /// the time is up.
    Await(Timeout),
    /// Nothing more: this is the verdict.
    Done(Verdict),
}

/// The contents of a [`ProbeAction`].
pub enum ProbeStep {
    Spawn(CommandView),
    Await(Timeout),
    Done(Result<(), Seq<char>>),
}

impl View for ProbeAction {
    type V = ProbeStep;

    open spec fn view(&self) -> ProbeStep {
        match *self {
            ProbeAction::Spawn(command) => ProbeStep::Spawn(command@),
            ProbeAction::Await(timeout) => ProbeStep::Await(timeout),
            ProbeAction::Done(verdict) => ProbeStep::Done(verdict_view(verdict)),
        }
    }
}

/// The verdict of the probe once FFmpeg has ended; `limit` is the timeout as text.
pub open spec fn probe_verdict(ending: Ending, limit: Seq<char>) -> Result<(), Seq<char>> {
    match ending {
        Ending::Exited { success, status, stderr } => if success {
            Ok(())
        } else {
            Err(
                "ffmpeg exit code "@ + status@ + ". Stderr output: "@ + crate::text::trimmed(
                    stderr@,
                ),
            )
        },
        Ending::WaitFailed(error) => Err("Failed to wait for probe process: "@ + error@),
        Ending::TimedOut => Err("Decode probe timed out after "@ + limit),
        Ending::Poisoned => Err("Mutex poisoned during decode probe"@),
    }
}

/// The next step of the probe: FFmpeg has to decode one frame of the file in time.
pub open spec fn probe_step(
    path: Seq<u8>,
    ffmpeg: Seq<u8>,
    timeout: Timeout,
    event: ProbeEvent,
) -> ProbeStep {
    match event {
        ProbeEvent::Requested => match text_of(path) {
            Some(input) => ProbeStep::Spawn(crate::command::probe_view(input, ffmpeg)),
            None => ProbeStep::Done(Err("Invalid path encoding"@)),
        },
        ProbeEvent::Spawned => ProbeStep::Await(timeout),
        ProbeEvent::SpawnFailed(error) => ProbeStep::Done(
            Err("Failed to spawn probe process: "@ + error@),
        ),
        ProbeEvent::Ended(ending) => ProbeStep::Done(
            probe_verdict(ending, crate::text::duration_text(timeout.secs, timeout.nanos)),
        ),
    }
}

/// The verdict of the check once FFmpeg has ended.
fn judge_check(ending: Ending) -> (verdict: Verdict)
    ensures
        verdict_view(verdict) == check_verdict(ending),
{
    match ending {
        Ending::Exited { success, status, stderr: _ } => if success {
            Ok(())
        } else {
            Err("ffmpeg returned non-zero exit code: ".to_owned().concat(status.as_str()))
        },
        Ending::WaitFailed(error) => Err(
            "Failed to wait for ffmpeg: ".to_owned().concat(error.as_str()),
        ),
        Ending::TimedOut => Err("ffmpeg check timed out after 2 seconds".to_owned()),
        Ending::Poisoned => Err("Mutex poisoned during ffmpeg check".to_owned()),
    }
}

/// The verdict of the probe once FFmpeg has ended; `limit` is the timeout as text.
pub fn judge_probe(ending: Ending, limit: &str) -> (verdict: Verdict)
    ensures
        verdict_view(verdict) == probe_verdict(ending, limit@),
{
    match ending {
        Ending::Exited { success, status, stderr } => if success {
            Ok(())
        } else {
            let output = std_trim(stderr.as_str());
            Err(
                "ffmpeg exit code ".to_owned().concat(status.as_str()).concat(
                    ". Stderr output: ",
                ).concat(output.as_str()),
            )
        },
        Ending::WaitFailed(error) => Err(
            "Failed to wait for probe process: ".to_owned().concat(error.as_str()),
        ),
        Ending::TimedOut => Err("Decode probe timed out after ".to_owned().concat(limit)),
        Ending::Poisoned => Err("Mutex poisoned during decode probe".to_owned()),
    }
}

impl MediaSource<(), ()> {
    /// Executes Layer 1 boot-critical checks to ensure binary and file availability.
    pub fn check_cheap(path: &HostPath, ffmpeg: &HostPath, event: CheckEvent) -> (action:
        CheckAction)
        ensures
            action@ == check_step(path@, ffmpeg@, event),
    {
        match event {
            CheckEvent::Requested => CheckAction::TestExists,
            CheckEvent::Exists(exists) => if exists {
                CheckAction::TestIsFile
            } else {
                CheckAction::Done(
                    Err(
                        "File '".to_owned().concat(path.display().as_str()).concat(
                            "' does not exist",
                        ),
                    ),
                )
            },
            CheckEvent::IsFile(is_file) => if is_file {
                CheckAction::Spawn(version_command(ffmpeg))
            } else {
                CheckAction::Done(
                    Err(
                        "Path '".to_owned().concat(path.display().as_str()).concat(
                            "' is not a regular file",
                        ),
                    ),
                )
            },
            CheckEvent::Spawned => CheckAction::Await(CHECK_TIMEOUT_SECS),
            CheckEvent::SpawnFailed(error) => CheckAction::Done(
                Err(
                    "Failed to execute '".to_owned().concat(ffmpeg.display().as_str()).concat(
                        "': ",
                    ).concat(error.as_str()),
                ),
            ),
            CheckEvent::Ended(ending) => CheckAction::Done(judge_check(ending)),
        }
    }

    /// Performs an expensive codec and decode validation test, intended for Strict Mode only.
    pub fn probe_decode(
        path: &HostPath,
        ffmpeg: &HostPath,
        timeout: Timeout,
        event: ProbeEvent,
    ) -> (action: ProbeAction)
        requires
            timeout.valid(),
        ensures
            action@ == probe_step(path@, ffmpeg@, timeout, event),
    {
        match event {
            ProbeEvent::Requested => match path.to_text() {
                Some(input) => ProbeAction::Spawn(probe_command(input.as_str(), ffmpeg)),
                None => ProbeAction::Done(Err("Invalid path encoding".to_owned())),
            },
            ProbeEvent::Spawned => ProbeAction::Await(timeout),
            ProbeEvent::SpawnFailed(error) => ProbeAction::Done(
                Err("Failed to spawn probe process: ".to_owned().concat(error.as_str())),
            ),
            ProbeEvent::Ended(ending) => {
                let limit = std_duration_debug(timeout.secs, timeout.nanos);
                ProbeAction::Done(judge_probe(ending, limit.as_str()))
            },
        }
    }
}

/// The verdict of the whole check, given what each of its questions to the host is answered.
pub open spec fn check_result(
    path: Seq<u8>,
    ffmpeg: Seq<u8>,
    exists: bool,
    is_file: bool,
    spawned: Verdict,
    ending: Ending,
) -> Result<(), Seq<char>> {
    match check_step(path, ffmpeg, CheckEvent::Exists(exists)) {
        CheckStep::Done(verdict) => verdict,
        _ => match check_step(path, ffmpeg, CheckEvent::IsFile(is_file)) {
            CheckStep::Done(verdict) => verdict,
            _ => match spawned {
                Err(error) => check_step(path, ffmpeg, CheckEvent::SpawnFailed(error))->Done_0,
                Ok(_) => check_step(path, ffmpeg, CheckEvent::Ended(ending))->Done_0,
            },
        },
    }
}

/// The check accepts a file exactly if it exists, is a regular file, and FFmpeg could be spawned
/// and exited with success in time.
pub proof fn check_accepts_only_a_usable_file(
    path: Seq<u8>,
    ffmpeg: Seq<u8>,
    exists: bool,
    is_file: bool,
    spawned: Verdict,
    ending: Ending,
)
    ensures
        check_result(path, ffmpeg, exists, is_file, spawned, ending) is Ok <==> exists && is_file
            && spawned is Ok && (ending matches Ending::Exited { success, .. } && success),
{
}

/// The verdict of the whole probe, given how spawning FFmpeg went and how it ended.
pub open spec fn probe_result(
    path: Seq<u8>,
    ffmpeg: Seq<u8>,
    timeout: Timeout,
    spawned: Verdict,
    ending: Ending,
) -> Result<(), Seq<char>> {
    match probe_step(path, ffmpeg, timeout, ProbeEvent::Requested) {
        ProbeStep::Done(verdict) => verdict,
        _ => match spawned {
            Err(error) => probe_step(path, ffmpeg, timeout, ProbeEvent::SpawnFailed(error))->Done_0,
            Ok(_) => probe_step(path, ffmpeg, timeout, ProbeEvent::Ended(ending))->Done_0,
        },
    }
}

/// The probe accepts a file exactly if its path is UTF-8, and FFmpeg could be spawned and exited
/// with success in time.
pub proof fn probe_accepts_only_a_decodable_file(
    path: Seq<u8>,
    ffmpeg: Seq<u8>,
    timeout: Timeout,
    spawned: Verdict,
    ending: Ending,
)
    ensures
        probe_result(path, ffmpeg, timeout, spawned, ending) is Ok <==> text_of(path) is Some
            && spawned is Ok && (ending matches Ending::Exited { success, .. } && success),
{
}

/// The check asks whether the path exists, then whether it is a regular file, then runs the
/// configured FFmpeg for its version and gives it two seconds, whatever the paths are.
pub proof fn check_asks_in_order(path: Seq<u8>, ffmpeg: Seq<u8>)
    ensures
        check_step(path, ffmpeg, CheckEvent::Requested) is TestExists,
        check_step(path, ffmpeg, CheckEvent::Exists(true)) is TestIsFile,
        check_step(path, ffmpeg, CheckEvent::IsFile(true)) matches CheckStep::Spawn(command) && {
            &&& command.program == ffmpeg
            &&& command.args == seq!["-version"@]
            &&& command.stdout == crate::command::Stream::Null
            &&& command.stderr == crate::command::Stream::Null
        },
        check_step(path, ffmpeg, CheckEvent::Spawned) == CheckStep::Await(2),
{
}

/// A rejection by the check names what is at fault: the media file where it is missing or no
/// file, FFmpeg where it cannot be run, and how FFmpeg ended. Success is accepted whatever FFmpeg
/// has printed.
pub proof fn check_names_its_reason(
    path: Seq<u8>,
    ffmpeg: Seq<u8>,
    error: String,
    status: String,
    stderr: String,
)
    ensures
        check_step(path, ffmpeg, CheckEvent::Exists(false)) == CheckStep::Done(
            Err("File '"@ + printable(path) + "' does not exist"@),
        ),
        check_step(path, ffmpeg, CheckEvent::IsFile(false)) == CheckStep::Done(
            Err("Path '"@ + printable(path) + "' is not a regular file"@),
        ),
        check_step(path, ffmpeg, CheckEvent::SpawnFailed(error)) == CheckStep::Done(
            Err("Failed to execute '"@ + printable(ffmpeg) + "': "@ + error@),
        ),
        check_step(
            path,
            ffmpeg,
            CheckEvent::Ended(Ending::Exited { success: true, status, stderr }),
        ) == CheckStep::Done(Ok(())),
        check_step(
            path,
            ffmpeg,
            CheckEvent::Ended(Ending::Exited { success: false, status, stderr }),
        ) == CheckStep::Done(Err("ffmpeg returned non-zero exit code: "@ + status@)),
        check_step(path, ffmpeg, CheckEvent::Ended(Ending::WaitFailed(error))) == CheckStep::Done(
            Err("Failed to wait for ffmpeg: "@ + error@),
        ),
        check_step(path, ffmpeg, CheckEvent::Ended(Ending::TimedOut)) == CheckStep::Done(
            Err("ffmpeg check timed out after 2 seconds"@),
        ),
        check_step(path, ffmpeg, CheckEvent::Ended(Ending::Poisoned)) == CheckStep::Done(
            Err("Mutex poisoned during ffmpeg check"@),
        ),
{
}

/// The probe runs the configured FFmpeg on the file, has it decode one frame, and gives it the time
/// that was configured; a path that is no text is rejected before anything runs.
pub proof fn probe_runs_the_configured_ffmpeg(path: Seq<u8>, ffmpeg: Seq<u8>, timeout: Timeout)
    ensures
        text_of(path) matches Some(text) ==> {
            &&& probe_step(path, ffmpeg, timeout, ProbeEvent::Requested) matches ProbeStep::Spawn(
                command,
            )
            &&& command.program == ffmpeg
            &&& command.args == seq![
                "-nostdin"@,
                "-v"@,
                "error"@,
                "-i"@,
                text,
                "-frames:v"@,
                "1"@,
                "-f"@,
                "null"@,
                "-"@,
            ]
            &&& command.stdout == crate::command::Stream::Null
            &&& command.stderr == crate::command::Stream::Piped
        },
        text_of(path) is None ==> probe_step(path, ffmpeg, timeout, ProbeEvent::Requested)
            == ProbeStep::Done(Err("Invalid path encoding"@)),
        probe_step(path, ffmpeg, timeout, ProbeEvent::Spawned) == ProbeStep::Await(timeout),
{
}

/// A rejection by the probe names what is at fault: that FFmpeg could not be run, how it ended and
/// what it printed without the white space around it, or the time that was not enough. Success is
/// accepted whatever FFmpeg has printed.
pub proof fn probe_names_its_reason(
    path: Seq<u8>,
    ffmpeg: Seq<u8>,
    timeout: Timeout,
    error: String,
    status: String,
    stderr: String,
)
    ensures
        probe_step(path, ffmpeg, timeout, ProbeEvent::SpawnFailed(error)) == ProbeStep::Done(
            Err("Failed to spawn probe process: "@ + error@),
        ),
        probe_step(
            path,
            ffmpeg,
            timeout,
            ProbeEvent::Ended(Ending::Exited { success: true, status, stderr }),
        ) == ProbeStep::Done(Ok(())),
        probe_step(
            path,
            ffmpeg,
            timeout,
            ProbeEvent::Ended(Ending::Exited { success: false, status, stderr }),
        ) == ProbeStep::Done(
            Err(
                "ffmpeg exit code "@ + status@ + ". Stderr output: "@ + crate::text::trimmed(
                    stderr@,
                ),
            ),
        ),
        probe_step(path, ffmpeg, timeout, ProbeEvent::Ended(Ending::WaitFailed(error)))
            == ProbeStep::Done(Err("Failed to wait for probe process: "@ + error@)),
        probe_step(path, ffmpeg, timeout, ProbeEvent::Ended(Ending::TimedOut)) == ProbeStep::Done(
            Err(
                "Decode probe timed out after "@ + crate::text::duration_text(
                    timeout.secs,
                    timeout.nanos,
                ),
            ),
        ),
        probe_step(path, ffmpeg, timeout, ProbeEvent::Ended(Ending::Poisoned)) == ProbeStep::Done(
            Err("Mutex poisoned during decode probe"@),
        ),
{
}

/// The verdict on a decoder's end follows from that end alone: two probes with the same end agree,
/// but for the limit that a timeout names.
pub proof fn verdict_follows_from_the_end(ending: Ending, one: Seq<char>, other: Seq<char>)
    ensures
        !(ending is TimedOut) ==> probe_verdict(ending, one) == probe_verdict(ending, other),
        ending is TimedOut ==> probe_verdict(ending, one) == Err::<(), Seq<char>>(
            "Decode probe timed out after "@ + one,
        ),
        probe_verdict(ending, one) is Ok <==> check_verdict(ending) is Ok,
        probe_verdict(ending, one) is Ok <==> (ending matches Ending::Exited { success, .. }
            && success),
{
}

/// A verdict and the actions that carry one show what they hold.
pub proof fn check_actions_show_all(
    verdict: Verdict,
    command: CommandLine,
    secs: u64,
    timeout: Timeout,
)
    ensures
        verdict matches Ok(_) ==> verdict_view(verdict) == Ok::<(), Seq<char>>(()),
        verdict matches Err(reason) ==> verdict_view(verdict) == Err::<(), Seq<char>>(reason@),
        CheckAction::TestExists@ is TestExists,
        CheckAction::TestIsFile@ is TestIsFile,
        CheckAction::Spawn(command)@ == CheckStep::Spawn(command@),
        CheckAction::Await(secs)@ == CheckStep::Await(secs),
        CheckAction::Done(verdict)@ == CheckStep::Done(verdict_view(verdict)),
        ProbeAction::Spawn(command)@ == ProbeStep::Spawn(command@),
        ProbeAction::Await(timeout)@ == ProbeStep::Await(timeout),
        ProbeAction::Done(verdict)@ == ProbeStep::Done(verdict_view(verdict)),
{
}

} // verus!
