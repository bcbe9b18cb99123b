//! The FFmpeg command lines.

use vstd::prelude::*;

use crate::path::HostPath;
use crate::text::text_of;

verus! {

/// What a standard stream of a child process is connected to.
#[derive(Debug, Clone, Copy, PartialEq, Eq, Structural)]
pub enum Stream {
    /// Nothing.
    Null,
    /// A pipe to this process.
    Piped,
    /// The stream of this process.
    Inherit,
}

/// The program of a child process, its arguments and its streams.
pub struct CommandLine {
    pub program: HostPath,
    pub args: Vec<String>,
    pub stdin: Stream,
    pub stdout: Stream,
    pub stderr: Stream,
}

/// The contents of a [`CommandLine`].
pub struct CommandView {
    pub program: Seq<u8>,
    pub args: Seq<Seq<char>>,
    pub stdin: Stream,
    pub stdout: Stream,
    pub stderr: Stream,
}

impl View for CommandLine {
    type V = CommandView;

    open spec fn view(&self) -> CommandView {
        CommandView {
            program: self.program@,
            args: self.args@.map_values(|arg: String| arg@),
            stdin: self.stdin,
            stdout: self.stdout,
            stderr: self.stderr,
        }
    }
}

/// How the input file is named on a decoder's command line: by its text, and by the empty string
/// where the path is not UTF-8.
pub open spec fn input_argument(path: Seq<u8>) -> Seq<char> {
    match text_of(path) {
        Some(text) => text,
        None => Seq::empty(),
    }
}

/// Prints the version: shows that the program can be run at all.
pub open spec fn version_view(ffmpeg: Seq<u8>) -> CommandView {
    CommandView {
        program: ffmpeg,
        args: seq!["-version"@],
        stdin: Stream::Inherit,
        stdout: Stream::Null,
        stderr: Stream::Null,
    }
}

/// Decodes one frame of `input` and throws it away, with the errors on a pipe.
pub open spec fn probe_view(input: Seq<char>, ffmpeg: Seq<u8>) -> CommandView {
    CommandView {
        program: ffmpeg,
        args: seq![
            "-nostdin"@,
            "-v"@,
            "error"@,
            "-i"@,
            input,
            "-frames:v"@,
            "1"@,
            "-f"@,
            "null"@,
            "-"@,
        ],
        stdin: Stream::Inherit,
        stdout: Stream::Null,
        stderr: Stream::Piped,
    }
}

/// Decodes one frame of the file at `path` to the pipe.
pub open spec fn one_shot_view(path: Seq<u8>, ffmpeg: Seq<u8>) -> CommandView {
    CommandView {
        program: ffmpeg,
        args: seq![
            "-nostdin"@,
            "-loglevel"@,
            "error"@,
            "-i"@,
            input_argument(path),
            "-vf"@,
            "scale=640:480"@,
            "-pix_fmt"@,
            "yuv420p"@,
            "-frames:v"@,
            "1"@,
            "-f"@,
            "rawvideo"@,
            "pipe:1"@,
        ],
        stdin: Stream::Null,
        stdout: Stream::Piped,
        stderr: Stream::Inherit,
    }
}

/// Decodes the file at `path` to the pipe at its native rate, over and over.
pub open spec fn stream_view(path: Seq<u8>, ffmpeg: Seq<u8>) -> CommandView {
    CommandView {
        program: ffmpeg,
        args: seq![
            "-nostdin"@,
            "-loglevel"@,
            "error"@,
            "-stream_loop"@,
            "-1"@,
            "-re"@,
            "-i"@,
            input_argument(path),
            "-vf"@,
            "scale=640:480"@,
            "-an"@,
            "-sn"@,
            "-dn"@,
            "-pix_fmt"@,
            "yuv420p"@,
            "-f"@,
            "rawvideo"@,
            "pipe:1"@,
        ],
        stdin: Stream::Null,
        stdout: Stream::Piped,
        stderr: Stream::Inherit,
    }
}

/// Owned copies of `args`.
fn owned(args: &[&str]) -> (list: Vec<String>)
    ensures
        list@.map_values(|arg: String| arg@) == args@.map_values(|arg: &str| arg@),
{
    let mut list: Vec<String> = Vec::new();
    let mut i: usize = 0;
    while i < args.len()
        invariant
            i <= args@.len(),
            list@.len() == i,
            forall|j: int| 0 <= j < i ==> (#[trigger] list@[j])@ == args@[j]@,
        decreases args@.len() - i,
    {
        list.push(args[i].to_owned());
        i = i + 1;
    }
    assert(list@.map_values(|arg: String| arg@) =~= args@.map_values(|arg: &str| arg@));
    list
}

/// The text of the path, empty where it is not UTF-8.
fn input_text(path: &HostPath) -> (text: String)
    ensures
        text@ == input_argument(path@),
{
    match path.to_text() {
        Some(text) => text,
        None => String::new(),
    }
}

/// The command that prints the version.
pub fn version_command(ffmpeg: &HostPath) -> (command: CommandLine)
    ensures
        command@ == version_view(ffmpeg@),
{
    let args = owned(&["-version"]);
    assert(args@.map_values(|arg: String| arg@) =~= version_view(ffmpeg@).args);
    CommandLine {
        program: ffmpeg.clone(),
        args,
        stdin: Stream::Inherit,
        stdout: Stream::Null,
        stderr: Stream::Null,
    }
}

/// The command that decodes one frame of `input` and throws it away.
pub fn probe_command(input: &str, ffmpeg: &HostPath) -> (command: CommandLine)
    ensures
        command@ == probe_view(input@, ffmpeg@),
{
    let args = owned(
        &["-nostdin", "-v", "error", "-i", input, "-frames:v", "1", "-f", "null", "-"],
    );
    assert(args@.map_values(|arg: String| arg@) =~= probe_view(input@, ffmpeg@).args);
    CommandLine {
        program: ffmpeg.clone(),
        args,
        stdin: Stream::Inherit,
        stdout: Stream::Null,
        stderr: Stream::Piped,
    }
}

/// The command that decodes one frame of the file at `path` to the pipe.
pub fn one_shot_command(path: &HostPath, ffmpeg: &HostPath) -> (command: CommandLine)
    ensures
        command@ == one_shot_view(path@, ffmpeg@),
{
    let input = input_text(path);
    let args = owned(
        &[
            "-nostdin",
            "-loglevel",
            "error",
            "-i",
            input.as_str(),
            "-vf",
            "scale=640:480",
            "-pix_fmt",
            "yuv420p",
            "-frames:v",
            "1",
            "-f",
            "rawvideo",
            "pipe:1",
        ],
    );
    assert(args@.map_values(|arg: String| arg@) =~= one_shot_view(path@, ffmpeg@).args);
    CommandLine {
        program: ffmpeg.clone(),
        args,
        stdin: Stream::Null,
        stdout: Stream::Piped,
        stderr: Stream::Inherit,
    }
}

/// The command that decodes the file at `path` to the pipe over and over.
pub fn stream_command(path: &HostPath, ffmpeg: &HostPath) -> (command: CommandLine)
    ensures
        command@ == stream_view(path@, ffmpeg@),
{
    let input = input_text(path);
    let args = owned(
        &[
            "-nostdin",
            "-loglevel",
            "error",
            "-stream_loop",
            "-1",
            "-re",
            "-i",
            input.as_str(),
            "-vf",
            "scale=640:480",
            "-an",
            "-sn",
            "-dn",
            "-pix_fmt",
            "yuv420p",
            "-f",
            "rawvideo",
            "pipe:1",
        ],
    );
    assert(args@.map_values(|arg: String| arg@) =~= stream_view(path@, ffmpeg@).args);
    CommandLine {
        program: ffmpeg.clone(),
        args,
        stdin: Stream::Null,
        stdout: Stream::Piped,
        stderr: Stream::Inherit,
    }
}

/// `input` is the file that the command reads: it stands behind `-i`.
pub open spec fn reads(command: CommandView, input: Seq<char>) -> bool {
    exists|i: int|
        0 <= i < command.args.len() - 1 && #[trigger] command.args[i] == "-i"@ && command.args[i
            + 1] == input
}

/// Whatever FFmpeg decodes comes from the media file, and a frame that is kept comes through the
/// pipe, in the size and format that the planes are cut from; a decoder takes no input from the
/// terminal.
pub proof fn decoders_read_the_media_file(path: Seq<u8>, ffmpeg: Seq<u8>)
    ensures
        text_of(path) matches Some(text) ==> reads(probe_view(text, ffmpeg), text) && reads(
            one_shot_view(path, ffmpeg),
            text,
        ) && reads(stream_view(path, ffmpeg), text),
        forall|command: CommandView|
            command == one_shot_view(path, ffmpeg) || command == stream_view(path, ffmpeg) ==> {
                &&& command.program == ffmpeg
                &&& #[trigger] command.args.last() == "pipe:1"@
                &&& command.args.contains("scale=640:480"@)
                &&& command.args.contains("yuv420p"@)
                &&& command.stdin == Stream::Null
                &&& command.stdout == Stream::Piped
            },
{
    if let Some(text) = text_of(path) {
        assert(probe_view(text, ffmpeg).args[3] == "-i"@);
        assert(one_shot_view(path, ffmpeg).args[3] == "-i"@);
        assert(stream_view(path, ffmpeg).args[6] == "-i"@);
    }
    assert(one_shot_view(path, ffmpeg).args[6] == "scale=640:480"@);
    assert(one_shot_view(path, ffmpeg).args[8] == "yuv420p"@);
    assert(stream_view(path, ffmpeg).args[9] == "scale=640:480"@);
    assert(stream_view(path, ffmpeg).args[14] == "yuv420p"@);
}

/// The contents of a command line are all that it holds.
pub proof fn command_line_shows_all(command: CommandLine, i: int)
    ensures
        command@.program == command.program@,
        command@.args.len() == command.args@.len(),
        0 <= i < command.args@.len() ==> command@.args[i] == command.args@[i]@,
        command@.stdin == command.stdin,
        command@.stdout == command.stdout,
        command@.stderr == command.stderr,
{
}

/// Every command line runs the FFmpeg that was configured, whatever the file.
pub proof fn commands_run_the_configured_ffmpeg(path: Seq<u8>, input: Seq<char>, ffmpeg: Seq<u8>)
    ensures
        version_view(ffmpeg).program == ffmpeg,
        probe_view(input, ffmpeg).program == ffmpeg,
        one_shot_view(path, ffmpeg).program == ffmpeg,
        stream_view(path, ffmpeg).program == ffmpeg,
{
}

/// The file is named once on a command line, behind `-i`, by its text; a decoder of a file whose
/// path is no text gets the empty name.
pub proof fn commands_name_the_file(path: Seq<u8>, input: Seq<char>, ffmpeg: Seq<u8>)
    ensures
        probe_view(input, ffmpeg).args[3] == "-i"@,
        probe_view(input, ffmpeg).args[4] == input,
        one_shot_view(path, ffmpeg).args[3] == "-i"@,
        stream_view(path, ffmpeg).args[6] == "-i"@,
        text_of(path) matches Some(text) ==> {
            &&& one_shot_view(path, ffmpeg).args[4] == text
            &&& stream_view(path, ffmpeg).args[7] == text
        },
        text_of(path) is None ==> {
            &&& one_shot_view(path, ffmpeg).args[4].len() == 0
            &&& stream_view(path, ffmpeg).args[7].len() == 0
        },
{
}

/// Two command lines for one purpose differ in the program and in the name of the file and in
/// nothing else: no file and no FFmpeg changes an option or where the streams go.
pub proof fn commands_differ_in_the_file_only(
    path: Seq<u8>,
    other_path: Seq<u8>,
    input: Seq<char>,
    other_input: Seq<char>,
    ffmpeg: Seq<u8>,
    other_ffmpeg: Seq<u8>,
)
    ensures
        version_view(other_ffmpeg) == (CommandView {
            program: other_ffmpeg,
            ..version_view(ffmpeg)
        }),
        probe_view(other_input, other_ffmpeg) == (CommandView {
            program: other_ffmpeg,
            args: probe_view(input, ffmpeg).args.update(4, other_input),
            ..probe_view(input, ffmpeg)
        }),
        one_shot_view(other_path, other_ffmpeg) == (CommandView {
            program: other_ffmpeg,
            args: one_shot_view(path, ffmpeg).args.update(
                4,
                one_shot_view(other_path, other_ffmpeg).args[4],
            ),
            ..one_shot_view(path, ffmpeg)
        }),
        stream_view(other_path, other_ffmpeg) == (CommandView {
            program: other_ffmpeg,
            args: stream_view(path, ffmpeg).args.update(
                7,
                stream_view(other_path, other_ffmpeg).args[7],
            ),
            ..stream_view(path, ffmpeg)
        }),
{
    assert(probe_view(other_input, other_ffmpeg).args =~= probe_view(input, ffmpeg).args.update(
        4,
        other_input,
    ));
    assert(one_shot_view(other_path, other_ffmpeg).args =~= one_shot_view(path, ffmpeg).args.update(
        4,
        one_shot_view(other_path, other_ffmpeg).args[4],
    ));
    assert(stream_view(other_path, other_ffmpeg).args =~= stream_view(path, ffmpeg).args.update(
        7,
        stream_view(other_path, other_ffmpeg).args[7],
    ));
}

/// `value` is given for the option `name`: it stands behind it.
pub open spec fn option_is(command: CommandView, name: Seq<char>, value: Seq<char>) -> bool {
    exists|i: int|
        0 <= i < command.args.len() - 1 && #[trigger] command.args[i] == name && command.args[i + 1]
            == value
}

/// A still image is decoded to one frame; a video is read at its native rate and over and over,
/// without sound, subtitles and data; the probe decodes one frame and keeps nothing but the
/// errors; the version check prints to nowhere.
pub proof fn commands_do_what_they_are_for(path: Seq<u8>, input: Seq<char>, ffmpeg: Seq<u8>)
    ensures
        option_is(one_shot_view(path, ffmpeg), "-frames:v"@, "1"@),
        option_is(one_shot_view(path, ffmpeg), "-f"@, "rawvideo"@),
        option_is(one_shot_view(path, ffmpeg), "-vf"@, "scale=640:480"@),
        option_is(one_shot_view(path, ffmpeg), "-pix_fmt"@, "yuv420p"@),
        option_is(stream_view(path, ffmpeg), "-stream_loop"@, "-1"@),
        option_is(stream_view(path, ffmpeg), "-f"@, "rawvideo"@),
        option_is(stream_view(path, ffmpeg), "-vf"@, "scale=640:480"@),
        option_is(stream_view(path, ffmpeg), "-pix_fmt"@, "yuv420p"@),
        stream_view(path, ffmpeg).args.contains("-re"@),
        stream_view(path, ffmpeg).args.contains("-an"@),
        stream_view(path, ffmpeg).args.contains("-sn"@),
        stream_view(path, ffmpeg).args.contains("-dn"@),
        one_shot_view(path, ffmpeg).stderr == Stream::Inherit,
        stream_view(path, ffmpeg).stderr == Stream::Inherit,
        option_is(probe_view(input, ffmpeg), "-v"@, "error"@),
        option_is(probe_view(input, ffmpeg), "-frames:v"@, "1"@),
        option_is(probe_view(input, ffmpeg), "-f"@, "null"@),
        probe_view(input, ffmpeg).stdout == Stream::Null,
        probe_view(input, ffmpeg).stderr == Stream::Piped,
        version_view(ffmpeg).args == seq!["-version"@],
        version_view(ffmpeg).stdout == Stream::Null,
        version_view(ffmpeg).stderr == Stream::Null,
{
    let one_shot = one_shot_view(path, ffmpeg);
    assert(one_shot.args[5] == "-vf"@ && one_shot.args[7] == "-pix_fmt"@);
    assert(one_shot.args[9] == "-frames:v"@ && one_shot.args[11] == "-f"@);
    let stream = stream_view(path, ffmpeg);
    assert(stream.args[3] == "-stream_loop"@ && stream.args[5] == "-re"@);
    assert(stream.args[8] == "-vf"@ && stream.args[13] == "-pix_fmt"@ && stream.args[15] == "-f"@);
    assert(stream.args[10] == "-an"@ && stream.args[11] == "-sn"@ && stream.args[12] == "-dn"@);
    let probe = probe_view(input, ffmpeg);
    assert(probe.args[1] == "-v"@ && probe.args[5] == "-frames:v"@ && probe.args[7] == "-f"@);
}

} // verus!
