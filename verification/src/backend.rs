//! Startup of the backend: its configuration, the decision on the media file and the serve loop.

use vstd::prelude::*;

use crate::checks::verdict_view;
use crate::checks::Timeout;
use crate::checks::Verdict;
use crate::path::HostPath;

verus! {

/// Which way the emulated camera faces.
#[derive(Debug, Clone, Copy, PartialEq, Eq, Structural)]
pub enum LensFacing {
    Front,
    Back,
    External,
}

/// The lens facing of that name, if there is one.
pub open spec fn lens_facing_named(name: Seq<char>) -> Option<LensFacing> {
    if name == "FRONT"@ {
        Some(LensFacing::Front)
    } else if name == "BACK"@ {
        Some(LensFacing::Back)
    } else if name == "EXTERNAL"@ {
        Some(LensFacing::External)
    } else {
        None
    }
}

impl LensFacing {
    /// The lens facing of that name, if there is one.
    pub fn from_name(name: &String) -> (lens: Option<LensFacing>)
        ensures
            lens == lens_facing_named(name@),
    {
        if *name == "FRONT".to_owned() {
            Some(LensFacing::Front)
        } else if *name == "BACK".to_owned() {
            Some(LensFacing::Back)
        } else if *name == "EXTERNAL".to_owned() {
            Some(LensFacing::External)
        } else {
            None
        }
    }
}

/// The lens facing of a camera that is given none.
pub const DEFAULT_LENS_FACING: &'static str = "BACK";

/// The FFmpeg program of a backend that is given none, found on the search path.
pub const DEFAULT_FFMPEG_PATH: &'static str = "ffmpeg";

/// Seconds that the decode probe of a backend may take that is given no limit.
pub const DEFAULT_PROBE_TIMEOUT_SECS: u64 = 5;

/// Why the backend ends.
#[derive(Debug, PartialEq, Eq)]
pub enum Error {
    InvalidArgument(String),
    CouldNotCreateDaemon(String),
    ServeFailed(String),
    MediaUnavailable(String),
}

/// The contents of an [`Error`].
pub enum ErrorView {
    InvalidArgument(Seq<char>),
    CouldNotCreateDaemon(Seq<char>),
    ServeFailed(Seq<char>),
    MediaUnavailable(Seq<char>),
}

impl View for Error {
    type V = ErrorView;

    open spec fn view(&self) -> ErrorView {
        match *self {
            Error::InvalidArgument(reason) => ErrorView::InvalidArgument(reason@),
            Error::CouldNotCreateDaemon(reason) => ErrorView::CouldNotCreateDaemon(reason@),
            Error::ServeFailed(reason) => ErrorView::ServeFailed(reason@),
            Error::MediaUnavailable(reason) => ErrorView::MediaUnavailable(reason@),
        }
    }
}

/// An error as it is reported.
pub open spec fn error_message(error: ErrorView) -> Seq<char> {
    match error {
        ErrorView::InvalidArgument(reason) => "Invalid argument: "@ + reason,
        ErrorView::CouldNotCreateDaemon(reason) => "Could not create daemon: "@ + reason,
        ErrorView::ServeFailed(reason) => "Fatal error: "@ + reason,
        ErrorView::MediaUnavailable(reason) => "Media file is unavailable: "@ + reason,
    }
}

impl Error {
    /// The error as it is reported.
    pub fn message(&self) -> (message: String)
        ensures
            message@ == error_message(self@),
    {
        match self {
            Error::InvalidArgument(reason) => "Invalid argument: ".to_owned().concat(
                reason.as_str(),
            ),
            Error::CouldNotCreateDaemon(reason) => "Could not create daemon: ".to_owned().concat(
                reason.as_str(),
            ),
            Error::ServeFailed(reason) => "Fatal error: ".to_owned().concat(reason.as_str()),
            Error::MediaUnavailable(reason) => "Media file is unavailable: ".to_owned().concat(
                reason.as_str(),
            ),
        }
    }
}

/// The command line of the backend.
pub struct CmdLineArgs {
    /// Location of vhost-user Unix domain socket.
    pub socket_path: HostPath,
    /// Lens facing configuration: FRONT, BACK, or EXTERNAL.
    pub lens_facing: String,
    /// Host media file to stream as the camera feed.
    pub media_file: Option<HostPath>,
    /// The FFmpeg program.
    pub ffmpeg_path: HostPath,
    /// Fail startup instead of degrading to test patterns when the media file cannot be used.
    pub require_media: bool,
    /// Seconds that the decode probe may take.
    pub media_probe_timeout: u64,
}

/// The configuration of the backend.
pub struct Config {
    pub socket_path: HostPath,
    pub lens_facing: LensFacing,
    pub media_file: Option<HostPath>,
    pub ffmpeg_path: HostPath,
    pub require_media: bool,
    pub media_probe_timeout: u64,
}

/// The configuration that a command line asks for, or the argument that is at fault.
pub open spec fn configured(args: CmdLineArgs) -> Result<Config, Seq<char>> {
    match lens_facing_named(args.lens_facing@) {
        Some(lens_facing) => Ok(
            Config {
                socket_path: args.socket_path,
                lens_facing,
                media_file: args.media_file,
                ffmpeg_path: args.ffmpeg_path,
                require_media: args.require_media,
                media_probe_timeout: args.media_probe_timeout,
            },
        ),
        None => Err(args.lens_facing@),
    }
}

impl Config {
    /// The configuration that a command line asks for.
    pub fn try_from(args: CmdLineArgs) -> (config: Result<Config, Error>)
        ensures
            match lens_facing_named(args.lens_facing@) {
                Some(lens_facing) => config == Ok::<Config, Error>(
                    (Config {
                        socket_path: args.socket_path,
                        lens_facing,
                        media_file: args.media_file,
                        ffmpeg_path: args.ffmpeg_path,
                        require_media: args.require_media,
                        media_probe_timeout: args.media_probe_timeout,
                    }),
                ),
                None => config matches Err(error) && error@ == ErrorView::InvalidArgument(
                    args.lens_facing@,
                ),
            },
            config matches Ok(accepted) ==> configured(args) == Ok::<Config, Seq<char>>(accepted),
            config matches Err(error) ==> (configured(args) matches Err(argument) && error@
                == ErrorView::InvalidArgument(argument)),
    {
        match LensFacing::from_name(&args.lens_facing) {
            Some(lens_facing) => Ok(
                Config {
                    socket_path: args.socket_path,
                    lens_facing,
                    media_file: args.media_file,
                    ffmpeg_path: args.ffmpeg_path,
                    require_media: args.require_media,
                    media_probe_timeout: args.media_probe_timeout,
                },
            ),
            None => Err(Error::InvalidArgument(args.lens_facing)),
        }
    }

    /// How long the decode probe may take.
    pub fn probe_timeout(&self) -> (timeout: Timeout)
        ensures
            timeout == (Timeout { secs: self.media_probe_timeout, nanos: 0 }),
            timeout.valid(),
    {
        Timeout::from_secs(self.media_probe_timeout)
    }
}

/// Bytes of the card name.
pub const CARD_NAME_LEN: usize = 32;

/// The device node type of a video device.
pub const VFL_TYPE_VIDEO: u32 = 0;

/// What the guest is told of the device.
#[derive(Debug, Clone, Copy, PartialEq, Eq)]
pub struct DeviceConfig {
    pub device_caps: u32,
    pub device_type: u32,
    pub card: [u8; 32],
}

/// The name of the card.
pub open spec fn card_name() -> Seq<char> {
    "emulated_camera"@
}

/// The name of the card in its field: its bytes, and zeros up to the length of the field.
pub open spec fn card_field() -> Seq<u8> {
    Seq::new(
        CARD_NAME_LEN as nat,
        |i: int|
            if i < card_name().len() {
                card_name()[i] as u8
            } else {
                0
            },
    )
}

/// What the guest is told of a device with the capabilities `device_caps`: these, the type of its
/// node and the name of its card.
pub open spec fn announced(device_caps: u32) -> (u32, u32, Seq<u8>) {
    (device_caps, VFL_TYPE_VIDEO, card_field())
}

/// A video device with the capabilities `device_caps`.
pub fn device_config(device_caps: u32) -> (config: DeviceConfig)
    ensures
        config.device_caps == device_caps,
        config.device_type == VFL_TYPE_VIDEO,
        config.card@ == card_field(),
        (config.device_caps, config.device_type, config.card@) == announced(device_caps),
{
    let mut card = [0u8;32];
    let name = "emulated_camera".as_bytes();
    proof {
        reveal_strlit("emulated_camera");
        vstd::utf8::is_ascii_chars_encode_utf8(card_name());
    }
    let mut i: usize = 0;
    while i < name.len()
        invariant
            i <= name@.len() <= 32,
            name@.len() == card_name().len(),
            forall|j: int| 0 <= j < name@.len() ==> name@[j] == card_name()[j] as u8,
            forall|j: int| 0 <= j < 32 ==> card@[j] == (if j < i {
                name@[j]
            } else {
                0
            }),
        decreases name@.len() - i,
    {
        card[i] = name[i];
        i = i + 1;
    }
    assert(card@ =~= card_field());
    DeviceConfig { device_caps, device_type: VFL_TYPE_VIDEO, card }
}

/// What has happened while the backend runs.
pub enum BackendEvent {
    /// The backend is to run.
    Requested,
    /// The media file and FFmpeg were checked.
    Checked(Verdict),
    /// Decoding the media file was tried.
    Probed(Verdict),
    /// The daemon was created, or why it was not.
    DaemonCreated(Result<(), String>),
    /// The daemon has served until it closed, or why it did not.
    Served(Result<(), String>),
}

/// What the backend has to do.
pub enum BackendAction {
    /// Check the media file and FFmpeg.
    CheckMedia,
    /// Try to decode the media file, within this time.
    ProbeMedia(Timeout),
    /// Create a daemon that serves the media file that was decided on.
    CreateDaemon,
    /// Let the daemon serve the socket.
    Serve,
    /// End with this error.
    Fail(Error),
}

/// The contents of a [`BackendAction`].
pub enum BackendStep {
    CheckMedia,
    ProbeMedia(Timeout),
    CreateDaemon,
    Serve,
    Fail(ErrorView),
}

impl View for BackendAction {
    type V = BackendStep;

    open spec fn view(&self) -> BackendStep {
        match *self {
            BackendAction::CheckMedia => BackendStep::CheckMedia,
            BackendAction::ProbeMedia(timeout) => BackendStep::ProbeMedia(timeout),
            BackendAction::CreateDaemon => BackendStep::CreateDaemon,
            BackendAction::Serve => BackendStep::Serve,
            BackendAction::Fail(error) => BackendStep::Fail(error@),
        }
    }
}

/// A backend and the media file that it has decided to serve.
pub struct Backend {
    config: Config,
    media_file: Option<HostPath>,
}

/// The contents of a [`Backend`].
pub struct BackendView {
    /// The socket that is served.
    pub socket_path: Seq<u8>,
    /// Which way the camera faces.
    pub lens_facing: LensFacing,
    /// The FFmpeg program.
    pub ffmpeg_path: Seq<u8>,
    /// How long the decode probe may take.
    pub probe_timeout: Timeout,
    /// The media file that was asked for.
    pub requested: Option<Seq<u8>>,
    /// Whether the backend is to fail where that file cannot be used.
    pub require_media: bool,
    /// The media file that is served; without one the camera shows test patterns only.
    pub media_file: Option<Seq<u8>>,
}

/// The bytes of a path that may be missing.
pub open spec fn path_view(path: Option<HostPath>) -> Option<Seq<u8>> {
    match path {
        Some(path) => Some(path@),
        None => None,
    }
}

/// A backend with the configuration `config` that has decided nothing yet.
pub open spec fn fresh_backend(config: Config) -> BackendView {
    BackendView {
        socket_path: config.socket_path@,
        lens_facing: config.lens_facing,
        ffmpeg_path: config.ffmpeg_path@,
        probe_timeout: (Timeout { secs: config.media_probe_timeout, nanos: 0 }),
        requested: path_view(config.media_file),
        require_media: config.require_media,
        media_file: None,
    }
}

impl View for Backend {
    type V = BackendView;

    closed spec fn view(&self) -> BackendView {
        BackendView { media_file: path_view(self.media_file), ..fresh_backend(self.config) }
    }
}

/// A copy of a path that may be missing.
fn copy_path(path: &Option<HostPath>) -> (copy: Option<HostPath>)
    ensures
        path_view(copy) == path_view(*path),
{
    match path {
        Some(path) => Some(path.clone()),
        None => None,
    }
}

/// The next thing to do.
pub open spec fn backend_step(b: BackendView, event: BackendEvent) -> BackendStep {
    match event {
        BackendEvent::Requested => if b.requested is Some {
            BackendStep::CheckMedia
        } else {
            BackendStep::CreateDaemon
        },
        BackendEvent::Checked(verdict) => match verdict_view(verdict) {
            Err(reason) => if b.require_media {
                BackendStep::Fail(ErrorView::MediaUnavailable(reason))
            } else {
                BackendStep::CreateDaemon
            },
            Ok(_) => if b.require_media {
                BackendStep::ProbeMedia(b.probe_timeout)
            } else {
                BackendStep::CreateDaemon
            },
        },
        BackendEvent::Probed(verdict) => match verdict_view(verdict) {
            Err(reason) => BackendStep::Fail(ErrorView::MediaUnavailable(reason)),
            Ok(_) => BackendStep::CreateDaemon,
        },
        BackendEvent::DaemonCreated(result) => match verdict_view(result) {
            Err(reason) => BackendStep::Fail(ErrorView::CouldNotCreateDaemon(reason)),
            Ok(_) => BackendStep::Serve,
        },
        BackendEvent::Served(result) => match verdict_view(result) {
            Err(reason) => BackendStep::Fail(ErrorView::ServeFailed(reason)),
            Ok(_) => BackendStep::CreateDaemon,
        },
    }
}

/// The media file that is served after an event: the one asked for once it has passed the checks
/// that are made of it.
pub open spec fn backend_media(b: BackendView, event: BackendEvent) -> Option<Seq<u8>> {
    match event {
        BackendEvent::Checked(verdict) => if verdict is Ok && !b.require_media {
            b.requested
        } else {
            b.media_file
        },
        BackendEvent::Probed(verdict) => if verdict is Ok {
            b.requested
        } else {
            b.media_file
        },
        _ => b.media_file,
    }
}

/// A backend that has decided nothing yet.
pub fn start_backend(config: Config) -> (backend: Backend)
    ensures
        backend@ == fresh_backend(config),
        backend.configuration() == config,
{
    Backend { config, media_file: None }
}

impl Backend {
    /// The configuration that the backend was started with.
    pub closed spec fn configuration(&self) -> Config {
        self.config
    }

    /// The configuration that the backend was started with.
    pub fn config(&self) -> (config: &Config)
        ensures
            *config == self.configuration(),
    {
        &self.config
    }

    /// The media file that is served.
    pub fn media_file(&self) -> (media_file: &Option<HostPath>)
        ensures
            path_view(*media_file) == self@.media_file,
    {
        &self.media_file
    }

    /// A step of the backend: the media file is decided on once, then daemons serve the socket
    /// one after the other.
    pub fn next(&mut self, event: BackendEvent) -> (action: BackendAction)
        ensures
            action@ == backend_step(old(self)@, event),
            final(self)@ == backend_next(old(self)@, event),
            final(self).configuration() == old(self).configuration(),
    {
        match event {
            BackendEvent::Requested => if self.config.media_file.is_some() {
                BackendAction::CheckMedia
            } else {
                BackendAction::CreateDaemon
            },
            BackendEvent::Checked(verdict) => match verdict {
                Err(reason) => if self.config.require_media {
                    BackendAction::Fail(Error::MediaUnavailable(reason))
                } else {
                    BackendAction::CreateDaemon
                },
                Ok(_) => if self.config.require_media {
                    BackendAction::ProbeMedia(self.config.probe_timeout())
                } else {
                    self.media_file = copy_path(&self.config.media_file);
                    BackendAction::CreateDaemon
                },
            },
            BackendEvent::Probed(verdict) => match verdict {
                Err(reason) => BackendAction::Fail(Error::MediaUnavailable(reason)),
                Ok(_) => {
                    self.media_file = copy_path(&self.config.media_file);
                    BackendAction::CreateDaemon
                },
            },
            BackendEvent::DaemonCreated(result) => match result {
                Err(reason) => BackendAction::Fail(Error::CouldNotCreateDaemon(reason)),
                Ok(_) => BackendAction::Serve,
            },
            BackendEvent::Served(result) => match result {
                Err(reason) => BackendAction::Fail(Error::ServeFailed(reason)),
                Ok(_) => BackendAction::CreateDaemon,
            },
        }
    }
}

/// The backend after an event.
pub open spec fn backend_next(b: BackendView, event: BackendEvent) -> BackendView {
    BackendView { media_file: backend_media(b, event), ..b }
}

/// The backend after a sequence of events.
pub open spec fn backend_run(b: BackendView, events: Seq<BackendEvent>) -> BackendView
    decreases events.len(),
{
    if events.len() == 0 {
        b
    } else {
        backend_next(backend_run(b, events.drop_last()), events.last())
    }
}

/// Whatever happens, the backend serves the media file that it was asked to serve or none.
pub proof fn only_the_requested_file_is_served(b: BackendView, events: Seq<BackendEvent>)
    requires
        b.media_file is None || b.media_file == b.requested,
    ensures
        backend_run(b, events).media_file is None || backend_run(b, events).media_file
            == b.requested,
        backend_run(b, events) == (BackendView {
            media_file: backend_run(b, events).media_file,
            ..b
        }),
    decreases events.len(),
{
    if events.len() > 0 {
        only_the_requested_file_is_served(b, events.drop_last());
    }
}

/// The media file is decided on once: no daemon that starts, closes or fails changes it.
pub proof fn media_is_decided_once(b: BackendView, events: Seq<BackendEvent>)
    requires
        forall|i: int|
            0 <= i < events.len() ==> #[trigger] events[i] is DaemonCreated || events[i] is Served,
    ensures
        backend_run(b, events) == b,
    decreases events.len(),
{
    if events.len() > 0 {
        assert(events.last() == events[events.len() - 1]);
        assert forall|i: int| 0 <= i < events.len() - 1 implies #[trigger] events.drop_last()[i] is DaemonCreated
            || events.drop_last()[i] is Served by {
            assert(events.drop_last()[i] == events[i]);
        }
        media_is_decided_once(b, events.drop_last());
    }
}

/// What startup decides on: a media file or none, or the reason to fail.
pub open spec fn startup_decision(
    b: BackendView,
    check: Verdict,
    probe: Verdict,
) -> Result<Option<Seq<u8>>, ErrorView> {
    if b.requested is None {
        Ok(None)
    } else {
        match (verdict_view(check), verdict_view(probe)) {
            (Err(reason), _) => if b.require_media {
                Err(ErrorView::MediaUnavailable(reason))
            } else {
                Ok(None)
            },
            (Ok(_), Err(reason)) => if b.require_media {
                Err(ErrorView::MediaUnavailable(reason))
            } else {
                Ok(b.requested)
            },
            (Ok(_), Ok(_)) => Ok(b.requested),
        }
    }
}

/// A step has settled startup as `decision` says.
pub open spec fn settles(
    step: BackendStep,
    b: BackendView,
    decision: Result<Option<Seq<u8>>, ErrorView>,
) -> bool {
    match decision {
        Ok(media_file) => step == BackendStep::CreateDaemon && b.media_file == media_file,
        Err(error) => step == BackendStep::Fail(error),
    }
}

/// The steps of startup come to the decision: without a media file nothing is checked; a file is
/// checked first; only where media is required is it probed as well, and then it is served only if
/// it passed both; where media is not required, a file that fails the check is dropped and the
/// backend runs on without it.
pub proof fn startup_comes_to_the_decision(b: BackendView, check: Verdict, probe: Verdict)
    requires
        b.media_file is None,
    ensures
        ({
            let first = backend_step(b, BackendEvent::Requested);
            let checked = backend_next(b, BackendEvent::Checked(check));
            let second = backend_step(b, BackendEvent::Checked(check));
            let probed = backend_next(checked, BackendEvent::Probed(probe));
            let third = backend_step(checked, BackendEvent::Probed(probe));
            let decision = startup_decision(b, check, probe);
            if b.requested is None {
                settles(first, backend_next(b, BackendEvent::Requested), decision)
            } else if b.require_media && check is Ok {
                &&& first == BackendStep::CheckMedia
                &&& second == BackendStep::ProbeMedia(b.probe_timeout)
                &&& settles(third, probed, decision)
            } else {
                &&& first == BackendStep::CheckMedia
                &&& settles(second, checked, decision)
            }
        }),
{
}

/// Where media is required, the backend never falls back to test patterns: it serves the file, and
/// only if the file passed both checks, or it fails.
pub proof fn required_media_is_never_dropped(b: BackendView, check: Verdict, probe: Verdict)
    requires
        b.require_media,
        b.requested is Some,
    ensures
        startup_decision(b, check, probe) is Ok <==> check is Ok && probe is Ok,
        startup_decision(b, check, probe) matches Ok(media_file) ==> media_file == b.requested,
{
}

/// Where media is not required, an unusable media file does not keep the backend from starting.
pub proof fn optional_media_never_fails_startup(b: BackendView, check: Verdict, probe: Verdict)
    requires
        !b.require_media,
    ensures
        startup_decision(b, check, probe) is Ok,
        startup_decision(b, check, probe) == Ok::<Option<Seq<u8>>, ErrorView>(b.requested)
            <==> b.requested is None || check is Ok,
{
}

/// There are three lens facings, each with one name.
pub proof fn lens_facings_have_their_names(name: Seq<char>)
    ensures
        lens_facing_named(name) == Some(LensFacing::Front) <==> name == "FRONT"@,
        lens_facing_named(name) == Some(LensFacing::Back) <==> name == "BACK"@,
        lens_facing_named(name) == Some(LensFacing::External) <==> name == "EXTERNAL"@,
        lens_facing_named(name) is None <==> name != "FRONT"@ && name != "BACK"@ && name
            != "EXTERNAL"@,
{
    reveal_strlit("FRONT");
    reveal_strlit("BACK");
    reveal_strlit("EXTERNAL");
    assert("FRONT"@.len() == 5 && "BACK"@.len() == 4 && "EXTERNAL"@.len() == 8);
}

/// What is reported of an error says what failed, then why.
pub proof fn messages_say_what_failed(reason: Seq<char>)
    ensures
        error_message(ErrorView::InvalidArgument(reason)) == "Invalid argument: "@ + reason,
        error_message(ErrorView::CouldNotCreateDaemon(reason)) == "Could not create daemon: "@
            + reason,
        error_message(ErrorView::ServeFailed(reason)) == "Fatal error: "@ + reason,
        error_message(ErrorView::MediaUnavailable(reason)) == "Media file is unavailable: "@
            + reason,
{
}

/// An error and the actions of the backend show what they hold.
pub proof fn backend_actions_show_all(reason: String, error: Error, timeout: Timeout)
    ensures
        Error::InvalidArgument(reason)@ == ErrorView::InvalidArgument(reason@),
        Error::CouldNotCreateDaemon(reason)@ == ErrorView::CouldNotCreateDaemon(reason@),
        Error::ServeFailed(reason)@ == ErrorView::ServeFailed(reason@),
        Error::MediaUnavailable(reason)@ == ErrorView::MediaUnavailable(reason@),
        BackendAction::CheckMedia@ is CheckMedia,
        BackendAction::ProbeMedia(timeout)@ == BackendStep::ProbeMedia(timeout),
        BackendAction::CreateDaemon@ is CreateDaemon,
        BackendAction::Serve@ is Serve,
        BackendAction::Fail(error)@ == BackendStep::Fail(error@),
{
}

/// A backend starts with what it is configured with and with no media file decided on.
pub proof fn backend_starts_as_configured(config: Config)
    ensures
        fresh_backend(config).socket_path == config.socket_path@,
        fresh_backend(config).lens_facing == config.lens_facing,
        fresh_backend(config).ffmpeg_path == config.ffmpeg_path@,
        fresh_backend(config).probe_timeout.secs == config.media_probe_timeout,
        fresh_backend(config).probe_timeout.nanos == 0,
        config.media_file matches Some(path) ==> fresh_backend(config).requested == Some(path@),
        config.media_file is None ==> fresh_backend(config).requested is None,
        fresh_backend(config).require_media == config.require_media,
        fresh_backend(config).media_file is None,
{
}

/// Whatever the configuration and the media file decided on, a daemon that was created serves the
/// socket, one that closed gracefully is followed by a new one, and a failure of either ends the
/// backend with its reason; none of it changes the backend.
pub proof fn daemons_follow_one_another(b: BackendView, reason: String)
    ensures
        backend_step(b, BackendEvent::DaemonCreated(Ok(()))) is Serve,
        backend_step(b, BackendEvent::Served(Ok(()))) is CreateDaemon,
        backend_step(b, BackendEvent::DaemonCreated(Err(reason))) == BackendStep::Fail(
            ErrorView::CouldNotCreateDaemon(reason@),
        ),
        backend_step(b, BackendEvent::Served(Err(reason))) == BackendStep::Fail(
            ErrorView::ServeFailed(reason@),
        ),
        backend_next(b, BackendEvent::DaemonCreated(Ok(()))) == b,
        backend_next(b, BackendEvent::Served(Ok(()))) == b,
        backend_next(b, BackendEvent::DaemonCreated(Err(reason))) == b,
        backend_next(b, BackendEvent::Served(Err(reason))) == b,
{
}

/// A backend looks at a media file exactly if it was asked to serve one, whatever else it is
/// configured with, and asking decides nothing yet.
pub proof fn only_a_media_file_is_checked(b: BackendView)
    ensures
        b.requested is Some ==> backend_step(b, BackendEvent::Requested) is CheckMedia,
        b.requested is None ==> backend_step(b, BackendEvent::Requested) is CreateDaemon,
        backend_next(b, BackendEvent::Requested) == b,
{
}

/// An optional media file is served if it passes the check; if it does not, the backend creates its
/// daemon all the same, without it. Nothing but the media file changes.
pub proof fn optional_media_is_served_or_dropped(b: BackendView, reason: String)
    requires
        !b.require_media,
    ensures
        backend_step(b, BackendEvent::Checked(Ok(()))) is CreateDaemon,
        backend_next(b, BackendEvent::Checked(Ok(()))) == (BackendView {
            media_file: b.requested,
            ..b
        }),
        backend_step(b, BackendEvent::Checked(Err(reason))) is CreateDaemon,
        backend_next(b, BackendEvent::Checked(Err(reason))) == b,
{
}

/// Required media that passes the check is probed for the time that was configured, and is served
/// only once it has passed the probe as well; a rejection by either ends the backend with its
/// reason. Nothing but the media file changes.
pub proof fn required_media_is_served_or_fails(b: BackendView, reason: String)
    requires
        b.require_media,
    ensures
        backend_step(b, BackendEvent::Checked(Ok(()))) == BackendStep::ProbeMedia(b.probe_timeout),
        backend_next(b, BackendEvent::Checked(Ok(()))) == b,
        backend_step(b, BackendEvent::Probed(Ok(()))) is CreateDaemon,
        backend_next(b, BackendEvent::Probed(Ok(()))) == (BackendView {
            media_file: b.requested,
            ..b
        }),
        backend_step(b, BackendEvent::Checked(Err(reason))) == BackendStep::Fail(
            ErrorView::MediaUnavailable(reason@),
        ),
        backend_step(b, BackendEvent::Probed(Err(reason))) == BackendStep::Fail(
            ErrorView::MediaUnavailable(reason@),
        ),
        backend_next(b, BackendEvent::Checked(Err(reason))) == b,
        backend_next(b, BackendEvent::Probed(Err(reason))) == b,
{
}

/// The answer to a probe does not depend on whether media is required.
pub proof fn probe_decides_alike(b: BackendView, other: BackendView, verdict: Verdict)
    ensures
        backend_step(b, BackendEvent::Probed(verdict)) == backend_step(
            other,
            BackendEvent::Probed(verdict),
        ),
        verdict is Ok ==> backend_next(b, BackendEvent::Probed(verdict)).media_file == b.requested,
        verdict is Err ==> backend_next(b, BackendEvent::Probed(verdict)) == b,
{
}

/// The guest is told of a video device with the very capabilities that it has, and of a card whose
/// name is `emulated_camera`, with zeros up to the end of its field of 32 bytes.
pub proof fn device_is_announced(device_caps: u32, i: int)
    ensures
        announced(device_caps).0 == device_caps,
        announced(device_caps).1 == 0,
        announced(device_caps).2 == card_field(),
        card_field().len() == 32,
        card_field().take(15) == vstd::utf8::encode_utf8("emulated_camera"@),
        15 <= i < 32 ==> card_field()[i] == 0,
{
    reveal_strlit("emulated_camera");
    vstd::utf8::is_ascii_chars_encode_utf8("emulated_camera"@);
    assert(card_field().take(15) =~= vstd::utf8::encode_utf8("emulated_camera"@));
}

/// A command line is accepted exactly if it names a lens facing, whatever else it holds, and the
/// configuration is then what the command line says; otherwise the lens facing is at fault.
pub proof fn configuration_is_the_command_line(args: CmdLineArgs)
    ensures
        configured(args) is Ok <==> args.lens_facing@ == "FRONT"@ || args.lens_facing@ == "BACK"@
            || args.lens_facing@ == "EXTERNAL"@,
        configured(args) matches Ok(config) ==> {
            &&& config.socket_path == args.socket_path
            &&& config.lens_facing == LensFacing::Front <==> args.lens_facing@ == "FRONT"@
            &&& config.lens_facing == LensFacing::Back <==> args.lens_facing@ == "BACK"@
            &&& config.lens_facing == LensFacing::External <==> args.lens_facing@ == "EXTERNAL"@
            &&& config.media_file == args.media_file
            &&& config.ffmpeg_path == args.ffmpeg_path
            &&& config.require_media == args.require_media
            &&& config.media_probe_timeout == args.media_probe_timeout
        },
        configured(args) matches Err(argument) ==> argument == args.lens_facing@,
{
    lens_facings_have_their_names(args.lens_facing@);
}

} // verus!
