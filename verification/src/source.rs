//! The media source: its lifecycle, its cached frame and the slot of its decoder process.
//!
//! A source is shared by the thread that owns it, a reader thread and watchdog threads. Each
//! method is one atomic step of one of them, taken under the lock of the source. A step returns
//! what its thread has to do next; what comes of that is the event of a later step.
//!
//! `C` is the handle of a child process and `R` the handle of a reader thread.

use std::sync::Arc;
use vstd::prelude::*;

use crate::command::one_shot_command;
use crate::command::stream_command;
use crate::command::CommandLine;
use crate::command::CommandView;
use crate::frame::std_arc_clone;
use crate::frame::Frame;
use crate::frame::Plane;
use crate::frame::FRAME_SIZE;
use crate::kind::detect_kind;
use crate::kind::SourceKind;
use crate::path::HostPath;

verus! {

/// Outcome of filling V4L2 planar buffer sinks from the media cache.
#[derive(Debug, Clone, Copy, PartialEq, Eq, Structural)]
pub enum FillOutcome {
    /// Successfully populated buffer planes with a fresh decoded frame.
    Live,
    /// Population succeeded using a frozen, cached frame after decode failure.
    Frozen,
    /// No frame decoded yet (e.g., warmup, or critical decode failure).
    NoFrame,
}

/// Lifecycle state of the MediaSource background thread.
#[derive(Debug, Clone, Copy, PartialEq, Eq, Structural)]
pub enum SourceState {
    /// Inactive state, child processes and threads are reaped.
    Idle,
    /// Active state, child process/thread is actively decoding/rendering.
    Running,
    /// Unrecoverable decoding error or retry threshold exceeded.
    Failed,
}

/// Seconds that a still image has to be decoded in.
pub const ONE_SHOT_DEADLINE_SECS: u64 = 5;

/// Seconds that a video stream has to deliver its first frame in.
pub const FIRST_FRAME_DEADLINE_SECS: u64 = 5;

/// Handles robust, asynchronous V4L2 frame generation from a host-side file via FFmpeg.
pub struct MediaSource<C, R> {
    path: HostPath,
    ffmpeg: HostPath,
    kind: SourceKind,
    state: SourceState,
    latest: Option<Arc<Frame>>,
    stop: bool,
    child: Option<C>,
    reader: Option<R>,
    watchdog: Option<R>,
    run: u64,
    first_frame: bool,
}

/// The contents of a [`MediaSource`].
pub struct SourceView<C, R> {
    /// The media file.
    pub path: Seq<u8>,
    /// The FFmpeg program.
    pub ffmpeg: Seq<u8>,
    /// What kind of file the media file is.
    pub kind: SourceKind,
    /// The lifecycle state.
    pub state: SourceState,
    /// The frame decoded last.
    pub latest: Option<Seq<u8>>,
    /// Whether the reader thread is asked to stop.
    pub stop: bool,
    /// The decoder process that nobody has taken yet to reap it.
    pub child: Option<C>,
    /// The reader thread that nobody has taken yet to join it.
    pub reader: Option<R>,
    /// The watchdog of the first frame that nobody has taken yet to join it.
    pub watchdog: Option<R>,
    /// The number of the current run: every start has its own.
    pub run: u64,
    /// Whether the current run has read a frame from its stream.
    pub first_frame: bool,
}

impl<C, R> View for MediaSource<C, R> {
    type V = SourceView<C, R>;

    closed spec fn view(&self) -> SourceView<C, R> {
        SourceView {
            path: self.path@,
            ffmpeg: self.ffmpeg@,
            kind: self.kind,
            state: self.state,
            latest: match self.latest {
                Some(frame) => Some(frame@),
                None => None,
            },
            stop: self.stop,
            child: self.child,
            reader: self.reader,
            watchdog: self.watchdog,
            run: self.run,
            first_frame: self.first_frame,
        }
    }
}

/// A source that was never started.
pub open spec fn fresh_source<C, R>(path: Seq<u8>, ffmpeg: Seq<u8>) -> SourceView<C, R> {
    SourceView {
        path,
        ffmpeg,
        kind: crate::kind::kind_of_path(path),
        state: SourceState::Idle,
        latest: None,
        stop: false,
        child: None,
        reader: None,
        watchdog: None,
        run: 0,
        first_frame: false,
    }
}

/// The number of the run after `run`.
pub open spec fn next_run(run: u64) -> u64 {
    if run == u64::MAX {
        0
    } else {
        (run + 1) as u64
    }
}

/// What the owner has seen happen while it stops the source.
#[derive(Debug, Clone, Copy, PartialEq, Eq, Structural)]
pub enum StopEvent {
    /// The source is to be stopped.
    Requested,
    /// What the teardown handed out is reaped and joined: no reader thread and no watchdog is
    /// left.
    TornDown,
    /// What the reader thread left behind is reaped.
    Reaped,
}

/// What the owner has to do to stop the source.
pub enum StopAction<C, R> {
    /// Kill and reap the child, join the reader, then cancel and join the watchdog.
    Teardown { child: Option<C>, reader: Option<R>, watchdog: Option<R> },
    /// Kill and reap the child that the reader left behind.
    Reap(Option<C>),
    /// Nothing more.
    Done,
}

/// The source after a step of stopping it.
pub open spec fn stop_next<C, R>(v: SourceView<C, R>, event: StopEvent) -> SourceView<C, R> {
    match event {
        StopEvent::Requested => SourceView {
            stop: true,
            child: None,
            reader: None,
            watchdog: None,
            ..v
        },
        StopEvent::TornDown => SourceView { child: None, ..v },
        StopEvent::Reaped => SourceView { state: SourceState::Idle, ..v },
    }
}

/// What has to be done after a step of stopping the source.
pub open spec fn stop_action<C, R>(v: SourceView<C, R>, event: StopEvent) -> StopAction<C, R> {
    match event {
        StopEvent::Requested => StopAction::Teardown {
            child: v.child,
            reader: v.reader,
            watchdog: v.watchdog,
        },
        StopEvent::TornDown => StopAction::Reap(v.child),
        StopEvent::Reaped => StopAction::Done,
    }
}

/// What the owner has seen happen while it starts the source.
pub enum StartEvent<C, R> {
    /// The source is to run.
    Requested,
    /// What the teardown handed out is reaped and joined: no reader thread and no watchdog is
    /// left.
    TornDown,
    /// What the reader thread left behind is reaped.
    Reaped,
    /// The stream decoder was spawned.
    Spawned(C),
    /// The stream decoder could not be spawned.
    SpawnFailed,
    /// The thread that decodes the still image was started.
    OneShotStarted(R),
    /// The watchdog of the first frame and the thread that reads the stream were started.
    StreamStarted { reader: R, watchdog: R },
}

/// What the owner has to do to start the source.
pub enum StartAction<C, R> {
    /// Nothing more.
    Done,
    /// Kill and reap the child, join the reader, then cancel and join the watchdog.
    Teardown { child: Option<C>, reader: Option<R>, watchdog: Option<R> },
    /// Kill and reap the child that the reader left behind.
    Reap(Option<C>),
    /// Start the thread that decodes the still image.
    StartOneShot,
    /// Spawn the stream decoder.
    SpawnStream(CommandLine),
    /// Start the watchdog of the first frame of this run, with a deadline in so many seconds, and
    /// the thread that reads the stream.
    StartStream { run: u64, deadline_secs: u64 },
}

/// The contents of a [`StartAction`].
pub enum StartStep<C, R> {
    Done,
    Teardown { child: Option<C>, reader: Option<R>, watchdog: Option<R> },
    Reap(Option<C>),
    StartOneShot,
    SpawnStream(CommandView),
    StartStream { run: u64, deadline_secs: u64 },
}

impl<C, R> View for StartAction<C, R> {
    type V = StartStep<C, R>;

    open spec fn view(&self) -> StartStep<C, R> {
        match *self {
            StartAction::Done => StartStep::Done,
            StartAction::Teardown { child, reader, watchdog } => StartStep::Teardown {
                child,
                reader,
                watchdog,
            },
            StartAction::Reap(child) => StartStep::Reap(child),
            StartAction::StartOneShot => StartStep::StartOneShot,
            StartAction::SpawnStream(command) => StartStep::SpawnStream(command@),
            StartAction::StartStream { run, deadline_secs } => StartStep::StartStream {
                run,
                deadline_secs,
            },
        }
    }
}

/// The source after a step of starting it.
pub open spec fn start_next<C, R>(
    v: SourceView<C, R>,
    event: StartEvent<C, R>,
) -> SourceView<C, R> {
    match event {
        StartEvent::Requested => if v.state == SourceState::Running {
            v
        } else {
            stop_next(v, StopEvent::Requested)
        },
        StartEvent::TornDown => stop_next(v, StopEvent::TornDown),
        StartEvent::Reaped => SourceView {
            state: SourceState::Running,
            stop: false,
            run: next_run(v.run),
            first_frame: false,
            ..v
        },
        StartEvent::Spawned(child) => SourceView { child: Some(child), ..v },
        StartEvent::SpawnFailed => SourceView { state: SourceState::Failed, ..v },
        StartEvent::OneShotStarted(reader) => SourceView { reader: Some(reader), ..v },
        StartEvent::StreamStarted { reader, watchdog } => SourceView {
            reader: Some(reader),
            watchdog: Some(watchdog),
            ..v
        },
    }
}

/// What has to be done after a step of starting the source.
pub open spec fn start_step<C, R>(
    v: SourceView<C, R>,
    event: StartEvent<C, R>,
) -> StartStep<C, R> {
    match event {
        StartEvent::Requested => if v.state == SourceState::Running {
            StartStep::Done
        } else {
            StartStep::Teardown { child: v.child, reader: v.reader, watchdog: v.watchdog }
        },
        StartEvent::TornDown => StartStep::Reap(v.child),
        StartEvent::Reaped => match v.kind {
            SourceKind::StillImage => StartStep::StartOneShot,
            SourceKind::Video => StartStep::SpawnStream(
                crate::command::stream_view(v.path, v.ffmpeg),
            ),
        },
        StartEvent::Spawned(_) => StartStep::StartStream {
            run: v.run,
            deadline_secs: FIRST_FRAME_DEADLINE_SECS,
        },
        _ => StartStep::Done,
    }
}

/// What the thread that decodes a still image has seen happen.
pub enum OneShotEvent<C> {
    /// The thread runs.
    Begin,
    /// The decoder was spawned.
    Spawned(C),
    /// The decoder could not be spawned.
    SpawnFailed,
    /// Bytes came through the pipe.
    Data(Vec<u8>),
    /// The pipe has ended, or reading from it failed.
    Ended,
}

/// What the thread that decodes a still image has to do.
pub enum OneShotAction<C> {
    /// Spawn the decoder.
    Spawn(CommandLine),
    /// Start the watchdog of the decoder in this run, with a deadline in so many seconds, then read
    /// so many bytes or fewer.
    StartReading { run: u64, deadline_secs: u64, wanted: usize },
    /// Read so many bytes from the pipe or fewer.
    Read(usize),
    /// Reap the child, cancel and join the watchdog, and end.
    Reap(Option<C>),
    /// Kill and reap the child, cancel and join the watchdog, and end.
    KillAndReap(Option<C>),
    /// End.
    Exit,
}

/// The contents of a [`OneShotAction`].
pub enum OneShotStep<C> {
    Spawn(CommandView),
    StartReading { run: u64, deadline_secs: u64, wanted: int },
    Read(int),
    Reap(Option<C>),
    KillAndReap(Option<C>),
    Exit,
}

impl<C> View for OneShotAction<C> {
    type V = OneShotStep<C>;

    open spec fn view(&self) -> OneShotStep<C> {
        match *self {
            OneShotAction::Spawn(command) => OneShotStep::Spawn(command@),
            OneShotAction::StartReading { run, deadline_secs, wanted } => OneShotStep::StartReading {
                run,
                deadline_secs,
                wanted: wanted as int,
            },
            OneShotAction::Read(wanted) => OneShotStep::Read(wanted as int),
            OneShotAction::Reap(child) => OneShotStep::Reap(child),
            OneShotAction::KillAndReap(child) => OneShotStep::KillAndReap(child),
            OneShotAction::Exit => OneShotStep::Exit,
        }
    }
}

/// What has come of the frame of a still image, less than all of it.
pub struct OneShotReader {
    pending: Vec<u8>,
}

impl View for OneShotReader {
    type V = Seq<u8>;

    closed spec fn view(&self) -> Seq<u8> {
        self.pending@
    }
}

impl OneShotReader {
    #[verifier::type_invariant]
    spec fn lacks_something(self) -> bool {
        self.pending@.len() < FRAME_SIZE
    }

    /// A reader that has read nothing yet.
    pub fn new() -> (reader: Self)
        ensures
            reader@ == Seq::<u8>::empty(),
    {
        OneShotReader { pending: Vec::new() }
    }
}

/// The source after a step of decoding a still image, of whose frame `pending` has come so far.
pub open spec fn one_shot_next<C, R>(
    v: SourceView<C, R>,
    pending: Seq<u8>,
    event: OneShotEvent<C>,
) -> SourceView<C, R> {
    match event {
        OneShotEvent::Begin => v,
        OneShotEvent::Spawned(child) => SourceView { child: Some(child), ..v },
        OneShotEvent::SpawnFailed => SourceView { state: SourceState::Failed, ..v },
        OneShotEvent::Data(data) => if (pending + data@).len() < FRAME_SIZE {
            v
        } else {
            SourceView {
                latest: Some((pending + data@).take(FRAME_SIZE as int)),
                child: None,
                ..v
            }
        },
        OneShotEvent::Ended => SourceView { state: SourceState::Failed, child: None, ..v },
    }
}

/// What has come of the frame after a step of decoding a still image.
pub open spec fn one_shot_pending<C>(pending: Seq<u8>, event: OneShotEvent<C>) -> Seq<u8> {
    match event {
        OneShotEvent::Data(data) => if (pending + data@).len() < FRAME_SIZE {
            pending + data@
        } else {
            Seq::empty()
        },
        _ => pending,
    }
}

/// What has to be done after a step of decoding a still image.
pub open spec fn one_shot_step<C, R>(
    v: SourceView<C, R>,
    pending: Seq<u8>,
    event: OneShotEvent<C>,
) -> OneShotStep<C> {
    match event {
        OneShotEvent::Begin => OneShotStep::Spawn(
            crate::command::one_shot_view(v.path, v.ffmpeg),
        ),
        OneShotEvent::Spawned(_) => OneShotStep::StartReading {
            run: v.run,
            deadline_secs: ONE_SHOT_DEADLINE_SECS,
            wanted: FRAME_SIZE - pending.len(),
        },
        OneShotEvent::SpawnFailed => OneShotStep::Exit,
        OneShotEvent::Data(data) => if (pending + data@).len() < FRAME_SIZE {
            OneShotStep::Read(FRAME_SIZE - (pending + data@).len())
        } else {
            OneShotStep::Reap(v.child)
        },
        OneShotEvent::Ended => OneShotStep::KillAndReap(v.child),
    }
}

/// The child that the deadline of a still image of the run `run` hands out: none unless that run
/// is the current one.
pub open spec fn one_shot_overdue<C, R>(v: SourceView<C, R>, run: u64) -> Option<C> {
    if run == v.run {
        v.child
    } else {
        None
    }
}

/// The source after the deadline of a still image of the run `run` has passed.
pub open spec fn one_shot_deadline_next<C, R>(v: SourceView<C, R>, run: u64) -> SourceView<C, R> {
    if one_shot_overdue(v, run) is Some {
        SourceView { child: None, ..v }
    } else {
        v
    }
}

/// The child that the deadline for the first frame of the run `run` hands out: none unless that
/// run is the current one and has read no frame.
pub open spec fn first_frame_overdue<C, R>(v: SourceView<C, R>, run: u64) -> Option<C> {
    if run == v.run && !v.first_frame {
        v.child
    } else {
        None
    }
}

/// The source after the deadline for the first frame of the run `run` has passed.
pub open spec fn first_frame_deadline_next<C, R>(
    v: SourceView<C, R>,
    run: u64,
) -> SourceView<C, R> {
    if first_frame_overdue(v, run) is Some {
        SourceView { state: SourceState::Failed, child: None, ..v }
    } else {
        v
    }
}

/// The error code of a plane that could not be written, `EIO`.
pub open spec fn io_error() -> i32 {
    5
}

/// Reads `libc::EIO`.
///
/// Believed without proof: the code of an input/output error is 5.
#[verifier::external_body]
fn libc_eio() -> (code: i32)
    ensures
        code == io_error(),
{
    libc::EIO
}

/// A plane of a frame that is to be written to its sink.
pub struct PlaneWrite {
    frame: Arc<Frame>,
    plane: Plane,
}

impl PlaneWrite {
    /// The frame that the plane belongs to.
    pub closed spec fn frame(self) -> Seq<u8> {
        self.frame@
    }

    /// The plane.
    pub closed spec fn which(self) -> Plane {
        self.plane
    }

    /// The plane, and so the sink to write to.
    pub fn plane(&self) -> (plane: Plane)
        ensures
            plane == self.which(),
    {
        self.plane
    }

    /// The bytes to write.
    pub fn bytes(&self) -> (bytes: &[u8])
        ensures
            bytes@ == crate::frame::plane_bytes(self.frame(), self.which()),
            bytes@.len() == self.which().size(),
    {
        self.frame.plane(self.plane)
    }
}

/// What has happened while the planes are filled.
pub enum FillEvent {
    /// The planes are to be filled.
    Requested,
    /// A plane was written to its sink, all of it.
    Written(PlaneWrite),
    /// The sink of a plane refused it.
    WriteFailed(PlaneWrite),
}

/// What has to be done to fill the planes.
pub enum FillAction {
    /// Write the bytes of a plane to its sink.
    Write(PlaneWrite),
    /// Nothing more: this is what came of it, or the error code.
    Done(Result<FillOutcome, i32>),
}

/// The contents of a [`FillAction`].
pub enum FillStep {
    /// Write a plane of a frame.
    Write { frame: Seq<u8>, plane: Plane },
    /// Nothing more.
    Done(Result<FillOutcome, i32>),
}

impl View for FillAction {
    type V = FillStep;

    open spec fn view(&self) -> FillStep {
        match *self {
            FillAction::Write(write) => FillStep::Write {
                frame: write.frame(),
                plane: write.which(),
            },
            FillAction::Done(result) => FillStep::Done(result),
        }
    }
}

/// The next step of filling the planes: Y, U and V of the frame that was cached when it began.
pub open spec fn fill_step<C, R>(v: SourceView<C, R>, event: FillEvent) -> FillStep {
    match event {
        FillEvent::Requested => match v.latest {
            None => FillStep::Done(Ok(FillOutcome::NoFrame)),
            Some(frame) => FillStep::Write { frame, plane: Plane::Y },
        },
        FillEvent::Written(done) => match done.which() {
            Plane::Y => FillStep::Write { frame: done.frame(), plane: Plane::U },
            Plane::U => FillStep::Write { frame: done.frame(), plane: Plane::V },
            Plane::V => FillStep::Done(
                Ok(
                    if v.state == SourceState::Failed {
                        FillOutcome::Frozen
                    } else {
                        FillOutcome::Live
                    },
                ),
            ),
        },
        FillEvent::WriteFailed(_) => FillStep::Done(Err(io_error())),
    }
}

impl<C, R> MediaSource<C, R> {
    /// Constructs a new MediaSource with lazy process initialization.
    pub fn new(path: HostPath, ffmpeg: HostPath) -> (source: Self)
        ensures
            source@ == fresh_source::<C, R>(path@, ffmpeg@),
    {
        let kind = detect_kind(&path);
        MediaSource {
            path,
            ffmpeg,
            kind,
            state: SourceState::Idle,
            latest: None,
            stop: false,
            child: None,
            reader: None,
            watchdog: None,
            run: 0,
            first_frame: false,
        }
    }

    /// Accessor for the resolved SourceKind.
    pub fn kind(&self) -> (kind: SourceKind)
        ensures
            kind == self@.kind,
    {
        self.kind
    }

    /// The lifecycle state.
    pub fn state(&self) -> (state: SourceState)
        ensures
            state == self@.state,
    {
        self.state
    }

    /// Whether the reader thread is asked to stop.
    pub fn stop_requested(&self) -> (stop: bool)
        ensures
            stop == self@.stop,
    {
        self.stop
    }

    /// Idempotently ensures the background decoder is running.
    /// Resets the Failed state and spawns a fresh child process / reader on stream restarts.
    pub fn ensure_started(&mut self, event: StartEvent<C, R>) -> (action: StartAction<C, R>)
        ensures
            final(self)@ == start_next(old(self)@, event),
            action@ == start_step(old(self)@, event),
    {
        match event {
            StartEvent::Requested => {
                if self.state == SourceState::Running {
                    return StartAction::Done;
                }
                let (child, reader, watchdog) = self.request_stop();
                StartAction::Teardown { child, reader, watchdog }
            },
            StartEvent::TornDown => StartAction::Reap(self.take_child()),
            StartEvent::Reaped => {
                self.stop = false;
                self.state = SourceState::Running;
                self.first_frame = false;
                self.run = if self.run == u64::MAX {
                    0
                } else {
                    self.run + 1
                };
                match self.kind {
                    SourceKind::StillImage => StartAction::StartOneShot,
                    SourceKind::Video => StartAction::SpawnStream(self.stream_command()),
                }
            },
            StartEvent::Spawned(child) => {
                self.put_child(child);
                StartAction::StartStream {
                    run: self.run,
                    deadline_secs: FIRST_FRAME_DEADLINE_SECS,
                }
            },
            StartEvent::SpawnFailed => {
                self.fail();
                StartAction::Done
            },
            StartEvent::OneShotStarted(reader) => {
                self.reader = Some(reader);
                StartAction::Done
            },
            StartEvent::StreamStarted { reader, watchdog } => {
                self.reader = Some(reader);
                self.watchdog = Some(watchdog);
                StartAction::Done
            },
        }
    }

    /// Stops the decoder background threads and child processes.
    /// Always wait and reap the child to prevent zombie processes.
    pub fn stop(&mut self, event: StopEvent) -> (action: StopAction<C, R>)
        ensures
            final(self)@ == stop_next(old(self)@, event),
            action == stop_action(old(self)@, event),
    {
        match event {
            StopEvent::Requested => {
                let (child, reader, watchdog) = self.request_stop();
                StopAction::Teardown { child, reader, watchdog }
            },
            StopEvent::TornDown => StopAction::Reap(self.take_child()),
            StopEvent::Reaped => {
                self.state = SourceState::Idle;
                StopAction::Done
            },
        }
    }

    /// Asks the reader to stop and hands out what is to be reaped and joined.
    fn request_stop(&mut self) -> (taken: (Option<C>, Option<R>, Option<R>))
        ensures
            final(self)@ == stop_next(old(self)@, StopEvent::Requested),
            taken == (old(self)@.child, old(self)@.reader, old(self)@.watchdog),
    {
        self.stop = true;
        let child = self.child.take();
        let reader = self.reader.take();
        let watchdog = self.watchdog.take();
        (child, reader, watchdog)
    }

    /// The command that decodes the file as a still image.
    fn one_shot_command(&self) -> (command: CommandLine)
        ensures
            command@ == crate::command::one_shot_view(self@.path, self@.ffmpeg),
    {
        one_shot_command(&self.path, &self.ffmpeg)
    }

    /// The command that decodes the file as a looping stream.
    pub(crate) fn stream_command(&self) -> (command: CommandLine)
        ensures
            command@ == crate::command::stream_view(self@.path, self@.ffmpeg),
    {
        stream_command(&self.path, &self.ffmpeg)
    }

    /// Puts a frame that was read from the stream into the cache; a source that had failed runs
    /// again.
    pub(crate) fn cache_streamed(&mut self, frame: Frame)
        ensures
            final(self)@ == (SourceView {
                latest: Some(frame@),
                first_frame: true,
                state: if old(self)@.state == SourceState::Failed {
                    SourceState::Running
                } else {
                    old(self)@.state
                },
                ..old(self)@
            }),
    {
        self.latest = Some(Arc::new(frame));
        self.first_frame = true;
        if self.state == SourceState::Failed {
            self.state = SourceState::Running;
        }
    }

    /// Marks the source as failed.
    pub(crate) fn fail(&mut self)
        ensures
            final(self)@ == (SourceView { state: SourceState::Failed, ..old(self)@ }),
    {
        self.state = SourceState::Failed;
    }

    /// Puts a decoder process into the slot.
    pub(crate) fn put_child(&mut self, child: C)
        ensures
            final(self)@ == (SourceView { child: Some(child), ..old(self)@ }),
    {
        self.child = Some(child);
    }

    /// Takes the decoder process out of the slot.
    pub(crate) fn take_child(&mut self) -> (child: Option<C>)
        ensures
            final(self)@ == (SourceView { child: None, ..old(self)@ }),
            child == old(self)@.child,
    {
        self.child.take()
    }

    /// A step of the thread that decodes a still image.
    pub fn decode_one_shot(&mut self, reader: &mut OneShotReader, event: OneShotEvent<C>) -> (action:
        OneShotAction<C>)
        ensures
            final(self)@ == one_shot_next(old(self)@, old(reader)@, event),
            final(reader)@ == one_shot_pending(old(reader)@, event),
            action@ == one_shot_step(old(self)@, old(reader)@, event),
    {
        proof {
            use_type_invariant(&*reader);
        }
        match event {
            OneShotEvent::Begin => OneShotAction::Spawn(self.one_shot_command()),
            OneShotEvent::Spawned(child) => {
                self.put_child(child);
                OneShotAction::StartReading {
                    run: self.run,
                    deadline_secs: ONE_SHOT_DEADLINE_SECS,
                    wanted: FRAME_SIZE - reader.pending.len(),
                }
            },
            OneShotEvent::SpawnFailed => {
                self.fail();
                OneShotAction::Exit
            },
            OneShotEvent::Data(data) => {
                let mut total: Vec<u8> = Vec::new();
                std::mem::swap(&mut total, &mut reader.pending);
                total.extend_from_slice(data.as_slice());
                assert(total@ =~= old(reader)@ + data@);
                match Frame::new(total.as_slice()) {
                    Some(frame) => {
                        self.latest = Some(Arc::new(frame));
                        OneShotAction::Reap(self.take_child())
                    },
                    None => {
                        let wanted: usize = FRAME_SIZE - total.len();
                        reader.pending = total;
                        OneShotAction::Read(wanted)
                    },
                }
            },
            OneShotEvent::Ended => {
                self.fail();
                OneShotAction::KillAndReap(self.take_child())
            },
        }
    }

    /// The deadline for decoding the still image of the run `run` has passed: a child of that run
    /// that is still there is to be killed and reaped.
    pub fn one_shot_deadline(&mut self, run: u64) -> (child: Option<C>)
        ensures
            final(self)@ == one_shot_deadline_next(old(self)@, run),
            child == one_shot_overdue(old(self)@, run),
    {
        if run != self.run {
            return None;
        }
        self.take_child()
    }

    /// The deadline for the first frame of the run `run` has passed: if that run has read none, a
    /// child of it that is still there is to be killed and reaped, and the source has failed.
    pub fn first_frame_deadline(&mut self, run: u64) -> (child: Option<C>)
        ensures
            final(self)@ == first_frame_deadline_next(old(self)@, run),
            child == first_frame_overdue(old(self)@, run),
    {
        if run != self.run || self.first_frame {
            return None;
        }
        let child = self.take_child();
        if child.is_some() {
            self.fail();
        }
        child
    }

    /// Copies the cached decoded frame into the planar V4L2 output buffers, one plane after the
    /// other and each from the same frame.
    pub fn fill(&self, event: FillEvent) -> (action: FillAction)
        ensures
            action@ == fill_step(self@, event),
    {
        match event {
            FillEvent::Requested => match &self.latest {
                None => FillAction::Done(Ok(FillOutcome::NoFrame)),
                Some(frame) => FillAction::Write(
                    PlaneWrite { frame: std_arc_clone(frame), plane: Plane::Y },
                ),
            },
            FillEvent::Written(done) => match done.plane {
                Plane::Y => FillAction::Write(PlaneWrite { frame: done.frame, plane: Plane::U }),
                Plane::U => FillAction::Write(PlaneWrite { frame: done.frame, plane: Plane::V }),
                Plane::V => if self.state == SourceState::Failed {
                    FillAction::Done(Ok(FillOutcome::Frozen))
                } else {
                    FillAction::Done(Ok(FillOutcome::Live))
                },
            },
            FillEvent::WriteFailed(_) => FillAction::Done(Err(libc_eio())),
        }
    }

    /// Puts a frame into the cache.
    pub fn set_latest_frame_for_test(&mut self, frame: Arc<Frame>)
        ensures
            final(self)@ == (SourceView { latest: Some(frame@), ..old(self)@ }),
    {
        self.latest = Some(frame);
    }

    /// Marks the source as failed.
    pub fn set_failed_for_test(&mut self)
        ensures
            final(self)@ == (SourceView { state: SourceState::Failed, ..old(self)@ }),
    {
        self.state = SourceState::Failed;
    }
}

/// Starting a source that runs changes nothing and asks for nothing.
pub proof fn starting_a_running_source_does_nothing<C, R>(v: SourceView<C, R>)
    requires
        v.state == SourceState::Running,
    ensures
        start_next(v, StartEvent::Requested) == v,
        start_step(v, StartEvent::Requested) == StartStep::<C, R>::Done,
{
}

/// A source that has failed or was stopped can be started again: it runs, in a run of its own,
/// nothing of the previous run is left in it, and the cached frame stays.
pub proof fn restart_resets_the_source<C, R>(v: SourceView<C, R>)
    requires
        v.state != SourceState::Running,
    ensures
        start_step(v, StartEvent::Requested) == (StartStep::Teardown {
            child: v.child,
            reader: v.reader,
            watchdog: v.watchdog,
        }),
        start_next(
            start_next(start_next(v, StartEvent::Requested), StartEvent::TornDown),
            StartEvent::Reaped,
        ) == (SourceView {
            state: SourceState::Running,
            stop: false,
            child: None,
            reader: None,
            watchdog: None,
            run: next_run(v.run),
            first_frame: false,
            ..v
        }),
        next_run(v.run) != v.run,
{
}

/// A stopped source is idle, with no child and no thread left in it, and what was in it was handed
/// out; stopping it again changes nothing and hands out nothing.
pub proof fn stopping_empties_the_source<C, R>(v: SourceView<C, R>)
    ensures
        ({
            let stopped = stop_next(
                stop_next(stop_next(v, StopEvent::Requested), StopEvent::TornDown),
                StopEvent::Reaped,
            );
            let again = stop_next(
                stop_next(stop_next(stopped, StopEvent::Requested), StopEvent::TornDown),
                StopEvent::Reaped,
            );
            &&& stop_action(v, StopEvent::Requested) == (StopAction::Teardown {
                child: v.child,
                reader: v.reader,
                watchdog: v.watchdog,
            })
            &&& stopped == (SourceView {
                state: SourceState::Idle,
                stop: true,
                child: None,
                reader: None,
                watchdog: None,
                ..v
            })
            &&& again == stopped
            &&& stop_action(stopped, StopEvent::Requested) == (StopAction::Teardown {
                child: None::<C>,
                reader: None::<R>,
                watchdog: None::<R>,
            })
        }),
{
}

/// A deadline of a run that is over changes nothing and hands out nothing.
pub proof fn earlier_deadline_changes_nothing<C, R>(v: SourceView<C, R>, run: u64)
    requires
        run != v.run,
    ensures
        first_frame_deadline_next(v, run) == v,
        first_frame_overdue(v, run) is None,
        one_shot_deadline_next(v, run) == v,
        one_shot_overdue(v, run) is None,
{
}

/// A run that has read a frame is not touched by the deadline for its first frame.
pub proof fn first_frame_meets_the_deadline<C, R>(v: SourceView<C, R>, run: u64)
    requires
        v.first_frame,
    ensures
        first_frame_deadline_next(v, run) == v,
        first_frame_overdue(v, run) is None,
{
}

/// The bytes that a sequence of chunks makes up.
pub open spec fn joined(chunks: Seq<Vec<u8>>) -> Seq<u8>
    decreases chunks.len(),
{
    if chunks.len() == 0 {
        Seq::empty()
    } else {
        joined(chunks.drop_last()) + chunks.last()@
    }
}

/// What has come of the frame of a still image after chunks that do not complete it.
pub open spec fn one_shot_pending_run(chunks: Seq<Vec<u8>>) -> Seq<u8>
    decreases chunks.len(),
{
    if chunks.len() == 0 {
        Seq::empty()
    } else {
        one_shot_pending::<()>(
            one_shot_pending_run(chunks.drop_last()),
            OneShotEvent::Data(chunks.last()),
        )
    }
}

/// The frame of a still image is what its decoder wrote first, however the pipe cuts it up: before
/// the chunk `last` too little has come, and with it the first `FRAME_SIZE` bytes of everything
/// are cached and the decoder is reaped; the state does not change.
pub proof fn still_image_is_the_first_frame<C, R>(
    v: SourceView<C, R>,
    chunks: Seq<Vec<u8>>,
    last: Vec<u8>,
)
    requires
        joined(chunks).len() < FRAME_SIZE,
        (joined(chunks) + last@).len() >= FRAME_SIZE,
    ensures
        one_shot_pending_run(chunks) == joined(chunks),
        one_shot_next(v, one_shot_pending_run(chunks), OneShotEvent::<C>::Data(last)) == (
        SourceView {
            latest: Some((joined(chunks) + last@).take(FRAME_SIZE as int)),
            child: None,
            ..v
        }),
        one_shot_step(v, one_shot_pending_run(chunks), OneShotEvent::<C>::Data(last))
            == OneShotStep::Reap(v.child),
{
    one_shot_pending_is_what_came(chunks);
}

proof fn one_shot_pending_is_what_came(chunks: Seq<Vec<u8>>)
    requires
        joined(chunks).len() < FRAME_SIZE,
    ensures
        one_shot_pending_run(chunks) == joined(chunks),
    decreases chunks.len(),
{
    if chunks.len() > 0 {
        one_shot_pending_is_what_came(chunks.drop_last());
    }
}

/// Filling that succeeds writes one whole frame, the one that was cached when it began, whatever
/// happens to the source meanwhile: `v0` to `v3` is the source at each of its steps, `y`, `u` and
/// `w` what is written.
pub proof fn filling_writes_one_frame<C, R>(
    v0: SourceView<C, R>,
    v1: SourceView<C, R>,
    v2: SourceView<C, R>,
    v3: SourceView<C, R>,
    y: PlaneWrite,
    u: PlaneWrite,
    w: PlaneWrite,
)
    requires
        v0.latest matches Some(frame) && frame.len() == FRAME_SIZE,
        FillAction::Write(y)@ == fill_step(v0, FillEvent::Requested),
        FillAction::Write(u)@ == fill_step(v1, FillEvent::Written(y)),
        FillAction::Write(w)@ == fill_step(v2, FillEvent::Written(u)),
    ensures
        y.which() == Plane::Y,
        u.which() == Plane::U,
        w.which() == Plane::V,
        crate::frame::plane_bytes(y.frame(), y.which()) + crate::frame::plane_bytes(
            u.frame(),
            u.which(),
        ) + crate::frame::plane_bytes(w.frame(), w.which()) == v0.latest->0,
        fill_step(v3, FillEvent::Written(w)) == FillStep::Done(
            Ok(
                if v3.state == SourceState::Failed {
                    FillOutcome::Frozen
                } else {
                    FillOutcome::Live
                },
            ),
        ),
{
    crate::frame::planes_tile_the_frame(v0.latest->0);
}

/// A source that was never started is idle and empty, and its kind is that of its file.
pub proof fn new_source_is_empty<C, R>(path: Seq<u8>, ffmpeg: Seq<u8>)
    ensures
        ({
            let v = fresh_source::<C, R>(path, ffmpeg);
            &&& v.path == path
            &&& v.ffmpeg == ffmpeg
            &&& v.kind == crate::kind::kind_of_path(path)
            &&& v.state == SourceState::Idle
            &&& v.latest is None
            &&& !v.stop
            &&& v.child is None
            &&& v.reader is None
            &&& v.watchdog is None
            &&& !v.first_frame
        }),
{
}

/// Each start has a run of its own: no number comes again before all have been used.
pub proof fn runs_are_told_apart(one: u64, other: u64)
    ensures
        one != other ==> next_run(one) != next_run(other),
        one < u64::MAX ==> next_run(one) == one + 1,
        next_run(u64::MAX) == 0,
{
}

/// Stopping hands out everything that runs, asks the reader to stop and empties the source; then
/// it hands out what the reader has left behind; and only then the source is idle. Neither the
/// cached frame nor anything else changes.
pub proof fn stop_hands_out_everything<C, R>(v: SourceView<C, R>)
    ensures
        stop_action(v, StopEvent::Requested) == (StopAction::Teardown {
            child: v.child,
            reader: v.reader,
            watchdog: v.watchdog,
        }),
        stop_next(v, StopEvent::Requested) == (SourceView {
            stop: true,
            child: None,
            reader: None,
            watchdog: None,
            ..v
        }),
        stop_action(v, StopEvent::TornDown) == StopAction::<C, R>::Reap(v.child),
        stop_next(v, StopEvent::TornDown) == (SourceView { child: None, ..v }),
        stop_action(v, StopEvent::Reaped) == StopAction::<C, R>::Done,
        stop_next(v, StopEvent::Reaped) == (SourceView { state: SourceState::Idle, ..v }),
{
}

/// Starting a source that does not run tears it down as stopping does, step for step.
pub proof fn start_tears_down_as_stop_does<C, R>(v: SourceView<C, R>)
    ensures
        v.state != SourceState::Running ==> {
            &&& start_next(v, StartEvent::Requested) == stop_next(v, StopEvent::Requested)
            &&& start_step(v, StartEvent::Requested) == (StartStep::Teardown {
                child: v.child,
                reader: v.reader,
                watchdog: v.watchdog,
            })
        },
        start_next(v, StartEvent::TornDown) == stop_next(v, StopEvent::TornDown),
        start_step(v, StartEvent::TornDown) == StartStep::<C, R>::Reap(v.child),
{
}

/// Every start comes to its decoder, whatever frame is cached and whatever happened before: a still
/// image is handed to its thread, and of a video the decoder of this very file is spawned, with the
/// FFmpeg of this source. The source runs, in a new run that has read nothing, and nobody is asked
/// to stop any longer.
pub proof fn every_start_asks_for_the_decoder<C, R>(v: SourceView<C, R>)
    ensures
        v.kind == SourceKind::StillImage ==> start_step(v, StartEvent::Reaped)
            == StartStep::<C, R>::StartOneShot,
        v.kind == SourceKind::Video ==> {
            &&& start_step(v, StartEvent::Reaped) matches StartStep::SpawnStream(command)
            &&& command == crate::command::stream_view(v.path, v.ffmpeg)
            &&& command.program == v.ffmpeg
        },
        start_next(v, StartEvent::Reaped) == (SourceView {
            state: SourceState::Running,
            stop: false,
            first_frame: false,
            run: start_next(v, StartEvent::Reaped).run,
            ..v
        }),
        start_next(v, StartEvent::Reaped).run != v.run,
        start_next(v, StartEvent::Reaped).run == next_run(v.run),
{
}

/// A decoder that was spawned is put into the source, and its stream is read in the current run
/// with five seconds for the first frame; without a decoder the source has failed. The handles of
/// the threads are kept. Nothing else changes.
pub proof fn start_keeps_what_was_started<C, R>(
    v: SourceView<C, R>,
    child: C,
    reader: R,
    watchdog: R,
)
    ensures
        start_step(v, StartEvent::Spawned(child)) == (StartStep::<C, R>::StartStream {
            run: v.run,
            deadline_secs: 5,
        }),
        start_next(v, StartEvent::Spawned(child)) == (SourceView { child: Some(child), ..v }),
        start_step(v, StartEvent::SpawnFailed) == StartStep::<C, R>::Done,
        start_next(v, StartEvent::SpawnFailed) == (SourceView { state: SourceState::Failed, ..v }),
        start_step(v, StartEvent::OneShotStarted(reader)) == StartStep::<C, R>::Done,
        start_next(v, StartEvent::OneShotStarted(reader)) == (SourceView {
            reader: Some(reader),
            ..v
        }),
        start_step(v, StartEvent::StreamStarted { reader, watchdog }) == StartStep::<C, R>::Done,
        start_next(v, StartEvent::StreamStarted { reader, watchdog }) == (SourceView {
            reader: Some(reader),
            watchdog: Some(watchdog),
            ..v
        }),
{
}

/// The thread of a still image spawns its decoder on the file, with the FFmpeg of the source, puts
/// it into the source and reads a whole frame, with five seconds for all of it; without a decoder
/// it has failed and ends.
pub proof fn still_image_is_decoded_in_time<C, R>(
    v: SourceView<C, R>,
    pending: Seq<u8>,
    child: C,
)
    ensures
        one_shot_step(v, pending, OneShotEvent::<C>::Begin) == OneShotStep::<C>::Spawn(
            crate::command::one_shot_view(v.path, v.ffmpeg),
        ),
        one_shot_next(v, pending, OneShotEvent::<C>::Begin) == v,
        one_shot_step(v, pending, OneShotEvent::Spawned(child)) == (OneShotStep::<
            C,
        >::StartReading { run: v.run, deadline_secs: 5, wanted: 460800 - pending.len() }),
        one_shot_next(v, pending, OneShotEvent::Spawned(child)) == (SourceView {
            child: Some(child),
            ..v
        }),
        one_shot_step(v, pending, OneShotEvent::<C>::SpawnFailed) == OneShotStep::<C>::Exit,
        one_shot_next(v, pending, OneShotEvent::<C>::SpawnFailed) == (SourceView {
            state: SourceState::Failed,
            ..v
        }),
        one_shot_pending(pending, OneShotEvent::<C>::Begin) == pending,
        one_shot_pending(pending, OneShotEvent::Spawned(child)) == pending,
{
}

/// What comes through the pipe of a still image adds up: as long as it is less than a frame, the
/// rest is read and nothing changes; once it is a frame, that frame is cached and the decoder,
/// taken out of the source, is waited for.
pub proof fn still_image_data_adds_up<C, R>(v: SourceView<C, R>, pending: Seq<u8>, data: Vec<u8>)
    ensures
        ({
            let bytes = pending + data@;
            let event = OneShotEvent::<C>::Data(data);
            &&& bytes.len() < 460800 ==> {
                &&& one_shot_next(v, pending, event) == v
                &&& one_shot_pending(pending, event) == bytes
                &&& one_shot_step(v, pending, event) == OneShotStep::<C>::Read(
                    460800 - bytes.len(),
                )
            }
            &&& bytes.len() >= 460800 ==> {
                &&& one_shot_next(v, pending, event) == (SourceView {
                    latest: Some(bytes.take(460800)),
                    child: None,
                    ..v
                })
                &&& one_shot_pending(pending, event).len() == 0
                &&& one_shot_step(v, pending, event) == OneShotStep::Reap(v.child)
            }
        }),
{
}

/// A pipe that ends before the still image is there makes the source fail, and the decoder, taken
/// out of the source, is killed and reaped; a frame that was cached earlier stays.
pub proof fn unfinished_still_image_fails<C, R>(v: SourceView<C, R>, pending: Seq<u8>)
    ensures
        one_shot_step(v, pending, OneShotEvent::<C>::Ended) == OneShotStep::KillAndReap(v.child),
        one_shot_next(v, pending, OneShotEvent::<C>::Ended) == (SourceView {
            state: SourceState::Failed,
            child: None,
            ..v
        }),
{
}

/// The deadline of the current run takes the decoder out of the source and hands it out to be
/// killed: that of a still image whatever else holds, that for the first frame exactly if no frame
/// was read, and then the source has failed. Without a decoder neither changes anything.
pub proof fn deadline_hands_out_the_decoder<C, R>(v: SourceView<C, R>)
    ensures
        one_shot_overdue(v, v.run) == v.child,
        one_shot_deadline_next(v, v.run) == (SourceView { child: None, ..v }),
        !v.first_frame ==> first_frame_overdue(v, v.run) == v.child,
        !v.first_frame && v.child is Some ==> first_frame_deadline_next(v, v.run) == (SourceView {
            state: SourceState::Failed,
            child: None,
            ..v
        }),
        v.child is None ==> first_frame_deadline_next(v, v.run) == v,
{
}

/// Filling reports that there is no frame exactly if none is cached: in every state and in every
/// run a frame that is cached is written, its luma plane first.
pub proof fn cached_frame_is_always_filled<C, R>(v: SourceView<C, R>)
    ensures
        v.latest matches Some(frame) ==> fill_step(v, FillEvent::Requested) == (FillStep::Write {
            frame,
            plane: Plane::Y,
        }),
        v.latest is None ==> fill_step(v, FillEvent::Requested) == FillStep::Done(
            Ok(FillOutcome::NoFrame),
        ),
{
}

/// Filling that has begun goes on with the other planes of its own frame, whatever has become of
/// the source, and when all are written the picture counts as frozen exactly if the source has
/// failed. A sink that refuses a plane ends it with the code of an input/output error.
pub proof fn filling_goes_on_with_its_frame<C, R>(v: SourceView<C, R>, done: PlaneWrite)
    ensures
        done.which() == Plane::Y ==> fill_step(v, FillEvent::Written(done)) == (FillStep::Write {
            frame: done.frame(),
            plane: Plane::U,
        }),
        done.which() == Plane::U ==> fill_step(v, FillEvent::Written(done)) == (FillStep::Write {
            frame: done.frame(),
            plane: Plane::V,
        }),
        done.which() == Plane::V && v.state == SourceState::Failed ==> fill_step(
            v,
            FillEvent::Written(done),
        ) == FillStep::Done(Ok(FillOutcome::Frozen)),
        done.which() == Plane::V && v.state != SourceState::Failed ==> fill_step(
            v,
            FillEvent::Written(done),
        ) == FillStep::Done(Ok(FillOutcome::Live)),
        fill_step(v, FillEvent::WriteFailed(done)) == FillStep::Done(Err(5)),
{
}

/// The actions of a source show what they hold.
pub proof fn source_actions_show_all<C, R>(
    child: Option<C>,
    reader: Option<R>,
    watchdog: Option<R>,
    command: CommandLine,
    run: u64,
    deadline_secs: u64,
    wanted: usize,
    write: PlaneWrite,
    result: Result<FillOutcome, i32>,
)
    ensures
        StartAction::<C, R>::Done@ == StartStep::<C, R>::Done,
        (StartAction::Teardown { child, reader, watchdog })@ == (StartStep::Teardown {
            child,
            reader,
            watchdog,
        }),
        StartAction::<C, R>::Reap(child)@ == StartStep::<C, R>::Reap(child),
        StartAction::<C, R>::StartOneShot@ == StartStep::<C, R>::StartOneShot,
        StartAction::<C, R>::SpawnStream(command)@ == StartStep::<C, R>::SpawnStream(command@),
        (StartAction::<C, R>::StartStream { run, deadline_secs })@ == (StartStep::<
            C,
            R,
        >::StartStream { run, deadline_secs }),
        OneShotAction::<C>::Spawn(command)@ == OneShotStep::<C>::Spawn(command@),
        (OneShotAction::<C>::StartReading { run, deadline_secs, wanted })@ == (OneShotStep::<
            C,
        >::StartReading { run, deadline_secs, wanted: wanted as int }),
        OneShotAction::<C>::Read(wanted)@ == OneShotStep::<C>::Read(wanted as int),
        OneShotAction::Reap(child)@ == OneShotStep::Reap(child),
        OneShotAction::KillAndReap(child)@ == OneShotStep::KillAndReap(child),
        OneShotAction::<C>::Exit@ == OneShotStep::<C>::Exit,
        FillAction::Write(write)@ == (FillStep::Write {
            frame: write.frame(),
            plane: write.which(),
        }),
        FillAction::Done(result)@ == FillStep::Done(result),
{
}

} // verus!
