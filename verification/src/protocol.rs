//! What holds of a source whose owner, reader thread and watchdog take their steps in any order.
//!
//! The owner starts and stops the source, one request after the other. A started source has one
//! reader thread and at most one watchdog. Each of them does what its last step asked for and
//! reports back with an event that answers it. A reader thread or a watchdog that was handed out
//! is joined before the teardown is reported, and the thread that decodes a still image joins its
//! watchdog before it ends. A deadline of an earlier run may be reported at any time.

use vstd::multiset::Multiset;
use vstd::prelude::*;

use crate::frame::FRAME_SIZE;
use crate::kind::SourceKind;
use crate::source::OneShotEvent;
use crate::source::OneShotStep;
use crate::source::SourceState;
use crate::source::SourceView;
use crate::source::StartEvent;
use crate::source::StartStep;
use crate::source::StopAction;
use crate::source::StopEvent;
use crate::stream::ReaderView;
use crate::stream::StreamEvent;
use crate::stream::StreamStep;

verus! {

/// What the owner is doing.
pub enum Owner<C, R> {
    /// Nothing: it may start or stop the source.
    Resting,
    /// It stops the source and does what it was asked for.
    Stopping(StopAction<C, R>),
    /// It starts the source and does what it was asked for.
    Starting(StartStep<C, R>),
    /// It has started the threads and is about to record their handles.
    Launched,
}

/// What the reader thread is doing, and what it was asked for last.
pub enum Thread<C> {
    /// There is none.
    Absent,
    /// It decodes a still image, of whose frame so much has come.
    OneShot(Seq<u8>, Option<OneShotStep<C>>),
    /// It reads a stream.
    Stream(ReaderView, Option<StreamStep<C>>),
}

/// What the watchdog is doing.
pub enum Watchdog<C> {
    /// There is none.
    Absent,
    /// It waits for the deadline of the run.
    Armed(u64),
    /// It kills and reaps the child that the deadline handed out.
    Reaping(C),
}

/// A source, those who work on it and the processes.
pub struct System<C, R> {
    pub source: SourceView<C, R>,
    pub owner: Owner<C, R>,
    pub thread: Thread<C>,
    pub watchdog: Watchdog<C>,
    /// The processes that were spawned and that nobody has waited for yet.
    pub alive: Multiset<C>,
    /// What the reader thread has read from the process that was spawned last.
    pub output: Seq<u8>,
}

/// A step of one of them.
pub enum Step<C, R> {
    /// The owner stops the source.
    Stop(StopEvent),
    /// The owner starts the source.
    Start(StartEvent<C, R>),
    /// The owner starts the reader thread and, of a stream, the watchdog.
    Launch,
    /// The reader thread decodes a still image.
    OneShot(OneShotEvent<C>),
    /// The reader thread reads a stream.
    Stream(StreamEvent<C>),
    /// The reader thread does the last that it was asked for and ends.
    End,
    /// The deadline of a still image of the run has passed.
    OneShotDeadline(u64),
    /// The deadline for the first frame of the run has passed.
    FirstFrameDeadline(u64),
    /// The watchdog ends: it has reaped what it held, or was cancelled.
    WatchdogEnd,
}

/// A new source that nobody works on.
pub open spec fn fresh_system<C, R>(path: Seq<u8>, ffmpeg: Seq<u8>) -> System<C, R> {
    System {
        source: crate::source::fresh_source(path, ffmpeg),
        owner: Owner::Resting,
        thread: Thread::Absent,
        watchdog: Watchdog::Absent,
        alive: Multiset::empty(),
        output: Seq::empty(),
    }
}

/// `event` reports back on what a thread that decodes a still image was asked for.
pub open spec fn one_shot_answers<C>(
    asked: Option<OneShotStep<C>>,
    event: OneShotEvent<C>,
) -> bool {
    match asked {
        None => event is Begin,
        Some(OneShotStep::Spawn(_)) => event is Spawned || event is SpawnFailed,
        Some(OneShotStep::StartReading { wanted, .. }) => match event {
            OneShotEvent::Data(data) => 0 < data@.len() <= wanted,
            _ => event is Ended,
        },
        Some(OneShotStep::Read(wanted)) => match event {
            OneShotEvent::Data(data) => 0 < data@.len() <= wanted,
            _ => event is Ended,
        },
        _ => false,
    }
}

/// `event` reports back on what a thread that reads a stream was asked for.
pub open spec fn stream_answers<C>(asked: Option<StreamStep<C>>, event: StreamEvent<C>) -> bool {
    match asked {
        None => event is Begin,
        Some(StreamStep::Read(wanted)) => match event {
            StreamEvent::Data(data) => 0 < data@.len() <= wanted,
            _ => event is Ended,
        },
        Some(StreamStep::Backoff(_)) => event is BackedOff,
        Some(StreamStep::Reap(_)) => event is Reaped,
        Some(StreamStep::Spawn(_)) => event is Respawned || event is RespawnedWithoutPipe
            || event is RespawnFailed,
        Some(StreamStep::Abandon(_)) => false,
        Some(StreamStep::Exit) => false,
    }
}

/// The threads whose handles were taken have been joined.
pub open spec fn joined<C, R>(s: System<C, R>, reader: Option<R>, watchdog: Option<R>) -> bool {
    &&& reader is Some ==> s.thread is Absent
    &&& watchdog is Some ==> s.watchdog is Absent
}

/// The step may be taken.
pub open spec fn enabled<C, R>(s: System<C, R>, step: Step<C, R>) -> bool {
    match step {
        Step::Stop(StopEvent::Requested) => s.owner is Resting,
        Step::Stop(StopEvent::TornDown) => match s.owner {
            Owner::Stopping(StopAction::Teardown { reader, watchdog, .. }) => joined(
                s,
                reader,
                watchdog,
            ),
            _ => false,
        },
        Step::Stop(StopEvent::Reaped) => s.owner matches Owner::Stopping(asked) && asked is Reap,
        Step::Start(StartEvent::Requested) => s.owner is Resting,
        Step::Start(StartEvent::TornDown) => match s.owner {
            Owner::Starting(StartStep::Teardown { reader, watchdog, .. }) => joined(
                s,
                reader,
                watchdog,
            ),
            _ => false,
        },
        Step::Start(StartEvent::Reaped) => s.owner matches Owner::Starting(asked) && asked is Reap,
        Step::Start(StartEvent::Spawned(_)) => s.owner matches Owner::Starting(asked)
            && asked is SpawnStream,
        Step::Start(StartEvent::SpawnFailed) => s.owner matches Owner::Starting(asked)
            && asked is SpawnStream,
        Step::Start(StartEvent::OneShotStarted(_)) => s.owner is Launched && s.source.kind
            == SourceKind::StillImage,
        Step::Start(StartEvent::StreamStarted { .. }) => s.owner is Launched && s.source.kind
            == SourceKind::Video,
        Step::Launch => s.owner matches Owner::Starting(asked) && (asked is StartOneShot
            || asked is StartStream),
        Step::OneShot(event) => s.thread matches Thread::OneShot(_, asked) && one_shot_answers(
            asked,
            event,
        ),
        Step::Stream(event) => s.thread matches Thread::Stream(_, asked) && stream_answers(
            asked,
            event,
        ),
        Step::End => match s.thread {
            Thread::Absent => false,
            Thread::OneShot(_, asked) => asked matches Some(action) && s.watchdog is Absent && (
            action is Reap || action is KillAndReap || action is Exit),
            Thread::Stream(_, asked) => asked matches Some(action) && (action is Abandon
                || action is Exit),
        },
        Step::OneShotDeadline(run) => run != s.source.run || s.source.kind
            == SourceKind::StillImage && s.watchdog == Watchdog::<C>::Armed(run),
        Step::FirstFrameDeadline(run) => run != s.source.run || s.source.kind == SourceKind::Video
            && s.watchdog == Watchdog::<C>::Armed(run),
        Step::WatchdogEnd => !(s.watchdog is Absent),
    }
}

/// The child that the owner holds to reap it.
pub open spec fn held_by_owner<C, R>(owner: Owner<C, R>) -> Option<C> {
    match owner {
        Owner::Stopping(StopAction::Teardown { child, .. }) => child,
        Owner::Stopping(StopAction::Reap(child)) => child,
        Owner::Starting(StartStep::Teardown { child, .. }) => child,
        Owner::Starting(StartStep::Reap(child)) => child,
        _ => None,
    }
}

/// The child that the reader thread holds to reap it.
pub open spec fn held_by_thread<C>(thread: Thread<C>) -> Option<C> {
    match thread {
        Thread::OneShot(_, Some(OneShotStep::Reap(child))) => child,
        Thread::OneShot(_, Some(OneShotStep::KillAndReap(child))) => child,
        Thread::Stream(_, Some(StreamStep::Reap(child))) => child,
        Thread::Stream(_, Some(StreamStep::Abandon(child))) => Some(child),
        _ => None,
    }
}

/// The child that the watchdog holds to reap it.
pub open spec fn held_by_watchdog<C>(watchdog: Watchdog<C>) -> Option<C> {
    match watchdog {
        Watchdog::Reaping(child) => Some(child),
        _ => None,
    }
}

/// The process that was spawned, as the step reports.
pub open spec fn spawned<C, R>(step: Step<C, R>) -> Option<C> {
    match step {
        Step::Start(StartEvent::Spawned(child)) => Some(child),
        Step::OneShot(OneShotEvent::Spawned(child)) => Some(child),
        Step::Stream(StreamEvent::Respawned(child)) => Some(child),
        Step::Stream(StreamEvent::RespawnedWithoutPipe(child)) => Some(child),
        _ => None,
    }
}

/// The process that was waited for, as the step reports.
pub open spec fn waited_for<C, R>(s: System<C, R>, step: Step<C, R>) -> Option<C> {
    match step {
        Step::Stop(StopEvent::TornDown) => held_by_owner(s.owner),
        Step::Stop(StopEvent::Reaped) => held_by_owner(s.owner),
        Step::Start(StartEvent::TornDown) => held_by_owner(s.owner),
        Step::Start(StartEvent::Reaped) => held_by_owner(s.owner),
        Step::Stream(StreamEvent::Reaped) => held_by_thread(s.thread),
        Step::End => held_by_thread(s.thread),
        Step::WatchdogEnd => held_by_watchdog(s.watchdog),
        _ => None,
    }
}

/// The processes that `child` stands for: it, or none.
pub open spec fn at_most_one<C>(child: Option<C>) -> Multiset<C> {
    match child {
        Some(child) => Multiset::singleton(child),
        None => Multiset::empty(),
    }
}

/// What the reader thread has read, after the step, from the process that was spawned last.
pub open spec fn output_next<C, R>(s: System<C, R>, step: Step<C, R>) -> Seq<u8> {
    match step {
        Step::OneShot(OneShotEvent::Data(data)) => s.output + data@,
        Step::Stream(StreamEvent::Data(data)) => s.output + data@,
        _ => if spawned(step) is Some {
            Seq::empty()
        } else {
            s.output
        },
    }
}

/// The watchdog after the deadline of the run has passed and handed out `child`.
pub open spec fn watchdog_next<C, R>(s: System<C, R>, run: u64, child: Option<C>) -> Watchdog<C> {
    match child {
        Some(child) => Watchdog::Reaping(child),
        None => if run == s.source.run {
            Watchdog::Absent
        } else {
            s.watchdog
        },
    }
}

/// Everything after the step.
pub open spec fn next<C, R>(s: System<C, R>, step: Step<C, R>) -> System<C, R> {
    let counted = System {
        alive: s.alive.add(at_most_one(spawned(step))).sub(at_most_one(waited_for(s, step))),
        output: output_next(s, step),
        ..s
    };
    match step {
        Step::Stop(event) => System {
            source: crate::source::stop_next(s.source, event),
            owner: match crate::source::stop_action(s.source, event) {
                StopAction::Done => Owner::Resting,
                asked => Owner::Stopping(asked),
            },
            ..counted
        },
        Step::Start(event) => System {
            source: crate::source::start_next(s.source, event),
            owner: match crate::source::start_step(s.source, event) {
                StartStep::Done => Owner::Resting,
                asked => Owner::Starting(asked),
            },
            ..counted
        },
        Step::Launch => match s.source.kind {
            SourceKind::StillImage => System {
                owner: Owner::Launched,
                thread: Thread::OneShot(Seq::empty(), None),
                ..counted
            },
            SourceKind::Video => System {
                owner: Owner::Launched,
                thread: Thread::Stream(crate::stream::fresh_reader(), None),
                watchdog: Watchdog::Armed(s.owner->Starting_0->run),
                ..counted
            },
        },
        Step::OneShot(event) => {
            let pending = s.thread->OneShot_0;
            let asked = crate::source::one_shot_step(s.source, pending, event);
            System {
                source: crate::source::one_shot_next(s.source, pending, event),
                thread: Thread::OneShot(
                    crate::source::one_shot_pending(pending, event),
                    Some(asked),
                ),
                watchdog: match asked {
                    OneShotStep::StartReading { run, .. } => Watchdog::Armed(run),
                    _ => s.watchdog,
                },
                ..counted
            }
        },
        Step::Stream(event) => {
            let reader = s.thread->Stream_0;
            System {
                source: crate::stream::stream_source_next(s.source, reader, event),
                thread: Thread::Stream(
                    crate::stream::stream_reader_next(s.source, reader, event),
                    Some(crate::stream::stream_step(s.source, reader, event)),
                ),
                ..counted
            }
        },
        Step::End => System { thread: Thread::Absent, ..counted },
        Step::OneShotDeadline(run) => System {
            source: crate::source::one_shot_deadline_next(s.source, run),
            watchdog: watchdog_next(s, run, crate::source::one_shot_overdue(s.source, run)),
            ..counted
        },
        Step::FirstFrameDeadline(run) => System {
            source: crate::source::first_frame_deadline_next(s.source, run),
            watchdog: watchdog_next(s, run, crate::source::first_frame_overdue(s.source, run)),
            ..counted
        },
        Step::WatchdogEnd => System { watchdog: Watchdog::Absent, ..counted },
    }
}

/// Nobody but the owner works on the source, and no child is in it.
pub open spec fn deserted<C, R>(s: System<C, R>) -> bool {
    &&& s.source.child is None
    &&& s.thread is Absent
    &&& s.watchdog is Absent
}

/// The owner can join whoever works on the source.
pub open spec fn owner_in_order<C, R>(s: System<C, R>) -> bool {
    let v = s.source;
    &&& !(s.owner is Resting) ==> v.reader is None && v.watchdog is None
    &&& match s.owner {
        Owner::Resting => s.thread is Absent || v.reader is Some,
        Owner::Stopping(asked) => match asked {
            StopAction::Teardown { reader, .. } => s.thread is Absent || reader is Some,
            StopAction::Reap(_) => deserted(s),
            StopAction::Done => false,
        },
        Owner::Starting(asked) => match asked {
            StartStep::Teardown { reader, .. } => s.thread is Absent || reader is Some,
            StartStep::Reap(_) => deserted(s),
            StartStep::StartOneShot => {
                &&& v.kind == SourceKind::StillImage
                &&& v.state != SourceState::Idle
                &&& deserted(s)
            },
            StartStep::SpawnStream(command) => {
                &&& v.kind == SourceKind::Video
                &&& v.state != SourceState::Idle
                &&& deserted(s)
                &&& command == crate::command::stream_view(v.path, v.ffmpeg)
            },
            StartStep::StartStream { run, .. } => {
                &&& v.kind == SourceKind::Video
                &&& v.state != SourceState::Idle
                &&& s.thread is Absent
                &&& s.watchdog is Absent
                &&& run == v.run
                &&& s.output == Seq::<u8>::empty()
            },
            StartStep::Done => false,
        },
        Owner::Launched => v.state != SourceState::Idle,
    }
}

/// The reader thread meets an empty slot where it brings a child, runs the decoder of the file,
/// and keeps exactly what has come of a frame from the one process that it reads.
pub open spec fn thread_in_order<C, R>(s: System<C, R>) -> bool {
    let v = s.source;
    match s.thread {
        Thread::Absent => true,
        Thread::OneShot(pending, asked) => {
            &&& v.kind == SourceKind::StillImage
            &&& match asked {
                None => pending == Seq::<u8>::empty() && v.child is None,
                Some(OneShotStep::Spawn(command)) => {
                    &&& pending == Seq::<u8>::empty()
                    &&& v.child is None
                    &&& command == crate::command::one_shot_view(v.path, v.ffmpeg)
                },
                Some(OneShotStep::StartReading { wanted, .. }) => pending == s.output && wanted
                    == FRAME_SIZE - pending.len(),
                Some(OneShotStep::Read(wanted)) => pending == s.output && wanted == FRAME_SIZE
                    - pending.len(),
                _ => true,
            }
        },
        Thread::Stream(reader, asked) => {
            &&& v.kind == SourceKind::Video
            &&& match asked {
                None => reader.pending == Seq::<u8>::empty() && s.output == Seq::<u8>::empty(),
                Some(StreamStep::Read(wanted)) => {
                    &&& reader.pending == crate::stream::partial_frame(s.output)
                    &&& wanted == FRAME_SIZE - reader.pending.len()
                },
                Some(StreamStep::Backoff(_)) => reader.pending == Seq::<u8>::empty(),
                Some(StreamStep::Reap(_)) => reader.pending == Seq::<u8>::empty() && v.child is None,
                Some(StreamStep::Spawn(command)) => {
                    &&& reader.pending == Seq::<u8>::empty()
                    &&& v.child is None
                    &&& command == crate::command::stream_view(v.path, v.ffmpeg)
                },
                _ => true,
            }
        },
    }
}

/// The watchdog belongs to the current run, and somebody will join it.
pub open spec fn watchdog_in_order<C, R>(s: System<C, R>) -> bool {
    &&& s.watchdog matches Watchdog::Armed(run) ==> run == s.source.run
    &&& s.watchdog is Absent || match s.source.kind {
        SourceKind::StillImage => {
            &&& s.thread matches Thread::OneShot(_, Some(asked))
            &&& !(asked is Spawn) && !(asked is Exit)
        },
        SourceKind::Video => match s.owner {
            Owner::Resting => s.source.watchdog is Some,
            Owner::Stopping(asked) => asked matches StopAction::Teardown { watchdog, .. }
                && watchdog is Some,
            Owner::Starting(asked) => asked matches StartStep::Teardown { watchdog, .. }
                && watchdog is Some,
            Owner::Launched => true,
        },
    }
}

/// Every process that was spawned and not waited for is in the slot of the source, or somebody
/// holds it to reap it.
pub open spec fn accounted_for<C, R>(s: System<C, R>) -> bool {
    s.alive =~= at_most_one(s.source.child).add(at_most_one(held_by_owner(s.owner))).add(
        at_most_one(held_by_thread(s.thread)),
    ).add(at_most_one(held_by_watchdog(s.watchdog)))
}

/// What every step keeps.
pub open spec fn orderly<C, R>(s: System<C, R>) -> bool {
    &&& s.source.kind == crate::kind::kind_of_path(s.source.path)
    &&& s.source.latest matches Some(frame) ==> frame.len() == FRAME_SIZE
    &&& s.source.state == SourceState::Idle ==> {
        &&& deserted(s)
        &&& s.source.reader is None
        &&& s.source.watchdog is None
        &&& held_by_owner(s.owner) is None
    }
    &&& s.owner is Resting && s.source.state == SourceState::Running ==> s.source.reader is Some
    &&& owner_in_order(s)
    &&& thread_in_order(s)
    &&& watchdog_in_order(s)
    &&& accounted_for(s)
}

/// A new source is in order.
pub proof fn fresh_system_is_orderly<C, R>(path: Seq<u8>, ffmpeg: Seq<u8>)
    ensures
        orderly(fresh_system::<C, R>(path, ffmpeg)),
{
}

/// Every step keeps the order.
pub proof fn order_is_kept<C, R>(s: System<C, R>, step: Step<C, R>)
    requires
        orderly(s),
        enabled(s, step),
    ensures
        orderly(next(s, step)),
{
    source_stays_in_order(s, step);
    thread_stays_in_order(s, step);
    children_stay_accounted_for(s, step);
}

proof fn source_stays_in_order<C, R>(s: System<C, R>, step: Step<C, R>)
    requires
        orderly(s),
        enabled(s, step),
    ensures
        ({
            let after = next(s, step);
            &&& after.source.kind == crate::kind::kind_of_path(after.source.path)
            &&& after.source.latest matches Some(frame) ==> frame.len() == FRAME_SIZE
            &&& after.source.state == SourceState::Idle ==> {
                &&& deserted(after)
                &&& after.source.reader is None
                &&& after.source.watchdog is None
                &&& held_by_owner(after.owner) is None
            }
            &&& after.owner is Resting && after.source.state == SourceState::Running
                ==> after.source.reader is Some
            &&& owner_in_order(after)
            &&& watchdog_in_order(after)
        }),
{
    if let Step::Stream(StreamEvent::Data(data)) = step {
        crate::stream::frames_and_rest(s.thread->Stream_0.pending + data@);
    }
}

proof fn thread_stays_in_order<C, R>(s: System<C, R>, step: Step<C, R>)
    requires
        orderly(s),
        enabled(s, step),
    ensures
        thread_in_order(next(s, step)),
{
    crate::stream::frames_and_rest(Seq::empty());
    if let Step::Stream(StreamEvent::Data(data)) = step {
        crate::stream::cutting_resumes(s.output, data@);
    }
}

proof fn children_stay_accounted_for<C, R>(s: System<C, R>, step: Step<C, R>)
    requires
        orderly(s),
        enabled(s, step),
    ensures
        accounted_for(next(s, step)),
{
}

/// Each of `steps` may be taken in turn.
pub open spec fn legal<C, R>(s: System<C, R>, steps: Seq<Step<C, R>>) -> bool
    decreases steps.len(),
{
    steps.len() == 0 || {
        &&& legal(s, steps.drop_last())
        &&& enabled(run(s, steps.drop_last()), steps.last())
    }
}

/// Everything after `steps`.
pub open spec fn run<C, R>(s: System<C, R>, steps: Seq<Step<C, R>>) -> System<C, R>
    decreases steps.len(),
{
    if steps.len() == 0 {
        s
    } else {
        next(run(s, steps.drop_last()), steps.last())
    }
}

/// The order holds after any steps.
pub proof fn order_holds_throughout<C, R>(s: System<C, R>, steps: Seq<Step<C, R>>)
    requires
        orderly(s),
        legal(s, steps),
    ensures
        orderly(run(s, steps)),
    decreases steps.len(),
{
    if steps.len() > 0 {
        order_holds_throughout(s, steps.drop_last());
        order_is_kept(run(s, steps.drop_last()), steps.last());
    }
}

/// Whatever was done to a source since it was made, when it is idle every process that was ever
/// spawned for it has been waited for, and neither a reader thread nor a watchdog is left.
pub proof fn idle_source_is_reaped<C, R>(path: Seq<u8>, ffmpeg: Seq<u8>, steps: Seq<Step<C, R>>)
    requires
        legal(fresh_system::<C, R>(path, ffmpeg), steps),
        run(fresh_system::<C, R>(path, ffmpeg), steps).source.state == SourceState::Idle,
    ensures
        ({
            let s = run(fresh_system::<C, R>(path, ffmpeg), steps);
            &&& s.alive == Multiset::<C>::empty()
            &&& s.thread is Absent
            &&& s.watchdog is Absent
            &&& s.source.child is None
            &&& s.source.reader is None
            &&& s.source.watchdog is None
        }),
{
    fresh_system_is_orderly::<C, R>(path, ffmpeg);
    order_holds_throughout(fresh_system::<C, R>(path, ffmpeg), steps);
}

/// A stop comes to its end with the source idle: every process is waited for, every thread is
/// joined, and the files of the source, its kind and the cached frame are what they were.
pub proof fn stop_reaps_everything<C, R>(s: System<C, R>)
    requires
        orderly(s),
        enabled(s, Step::Stop(StopEvent::Reaped)),
    ensures
        ({
            let stopped = next(s, Step::Stop(StopEvent::Reaped));
            &&& stopped.owner is Resting
            &&& stopped.source == (SourceView { state: SourceState::Idle, ..s.source })
            &&& stopped.alive == Multiset::<C>::empty()
            &&& stopped.thread is Absent
            &&& stopped.watchdog is Absent
            &&& stopped.source.child is None
            &&& stopped.source.reader is None
            &&& stopped.source.watchdog is None
        }),
{
}

/// No process is lost: at every moment each one that was spawned and not waited for is either in
/// the slot of the source or in the hands of exactly one who is about to reap it.
pub proof fn no_child_is_lost<C, R>(path: Seq<u8>, ffmpeg: Seq<u8>, steps: Seq<Step<C, R>>)
    requires
        legal(fresh_system::<C, R>(path, ffmpeg), steps),
    ensures
        accounted_for(run(fresh_system::<C, R>(path, ffmpeg), steps)),
{
    fresh_system_is_orderly::<C, R>(path, ffmpeg);
    order_holds_throughout(fresh_system::<C, R>(path, ffmpeg), steps);
}

/// The deadline of an earlier run changes nothing: neither the source nor who works on it, nor
/// any process.
pub proof fn earlier_watchdog_is_ignored<C, R>(s: System<C, R>, run: u64)
    requires
        run != s.source.run,
    ensures
        next(s, Step::FirstFrameDeadline(run)) == s,
        next(s, Step::OneShotDeadline(run)) == s,
{
    assert(next(s, Step::FirstFrameDeadline(run)).alive =~= s.alive);
    assert(next(s, Step::OneShotDeadline(run)).alive =~= s.alive);
}

/// Whatever is spawned for a source is the decoder that its kind asks for, on its own file.
pub proof fn spawned_is_the_decoder_of_the_file<C, R>(
    path: Seq<u8>,
    ffmpeg: Seq<u8>,
    steps: Seq<Step<C, R>>,
)
    requires
        legal(fresh_system::<C, R>(path, ffmpeg), steps),
    ensures
        ({
            let s = run(fresh_system::<C, R>(path, ffmpeg), steps);
            let stream = crate::command::stream_view(path, ffmpeg);
            let one_shot = crate::command::one_shot_view(path, ffmpeg);
            let kind = crate::kind::kind_of_path(path);
            &&& s.owner matches Owner::Starting(StartStep::SpawnStream(command)) ==> command
                == stream && kind == SourceKind::Video
            &&& s.thread matches Thread::Stream(_, Some(StreamStep::Spawn(command))) ==> command
                == stream && kind == SourceKind::Video
            &&& s.thread matches Thread::OneShot(_, Some(OneShotStep::Spawn(command))) ==> command
                == one_shot && kind == SourceKind::StillImage
        }),
{
    fresh_system_is_orderly::<C, R>(path, ffmpeg);
    order_holds_throughout(fresh_system::<C, R>(path, ffmpeg), steps);
    frames_are_never_dropped(fresh_system::<C, R>(path, ffmpeg), steps);
}

/// A still image is decoded by one process: the thread spawns at its beginning and never again.
pub proof fn still_image_takes_one_process<C, R>(s: System<C, R>, event: OneShotEvent<C>)
    requires
        enabled(s, Step::OneShot(event)),
        next(s, Step::OneShot(event)).thread->OneShot_1->0 is Spawn,
    ensures
        s.thread->OneShot_1 is None,
{
}

/// Frames come from one process: where bytes that were read change the cached frame, it becomes
/// the next `FRAME_SIZE` bytes in a row of what the process that was spawned last has written, and
/// of a still image the first. Anything else that happens leaves the cached frame as it is.
pub proof fn frames_come_from_one_process<C, R>(s: System<C, R>, step: Step<C, R>)
    requires
        orderly(s),
        enabled(s, step),
    ensures
        ({
            let after = next(s, step);
            let done = crate::stream::whole_frames(s.output);
            match step {
                Step::Stream(StreamEvent::Data(_)) => if crate::stream::whole_frames(after.output)
                    == done {
                    after.source.latest == s.source.latest
                } else {
                    &&& crate::stream::whole_frames(after.output) == done + 1
                    &&& after.source.latest == Some(crate::stream::nth_frame(after.output, done))
                },
                Step::OneShot(OneShotEvent::Data(_)) => if after.output.len() < FRAME_SIZE {
                    after.source.latest == s.source.latest
                } else {
                    after.source.latest == Some(after.output.take(FRAME_SIZE as int))
                },
                _ => after.source.latest == s.source.latest,
            }
        }),
{
    if let Step::Stream(StreamEvent::Data(data)) = step {
        crate::stream::frames_and_rest(s.output);
        crate::stream::cutting_resumes(s.output, data@);
        let bytes = s.thread->Stream_0.pending + data@;
        crate::stream::frames_and_rest(bytes);
    }
}

/// Whatever was done to a source since it was made, a cached frame has `FRAME_SIZE` bytes.
pub proof fn frames_are_whole<C, R>(path: Seq<u8>, ffmpeg: Seq<u8>, steps: Seq<Step<C, R>>)
    requires
        legal(fresh_system::<C, R>(path, ffmpeg), steps),
    ensures
        run(fresh_system::<C, R>(path, ffmpeg), steps).source.latest matches Some(frame)
            ==> frame.len() == FRAME_SIZE,
{
    fresh_system_is_orderly::<C, R>(path, ffmpeg);
    order_holds_throughout(fresh_system::<C, R>(path, ffmpeg), steps);
}

/// A cached frame is only ever replaced by a later one: once there is a frame, no step makes the
/// source report that there is none. Nor does a step change the files of the source or its kind.
pub proof fn frames_are_never_dropped<C, R>(s: System<C, R>, steps: Seq<Step<C, R>>)
    ensures
        s.source.latest is Some ==> run(s, steps).source.latest is Some,
        run(s, steps).source.path == s.source.path,
        run(s, steps).source.ffmpeg == s.source.ffmpeg,
        run(s, steps).source.kind == s.source.kind,
    decreases steps.len(),
{
    if steps.len() > 0 {
        frames_are_never_dropped(s, steps.drop_last());
    }
}

/// No start comes to rest without a decoder: whatever was done to a source since it was made, when
/// its owner rests and the source runs, the thread that decodes for it was started and its handle
/// is kept.
pub proof fn running_source_has_a_reader<C, R>(
    path: Seq<u8>,
    ffmpeg: Seq<u8>,
    steps: Seq<Step<C, R>>,
)
    requires
        legal(fresh_system::<C, R>(path, ffmpeg), steps),
        run(fresh_system::<C, R>(path, ffmpeg), steps).owner is Resting,
        run(fresh_system::<C, R>(path, ffmpeg), steps).source.state == SourceState::Running,
    ensures
        run(fresh_system::<C, R>(path, ffmpeg), steps).source.reader is Some,
{
    fresh_system_is_orderly::<C, R>(path, ffmpeg);
    order_holds_throughout(fresh_system::<C, R>(path, ffmpeg), steps);
}

/// A run that has read a frame keeps its decoder: until the next start no step, whoever takes it,
/// makes the deadline for the first frame hand out a decoder or change the source.
pub proof fn frames_keep_the_decoder<C, R>(s: System<C, R>, step: Step<C, R>)
    requires
        s.source.first_frame,
        step != Step::<C, R>::Start(StartEvent::Reaped),
    ensures
        ({
            let v = next(s, step).source;
            &&& v.run == s.source.run
            &&& v.first_frame
            &&& crate::source::first_frame_overdue(v, v.run) is None
            &&& crate::source::first_frame_deadline_next(v, v.run) == v
        }),
{
}

} // verus!
