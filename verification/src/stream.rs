//! The thread that reads a video stream and keeps its decoder alive.

use vstd::prelude::*;
use vstd::slice::slice_subrange;
use vstd::slice::slice_to_vec;

use crate::command::CommandLine;
use crate::command::CommandView;
use crate::frame::Frame;
use crate::frame::FRAME_SIZE;
use crate::source::MediaSource;
use crate::source::SourceState;
use crate::source::SourceView;

verus! {

/// How many times in a row a decoder that delivers nothing is started again.
pub const MAX_RETRIES: u64 = 5;

/// Milliseconds by which the pause before a retry grows from one retry to the next.
pub const BACKOFF_STEP_MS: u64 = 100;

/// What the reader of a stream remembers.
pub struct StreamReader {
    frames_decoded: u64,
    retry_count: u64,
    pending: Vec<u8>,
}

/// The contents of a [`StreamReader`].
pub struct ReaderView {
    /// Frames since the decoder was started, or since its last clean end.
    pub frames: int,
    /// Retries since the last clean end.
    pub retries: int,
    /// What has come of the next frame, less than all of it.
    pub pending: Seq<u8>,
}

impl View for StreamReader {
    type V = ReaderView;

    closed spec fn view(&self) -> ReaderView {
        ReaderView {
            frames: self.frames_decoded as int,
            retries: self.retry_count as int,
            pending: self.pending@,
        }
    }
}

/// A reader that has read nothing yet.
pub open spec fn fresh_reader() -> ReaderView {
    ReaderView { frames: 0, retries: 0, pending: Seq::empty() }
}

/// What the reader has seen happen.
pub enum StreamEvent<C> {
    /// The thread runs.
    Begin,
    /// Bytes came through the pipe.
    Data(Vec<u8>),
    /// The pipe has ended, or reading from it failed.
    Ended,
    /// The pause is over.
    BackedOff,
    /// The decoder that ended is reaped.
    Reaped,
    /// A new decoder was spawned, with a pipe to read from.
    Respawned(C),
    /// A new decoder was spawned, but there is no pipe to read from.
    RespawnedWithoutPipe(C),
    /// No new decoder could be spawned.
    RespawnFailed,
}

/// What the reader has to do.
pub enum StreamAction<C> {
    /// Read so many bytes from the pipe or fewer.
    Read(usize),
    /// Pause for so many milliseconds.
    Backoff(u64),
    /// Kill and reap the child.
    Reap(Option<C>),
    /// Spawn a new decoder.
    Spawn(CommandLine),
    /// Kill and reap the child, and end.
    Abandon(C),
    /// End.
    Exit,
}

/// The contents of a [`StreamAction`].
pub enum StreamStep<C> {
    Read(int),
    Backoff(u64),
    Reap(Option<C>),
    Spawn(CommandView),
    Abandon(C),
    Exit,
}

impl<C> View for StreamAction<C> {
    type V = StreamStep<C>;

    open spec fn view(&self) -> StreamStep<C> {
        match *self {
            StreamAction::Read(wanted) => StreamStep::Read(wanted as int),
            StreamAction::Backoff(millis) => StreamStep::Backoff(millis),
            StreamAction::Reap(child) => StreamStep::Reap(child),
            StreamAction::Spawn(command) => StreamStep::Spawn(command@),
            StreamAction::Abandon(child) => StreamStep::Abandon(child),
            StreamAction::Exit => StreamStep::Exit,
        }
    }
}

/// What becomes of a stream whose pipe has ended.
#[derive(Debug, Clone, Copy, PartialEq, Eq, Structural)]
pub enum EndOfStream {
    /// The source is being stopped.
    Stopped,
    /// The file holds a single frame: it stays as a static scene.
    StaticScene,
    /// The file was played to its end: it is played again.
    Loop,
    /// The decoder delivered nothing: it gets another try.
    Retry,
    /// The decoder delivered nothing, and so did all its retries.
    Exhausted,
}

/// What becomes of a stream whose pipe has ended.
pub open spec fn end_of_stream(stop: bool, r: ReaderView) -> EndOfStream {
    if stop {
        EndOfStream::Stopped
    } else if r.frames == 1 {
        EndOfStream::StaticScene
    } else if r.frames > 1 {
        EndOfStream::Loop
    } else if r.retries >= MAX_RETRIES {
        EndOfStream::Exhausted
    } else {
        EndOfStream::Retry
    }
}

/// How many whole frames `bytes` hold.
pub open spec fn whole_frames(bytes: Seq<u8>) -> int {
    bytes.len() as int / FRAME_SIZE as int
}

/// The frame with the index `i` that `bytes` hold.
pub open spec fn nth_frame(bytes: Seq<u8>, i: int) -> Seq<u8> {
    bytes.subrange(i * FRAME_SIZE, (i + 1) * FRAME_SIZE)
}

/// What `bytes` hold behind the last whole frame.
pub open spec fn partial_frame(bytes: Seq<u8>) -> Seq<u8> {
    bytes.skip(whole_frames(bytes) * FRAME_SIZE)
}

/// What a reader does at the border of a frame, of which `pending` has come: it goes on reading
/// unless it is asked to stop.
pub open spec fn read_on<C>(stop: bool, pending: Seq<u8>) -> StreamStep<C> {
    if stop {
        StreamStep::Exit
    } else {
        StreamStep::Read(FRAME_SIZE - pending.len())
    }
}

/// The source after a step of the reader.
pub open spec fn stream_source_next<C, R>(
    v: SourceView<C, R>,
    r: ReaderView,
    event: StreamEvent<C>,
) -> SourceView<C, R> {
    match event {
        StreamEvent::Begin => v,
        StreamEvent::Data(data) => {
            let bytes = r.pending + data@;
            if whole_frames(bytes) == 0 {
                v
            } else {
                SourceView {
                    latest: Some(nth_frame(bytes, whole_frames(bytes) - 1)),
                    first_frame: true,
                    state: if v.state == SourceState::Failed {
                        SourceState::Running
                    } else {
                        v.state
                    },
                    ..v
                }
            }
        },
        StreamEvent::Ended => match end_of_stream(v.stop, r) {
            EndOfStream::Loop => SourceView { child: None, ..v },
            EndOfStream::Exhausted => SourceView { state: SourceState::Failed, ..v },
            _ => v,
        },
        StreamEvent::BackedOff => SourceView { child: None, ..v },
        StreamEvent::Reaped => v,
        StreamEvent::Respawned(child) => SourceView { child: Some(child), ..v },
        StreamEvent::RespawnedWithoutPipe(_) => SourceView { state: SourceState::Failed, ..v },
        StreamEvent::RespawnFailed => SourceView { state: SourceState::Failed, ..v },
    }
}

/// The reader after one of its steps.
pub open spec fn stream_reader_next<C, R>(
    v: SourceView<C, R>,
    r: ReaderView,
    event: StreamEvent<C>,
) -> ReaderView {
    match event {
        StreamEvent::Data(data) => ReaderView {
            frames: r.frames + whole_frames(r.pending + data@),
            pending: partial_frame(r.pending + data@),
            ..r
        },
        StreamEvent::Ended => {
            let emptied = ReaderView { pending: Seq::empty(), ..r };
            match end_of_stream(v.stop, r) {
                EndOfStream::Loop => fresh_reader(),
                EndOfStream::Retry => ReaderView { retries: r.retries + 1, ..emptied },
                _ => emptied,
            }
        },
        _ => r,
    }
}

/// What has to be done after a step of the reader.
pub open spec fn stream_step<C, R>(
    v: SourceView<C, R>,
    r: ReaderView,
    event: StreamEvent<C>,
) -> StreamStep<C> {
    match event {
        StreamEvent::Begin => read_on(v.stop, r.pending),
        StreamEvent::Data(data) => {
            let bytes = r.pending + data@;
            // In the middle of a frame the reader does not look whether it is asked to stop.
            read_on(v.stop && whole_frames(bytes) > 0, partial_frame(bytes))
        },
        StreamEvent::Ended => match end_of_stream(v.stop, r) {
            EndOfStream::Loop => StreamStep::Reap(v.child),
            EndOfStream::Retry => StreamStep::Backoff((BACKOFF_STEP_MS * (r.retries + 1)) as u64),
            _ => StreamStep::Exit,
        },
        StreamEvent::BackedOff => StreamStep::Reap(v.child),
        StreamEvent::Reaped => StreamStep::Spawn(crate::command::stream_view(v.path, v.ffmpeg)),
        StreamEvent::Respawned(_) => read_on(v.stop, r.pending),
        StreamEvent::RespawnedWithoutPipe(child) => StreamStep::Abandon(child),
        StreamEvent::RespawnFailed => StreamStep::Exit,
    }
}

impl StreamReader {
    #[verifier::type_invariant]
    spec fn lacks_something(self) -> bool {
        self.pending@.len() < FRAME_SIZE
    }

    /// A reader that has read nothing yet.
    pub fn new() -> (reader: Self)
        ensures
            reader@ == fresh_reader(),
    {
        StreamReader { frames_decoded: 0, retry_count: 0, pending: Vec::new() }
    }

    /// Frames since the decoder was started, or since its last clean end.
    pub fn frames_decoded(&self) -> (frames: u64)
        ensures
            frames == self@.frames,
    {
        self.frames_decoded
    }

    /// Retries since the last clean end.
    pub fn retry_count(&self) -> (retries: u64)
        ensures
            retries == self@.retries,
    {
        self.retry_count
    }

    /// What becomes of the stream if its pipe ends now.
    pub fn at_end(&self, stop: bool) -> (end: EndOfStream)
        ensures
            end == end_of_stream(stop, self@),
    {
        if stop {
            EndOfStream::Stopped
        } else if self.frames_decoded == 1 {
            EndOfStream::StaticScene
        } else if self.frames_decoded > 1 {
            EndOfStream::Loop
        } else if self.retry_count >= MAX_RETRIES {
            EndOfStream::Exhausted
        } else {
            EndOfStream::Retry
        }
    }
}

impl<C, R> MediaSource<C, R> {
    /// A step of the thread that reads the stream.
    pub fn read_stream(&mut self, reader: &mut StreamReader, event: StreamEvent<C>) -> (action:
        StreamAction<C>)
        requires
            event matches StreamEvent::Data(data) ==> old(reader)@.frames + whole_frames(
                old(reader)@.pending + data@,
            ) <= u64::MAX,
        ensures
            final(self)@ == stream_source_next(old(self)@, old(reader)@, event),
            final(reader)@ == stream_reader_next(old(self)@, old(reader)@, event),
            action@ == stream_step(old(self)@, old(reader)@, event),
    {
        match event {
            StreamEvent::Begin => self.read_on(reader),
            StreamEvent::Data(data) => {
                let mut bytes: Vec<u8> = Vec::new();
                std::mem::swap(&mut bytes, &mut reader.pending);
                bytes.extend_from_slice(data.as_slice());
                assert(bytes@ =~= old(reader)@.pending + data@);
                let frames: usize = bytes.len() / FRAME_SIZE;
                proof {
                    frames_and_rest(bytes@);
                }
                if frames == 0 {
                    let wanted: usize = FRAME_SIZE - bytes.len();
                    reader.pending = bytes;
                    return StreamAction::Read(wanted);
                }
                let end: usize = frames * FRAME_SIZE;
                let last = slice_subrange(bytes.as_slice(), end - FRAME_SIZE, end);
                let frame = Frame::new(last);
                assert(frame is Some);
                assert(last@.take(FRAME_SIZE as int) =~= nth_frame(bytes@, frames - 1));
                reader.frames_decoded = reader.frames_decoded + frames as u64;
                let rest = slice_to_vec(slice_subrange(bytes.as_slice(), end, bytes.len()));
                assert(rest@ =~= partial_frame(bytes@));
                reader.pending = rest;
                if let Some(frame) = frame {
                    self.cache_streamed(frame);
                }
                self.read_on(reader)
            },
            StreamEvent::Ended => {
                reader.pending = Vec::new();
                match reader.at_end(self.stop_requested()) {
                    EndOfStream::Stopped => StreamAction::Exit,
                    EndOfStream::StaticScene => StreamAction::Exit,
                    EndOfStream::Loop => {
                        reader.retry_count = 0;
                        reader.frames_decoded = 0;
                        StreamAction::Reap(self.take_child())
                    },
                    EndOfStream::Exhausted => {
                        self.fail();
                        StreamAction::Exit
                    },
                    EndOfStream::Retry => {
                        reader.retry_count = reader.retry_count + 1;
                        StreamAction::Backoff(BACKOFF_STEP_MS * reader.retry_count)
                    },
                }
            },
            StreamEvent::BackedOff => StreamAction::Reap(self.take_child()),
            StreamEvent::Reaped => StreamAction::Spawn(self.stream_command()),
            StreamEvent::Respawned(child) => {
                self.put_child(child);
                self.read_on(reader)
            },
            StreamEvent::RespawnedWithoutPipe(child) => {
                self.fail();
                StreamAction::Abandon(child)
            },
            StreamEvent::RespawnFailed => {
                self.fail();
                StreamAction::Exit
            },
        }
    }

    /// What a reader does at the border of a frame.
    fn read_on(&self, reader: &StreamReader) -> (action: StreamAction<C>)
        ensures
            action@ == read_on::<C>(self@.stop, reader@.pending),
    {
        proof {
            use_type_invariant(reader);
        }
        if self.stop_requested() {
            StreamAction::Exit
        } else {
            StreamAction::Read(FRAME_SIZE - reader.pending.len())
        }
    }
}

/// The number of retries never exceeds the budget.
pub proof fn retries_stay_within_the_budget<C, R>(
    v: SourceView<C, R>,
    r: ReaderView,
    event: StreamEvent<C>,
)
    requires
        0 <= r.retries <= MAX_RETRIES,
    ensures
        0 <= stream_reader_next(v, r, event).retries <= MAX_RETRIES,
{
}

/// Where a failed read is answered with a pause, the reader's round from that read to the next:
/// the pause ends, the old decoder is reaped and `child` is spawned in its place.
pub open spec fn retry_source<C, R>(v: SourceView<C, R>, r: ReaderView, child: C) -> SourceView<
    C,
    R,
> {
    let v1 = stream_source_next(v, r, StreamEvent::Ended);
    let r1 = stream_reader_next(v, r, StreamEvent::Ended);
    let v2 = stream_source_next(v1, r1, StreamEvent::BackedOff);
    let v3 = stream_source_next(v2, r1, StreamEvent::Reaped);
    stream_source_next(v3, r1, StreamEvent::Respawned(child))
}

/// The source and the reader after a round of retrying with each of `children` in turn, none of
/// which delivers a frame.
pub open spec fn failing_run<C, R>(
    v: SourceView<C, R>,
    r: ReaderView,
    children: Seq<C>,
) -> (SourceView<C, R>, ReaderView)
    decreases children.len(),
{
    if children.len() == 0 {
        (v, r)
    } else {
        let (v1, r1) = failing_run(v, r, children.drop_last());
        (
            retry_source(v1, r1, children.last()),
            stream_reader_next(v1, r1, StreamEvent::Ended),
        )
    }
}

/// A decoder that delivers nothing is started again five times, after pauses of 100, 200, 300, 400
/// and 500 milliseconds; when that has not helped either, the source has failed and the reader
/// ends. Up to then the state of the source is what it was.
pub proof fn decoder_is_retried_within_the_budget<C, R>(
    v: SourceView<C, R>,
    r: ReaderView,
    children: Seq<C>,
)
    requires
        !v.stop,
        r.frames == 0,
        r.retries == 0,
        children.len() <= MAX_RETRIES,
    ensures
        ({
            let (v1, r1) = failing_run(v, r, children);
            let action = stream_step(v1, r1, StreamEvent::Ended);
            let last = stream_source_next(v1, r1, StreamEvent::Ended);
            &&& v1.state == v.state
            &&& v1.latest == v.latest
            &&& !v1.stop
            &&& r1.frames == 0
            &&& r1.retries == children.len()
            &&& if children.len() < MAX_RETRIES {
                &&& action == StreamStep::<C>::Backoff((100 * (children.len() + 1)) as u64)
                &&& last == v1
            } else {
                &&& action == StreamStep::<C>::Exit
                &&& last == (SourceView { state: SourceState::Failed, ..v1 })
            }
        }),
    decreases children.len(),
{
    if children.len() > 0 {
        decoder_is_retried_within_the_budget(v, r, children.drop_last());
    }
}

/// A file that yields exactly one frame becomes a static scene: the reader ends without a retry,
/// the source has not failed and the frame stays.
pub proof fn single_frame_becomes_a_static_scene<C, R>(v: SourceView<C, R>, r: ReaderView)
    requires
        !v.stop,
        r.frames == 1,
    ensures
        stream_step(v, r, StreamEvent::Ended) == StreamStep::<C>::Exit,
        stream_source_next(v, r, StreamEvent::Ended) == v,
{
}

/// A file that was played to its end is played again at once: the decoder is replaced without a
/// pause, the retry budget is whole again, and neither the state nor the cached frame changes.
pub proof fn finished_stream_loops<C, R>(v: SourceView<C, R>, r: ReaderView)
    requires
        !v.stop,
        r.frames > 1,
    ensures
        stream_step(v, r, StreamEvent::Ended) == StreamStep::Reap(v.child),
        stream_source_next(v, r, StreamEvent::Ended) == (SourceView { child: None, ..v }),
        stream_reader_next(v, r, StreamEvent::Ended) == fresh_reader(),
{
}

/// A reader that is asked to stop begins no further frame, starts no retry and does not make the
/// source fail on a pipe that ends: all it may still read is the rest of a frame that has begun.
pub proof fn stopped_reader_ends<C, R>(v: SourceView<C, R>, r: ReaderView, event: StreamEvent<C>)
    requires
        v.stop,
    ensures
        stream_step(v, r, event) is Read ==> {
            &&& event matches StreamEvent::Data(data)
            &&& whole_frames(r.pending + data@) == 0
        },
        !(stream_step(v, r, event) is Backoff),
        stream_step(v, r, StreamEvent::Ended) == StreamStep::<C>::Exit,
        stream_source_next(v, r, StreamEvent::Ended) == v,
{
}

/// Fresh frames are live, whatever the state was before: the source that a frame comes from does
/// not count as failed any longer, and filling delivers that frame.
pub proof fn fresh_frame_is_live<C, R>(
    v: SourceView<C, R>,
    r: ReaderView,
    data: Vec<u8>,
    last: crate::source::PlaneWrite,
)
    requires
        whole_frames(r.pending + data@) > 0,
        last.which() == crate::frame::Plane::V,
    ensures
        ({
            let bytes = r.pending + data@;
            let frame = nth_frame(bytes, whole_frames(bytes) - 1);
            let v1 = stream_source_next(v, r, StreamEvent::<C>::Data(data));
            &&& v1.state == if v.state == SourceState::Failed {
                SourceState::Running
            } else {
                v.state
            }
            &&& crate::source::fill_step(v1, crate::source::FillEvent::Requested)
                == (crate::source::FillStep::Write { frame, plane: crate::frame::Plane::Y })
            &&& crate::source::fill_step(v1, crate::source::FillEvent::Written(last))
                == crate::source::FillStep::Done(Ok(crate::source::FillOutcome::Live))
        }),
{
}

/// The source and the reader after `chunks` have come through the pipe.
pub open spec fn fed<C, R>(v: SourceView<C, R>, r: ReaderView, chunks: Seq<Vec<u8>>) -> (
    SourceView<C, R>,
    ReaderView,
)
    decreases chunks.len(),
{
    if chunks.len() == 0 {
        (v, r)
    } else {
        let (v1, r1) = fed(v, r, chunks.drop_last());
        let event = StreamEvent::Data(chunks.last());
        (stream_source_next(v1, r1, event), stream_reader_next(v1, r1, event))
    }
}

/// However the pipe cuts up what a decoder writes, the frames are its consecutive pieces of
/// `FRAME_SIZE` bytes: the cached frame is the last whole one, every whole one was counted, and
/// what follows it is kept until the rest comes.
pub proof fn frames_are_cut_from_the_stream<C, R>(
    v: SourceView<C, R>,
    r: ReaderView,
    chunks: Seq<Vec<u8>>,
)
    requires
        r.pending == Seq::<u8>::empty(),
    ensures
        ({
            let written = crate::source::joined(chunks);
            let (v1, r1) = fed(v, r, chunks);
            &&& v1.latest == if whole_frames(written) == 0 {
                v.latest
            } else {
                Some(nth_frame(written, whole_frames(written) - 1))
            }
            &&& r1.frames == r.frames + whole_frames(written)
            &&& r1.pending == partial_frame(written)
        }),
    decreases chunks.len(),
{
    let written = crate::source::joined(chunks);
    if chunks.len() == 0 {
        frames_and_rest(written);
    } else {
        frames_are_cut_from_the_stream(v, r, chunks.drop_last());
        let before = crate::source::joined(chunks.drop_last());
        cutting_resumes(before, chunks.last()@);
    }
}

/// Whole frames and the rest of the bytes make up all of them.
pub(crate) proof fn frames_and_rest(bytes: Seq<u8>)
    ensures
        0 <= whole_frames(bytes),
        whole_frames(bytes) * FRAME_SIZE <= bytes.len() < whole_frames(bytes) * FRAME_SIZE
            + FRAME_SIZE,
        whole_frames(bytes) == 0 <==> bytes.len() < FRAME_SIZE,
        (whole_frames(bytes) - 1) * FRAME_SIZE == whole_frames(bytes) * FRAME_SIZE - FRAME_SIZE,
        partial_frame(bytes).len() == bytes.len() - whole_frames(bytes) * FRAME_SIZE,
        bytes.len() <= FRAME_SIZE ==> whole_frames(bytes) <= 1,
        whole_frames(bytes) == 0 ==> partial_frame(bytes) == bytes,
{
    let size = FRAME_SIZE as int;
    let len = bytes.len() as int;
    let frames = whole_frames(bytes);
    assert(0 <= frames && frames * size <= len < frames * size + size && (frames == 0 <==> len
        < size) && (len <= size ==> frames <= 1) && (frames - 1) * size == frames * size - size && 0 * size == 0)
        by (nonlinear_arith)
        requires
            frames == len / size,
            len >= 0,
            size == 460800,
    ;
    if frames == 0 {
        assert(partial_frame(bytes) =~= bytes);
    }
}

/// Cutting `before + data` into frames is cutting `data` behind what is left of `before`.
pub(crate) proof fn cutting_resumes(before: Seq<u8>, data: Seq<u8>)
    ensures
        ({
            let rest = partial_frame(before) + data;
            &&& 0 <= whole_frames(before)
            &&& 0 <= whole_frames(rest)
            &&& whole_frames(before + data) == whole_frames(before) + whole_frames(rest)
            &&& partial_frame(before + data) == partial_frame(rest)
            &&& whole_frames(rest) > 0 ==> nth_frame(before + data, whole_frames(before + data) - 1)
                == nth_frame(rest, whole_frames(rest) - 1)
            &&& whole_frames(before) > 0 ==> nth_frame(before + data, whole_frames(before) - 1)
                == nth_frame(before, whole_frames(before) - 1)
        }),
{
    let rest = partial_frame(before) + data;
    frames_and_rest(before);
    frames_and_rest(rest);
    frames_and_rest(before + data);
    let size = FRAME_SIZE as int;
    let first = whole_frames(before);
    let more = whole_frames(rest);
    let total = whole_frames(before + data);
    assert(total == first + more && total * size == first * size + more * size) by (nonlinear_arith)
        requires
            size == 460800,
            total * size <= first * size + rest.len() < total * size + size,
            more * size <= rest.len() < more * size + size,
    ;
    assert(partial_frame(before + data) =~= partial_frame(rest));
    if whole_frames(rest) > 0 {
        assert(nth_frame(before + data, whole_frames(before + data) - 1) =~= nth_frame(
            rest,
            whole_frames(rest) - 1,
        ));
    }
    if whole_frames(before) > 0 {
        assert(nth_frame(before + data, whole_frames(before) - 1) =~= nth_frame(
            before,
            whole_frames(before) - 1,
        ));
    }
}

/// What a decoder has written of a frame when its pipe ends is dropped: it is neither cached nor
/// joined with what the next decoder writes.
pub proof fn partial_frame_is_dropped<C, R>(v: SourceView<C, R>, r: ReaderView)
    ensures
        stream_source_next(v, r, StreamEvent::<C>::Ended).latest == v.latest,
        stream_reader_next(v, r, StreamEvent::<C>::Ended).pending == Seq::<u8>::empty(),
{
}

/// A cached frame stays until another whole frame has come.
pub proof fn frame_stays_until_the_next<C, R>(
    v: SourceView<C, R>,
    r: ReaderView,
    event: StreamEvent<C>,
)
    requires
        event matches StreamEvent::Data(data) ==> whole_frames(r.pending + data@) == 0,
    ensures
        stream_source_next(v, r, event).latest == v.latest,
{
}

/// Bytes are cut every 460800 of them: into frames of that length, each where it stands, and a rest
/// that is shorter than a frame.
pub proof fn bytes_are_cut_into_frames(bytes: Seq<u8>, i: int, j: int)
    ensures
        bytes.len() == 460800 * whole_frames(bytes) + partial_frame(bytes).len(),
        partial_frame(bytes).len() < 460800,
        0 <= i < whole_frames(bytes) ==> nth_frame(bytes, i).len() == 460800,
        0 <= i < whole_frames(bytes) && 0 <= j < 460800 ==> nth_frame(bytes, i)[j]
            == bytes[460800 * i + j],
        0 <= j < partial_frame(bytes).len() ==> partial_frame(bytes)[j] == bytes[460800
            * whole_frames(bytes) + j],
{
    frames_and_rest(bytes);
    let size = FRAME_SIZE as int;
    let frames = whole_frames(bytes);
    assert(frames * size == 460800 * frames && i * size == 460800 * i && (i + 1) * size == 460800 * i
        + 460800 && (0 <= i < frames ==> 460800 * i + 460800 <= 460800 * frames))
        by (nonlinear_arith)
        requires
            size == 460800,
    ;
}

/// A frame that has come, however it was cut into pieces, is a first frame in time: from then on
/// the deadline of the run hands out no decoder and changes nothing.
pub proof fn frame_meets_the_deadline<C, R>(v: SourceView<C, R>, r: ReaderView, data: Vec<u8>)
    requires
        whole_frames(r.pending + data@) > 0,
    ensures
        ({
            let v1 = stream_source_next(v, r, StreamEvent::<C>::Data(data));
            &&& v1.run == v.run
            &&& crate::source::first_frame_overdue(v1, v1.run) is None
            &&& crate::source::first_frame_deadline_next(v1, v1.run) == v1
        }),
{
}

/// Bytes that complete no frame change nothing in the source; they are kept, and the rest of the
/// frame is read, also by a reader that is asked to stop.
pub proof fn incomplete_frame_is_read_on<C, R>(v: SourceView<C, R>, r: ReaderView, data: Vec<u8>)
    requires
        (r.pending + data@).len() < 460800,
    ensures
        ({
            let event = StreamEvent::<C>::Data(data);
            &&& stream_source_next(v, r, event) == v
            &&& stream_reader_next(v, r, event) == (ReaderView { pending: r.pending + data@, ..r })
            &&& stream_step(v, r, event) == StreamStep::<C>::Read(
                460800 - (r.pending + data@).len(),
            )
        }),
{
    frames_and_rest(r.pending + data@);
}

/// Bytes that complete frames put the last of these into the cache, whatever the state, and count
/// them all; what follows is kept. The source runs if it had failed and is otherwise what it was,
/// and the reader goes on unless it is asked to stop.
pub proof fn complete_frame_is_cached<C, R>(v: SourceView<C, R>, r: ReaderView, data: Vec<u8>)
    requires
        (r.pending + data@).len() >= 460800,
    ensures
        ({
            let bytes = r.pending + data@;
            let frames = bytes.len() as int / 460800;
            let event = StreamEvent::<C>::Data(data);
            let v1 = stream_source_next(v, r, event);
            let r1 = stream_reader_next(v, r, event);
            &&& v1.latest == Some(bytes.subrange(460800 * frames - 460800, 460800 * frames))
            &&& v.state != SourceState::Failed ==> v1.state == v.state
            &&& v.state == SourceState::Failed ==> v1.state == SourceState::Running
            &&& v1 == (SourceView {
                latest: v1.latest,
                state: v1.state,
                first_frame: true,
                ..v
            })
            &&& r1.frames == r.frames + frames
            &&& r1.retries == r.retries
            &&& r1.pending == bytes.skip(460800 * frames)
            &&& v.stop ==> stream_step(v, r, event) == StreamStep::<C>::Exit
            &&& !v.stop ==> stream_step(v, r, event) == StreamStep::<C>::Read(
                460800 - r1.pending.len(),
            )
        }),
{
    let bytes = r.pending + data@;
    frames_and_rest(bytes);
    let size = FRAME_SIZE as int;
    let frames = whole_frames(bytes);
    assert(frames == bytes.len() as int / 460800);
    assert(frames * size == 460800 * frames && (frames - 1) * size == 460800 * frames - 460800 && (
    frames - 1 + 1) * size == 460800 * frames) by (nonlinear_arith)
        requires
            size == 460800,
    ;
}

/// A reader begins by reading up to the end of a frame, and so it does with a new decoder, which it
/// puts into the source; one that is asked to stop ends instead. Nothing else changes.
pub proof fn reading_begins_with_the_decoder<C, R>(v: SourceView<C, R>, r: ReaderView, child: C)
    ensures
        v.stop ==> {
            &&& stream_step(v, r, StreamEvent::<C>::Begin) == StreamStep::<C>::Exit
            &&& stream_step(v, r, StreamEvent::Respawned(child)) == StreamStep::<C>::Exit
        },
        !v.stop ==> {
            &&& stream_step(v, r, StreamEvent::<C>::Begin) == StreamStep::<C>::Read(
                460800 - r.pending.len(),
            )
            &&& stream_step(v, r, StreamEvent::Respawned(child)) == StreamStep::<C>::Read(
                460800 - r.pending.len(),
            )
        },
        stream_source_next(v, r, StreamEvent::<C>::Begin) == v,
        stream_reader_next(v, r, StreamEvent::<C>::Begin) == r,
        stream_source_next(v, r, StreamEvent::Respawned(child)) == (SourceView {
            child: Some(child),
            ..v
        }),
        stream_reader_next(v, r, StreamEvent::Respawned(child)) == r,
{
}

/// What becomes of a stream whose pipe has ended: nothing more of one that is being stopped, a
/// static scene of a single frame, a loop of several, and another try of none, five times over.
pub proof fn end_of_stream_is_told_by_the_frames(stop: bool, r: ReaderView)
    requires
        r.frames >= 0,
    ensures
        stop ==> end_of_stream(stop, r) == EndOfStream::Stopped,
        !stop && r.frames == 1 ==> end_of_stream(stop, r) == EndOfStream::StaticScene,
        !stop && r.frames >= 2 ==> end_of_stream(stop, r) == EndOfStream::Loop,
        !stop && r.frames == 0 && r.retries < 5 ==> end_of_stream(stop, r) == EndOfStream::Retry,
        !stop && r.frames == 0 && r.retries >= 5 ==> end_of_stream(stop, r)
            == EndOfStream::Exhausted,
{
}

/// A pipe that ends does no harm to a source that is being stopped or shows a single frame: the
/// reader ends and nothing changes, whatever else holds.
pub proof fn pipe_ends_without_harm<C, R>(v: SourceView<C, R>, r: ReaderView)
    requires
        v.stop || r.frames == 1,
    ensures
        stream_source_next(v, r, StreamEvent::<C>::Ended) == v,
        stream_step(v, r, StreamEvent::<C>::Ended) == StreamStep::<C>::Exit,
        stream_reader_next(v, r, StreamEvent::<C>::Ended).frames == r.frames,
        stream_reader_next(v, r, StreamEvent::<C>::Ended).retries == r.retries,
{
}

/// A stream of several frames that has ended is played again at once: its decoder is taken out of
/// the source to be reaped, and frames and retries are counted anew. Nothing else changes.
pub proof fn stream_is_played_again<C, R>(v: SourceView<C, R>, r: ReaderView)
    requires
        !v.stop,
        r.frames >= 2,
    ensures
        stream_source_next(v, r, StreamEvent::<C>::Ended) == (SourceView { child: None, ..v }),
        stream_step(v, r, StreamEvent::<C>::Ended) == StreamStep::Reap(v.child),
        stream_reader_next(v, r, StreamEvent::<C>::Ended).frames == 0,
        stream_reader_next(v, r, StreamEvent::<C>::Ended).retries == 0,
{
}

/// A decoder that has delivered nothing gets another try, after a pause of 100 milliseconds more
/// each time and with nothing changed in the source; after five of them the source has failed, and
/// the reader ends. In either case the decoder stays in the source for whoever reaps it.
pub proof fn silent_decoder_is_tried_again<C, R>(v: SourceView<C, R>, r: ReaderView)
    requires
        !v.stop,
        r.frames == 0,
        0 <= r.retries,
    ensures
        r.retries < 5 ==> {
            &&& stream_source_next(v, r, StreamEvent::<C>::Ended) == v
            &&& stream_step(v, r, StreamEvent::<C>::Ended) matches StreamStep::Backoff(millis)
            &&& millis == 100 * (r.retries + 1)
            &&& stream_reader_next(v, r, StreamEvent::<C>::Ended).frames == 0
            &&& stream_reader_next(v, r, StreamEvent::<C>::Ended).retries == r.retries + 1
        },
        r.retries >= 5 ==> {
            &&& stream_source_next(v, r, StreamEvent::<C>::Ended) == (SourceView {
                state: SourceState::Failed,
                ..v
            })
            &&& stream_step(v, r, StreamEvent::<C>::Ended) == StreamStep::<C>::Exit
            &&& stream_reader_next(v, r, StreamEvent::<C>::Ended).frames == 0
            &&& stream_reader_next(v, r, StreamEvent::<C>::Ended).retries == r.retries
        },
{
}

/// Behind a pause the old decoder is taken out of the source to be reaped; once that is done, the
/// decoder of this very file is spawned again, with the FFmpeg of the source, whatever the state
/// and whatever was counted.
pub proof fn decoder_is_replaced<C, R>(v: SourceView<C, R>, r: ReaderView)
    ensures
        stream_step(v, r, StreamEvent::<C>::BackedOff) == StreamStep::Reap(v.child),
        stream_source_next(v, r, StreamEvent::<C>::BackedOff) == (SourceView { child: None, ..v }),
        stream_reader_next(v, r, StreamEvent::<C>::BackedOff) == r,
        stream_step(v, r, StreamEvent::<C>::Reaped) matches StreamStep::Spawn(command) && {
            &&& command == crate::command::stream_view(v.path, v.ffmpeg)
            &&& command.program == v.ffmpeg
        },
        stream_source_next(v, r, StreamEvent::<C>::Reaped) == v,
        stream_reader_next(v, r, StreamEvent::<C>::Reaped) == r,
{
}

/// Where no new decoder can be had, or none that can be read from, the source has failed and the
/// reader ends, reaping what it got; the cached frame stays, and so does everything else.
pub proof fn decoder_cannot_be_replaced<C, R>(v: SourceView<C, R>, r: ReaderView, child: C)
    ensures
        stream_step(v, r, StreamEvent::RespawnedWithoutPipe(child)) == StreamStep::Abandon(child),
        stream_source_next(v, r, StreamEvent::RespawnedWithoutPipe(child)) == (SourceView {
            state: SourceState::Failed,
            ..v
        }),
        stream_reader_next(v, r, StreamEvent::RespawnedWithoutPipe(child)) == r,
        stream_step(v, r, StreamEvent::<C>::RespawnFailed) == StreamStep::<C>::Exit,
        stream_source_next(v, r, StreamEvent::<C>::RespawnFailed) == (SourceView {
            state: SourceState::Failed,
            ..v
        }),
        stream_reader_next(v, r, StreamEvent::<C>::RespawnFailed) == r,
{
}

/// A new reader has read and tried nothing.
pub proof fn new_reader_is_empty()
    ensures
        fresh_reader().frames == 0,
        fresh_reader().retries == 0,
        fresh_reader().pending.len() == 0,
{
}

/// The actions of a reader show what they hold.
pub proof fn stream_actions_show_all<C>(
    wanted: usize,
    millis: u64,
    reaped: Option<C>,
    command: CommandLine,
    child: C,
)
    ensures
        StreamAction::<C>::Read(wanted)@ == StreamStep::<C>::Read(wanted as int),
        StreamAction::<C>::Backoff(millis)@ == StreamStep::<C>::Backoff(millis),
        StreamAction::Reap(reaped)@ == StreamStep::Reap(reaped),
        StreamAction::<C>::Spawn(command)@ == StreamStep::<C>::Spawn(command@),
        StreamAction::Abandon(child)@ == StreamStep::Abandon(child),
        StreamAction::<C>::Exit@ == StreamStep::<C>::Exit,
{
}

} // verus!
