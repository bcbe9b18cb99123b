# emulated_camera

The decisions behind a virtio-media camera whose picture comes from a video or an image file on the
host, decoded by FFmpeg to I420 frames of 640x480 pixels. The library is verified with Verus; it
holds no process, thread or file itself.

- `src/path.rs`, `src/kind.rs`: host paths, their extension, and whether a file is a still image.
- `src/command.rs`: the FFmpeg command lines.
- `src/checks.rs`: the check of the file and of FFmpeg, and the decode probe.
- `src/frame.rs`: the planes of a frame.
- `src/source.rs`: starting, stopping and filling; the still image decoder and the watchdogs.
- `src/stream.rs`: the reader of a video stream: how frames are cut from the pipe, loops, retries.
- `src/protocol.rs`: what holds of a source whatever order its threads take their steps in, such as
  that every process is waited for before the source is idle.
- `src/backend.rs`: configuration, startup and the serve loop.
- `src/text.rs`: text operations of the standard library and what they are taken to do.

A function that takes an event and returns an action is one step of a loop: the caller performs the
action and reports what came of it as the next event. `app/` holds these loops, with the processes,
threads, pipes and sockets.
