//! A camera feed emulated from a media file on the host.
//!
//! FFmpeg decodes the file and hands over raw I420 frames through a pipe. This library decides
//! everything around that: which kind of source a file is, which command lines run, what each
//! outcome of a host operation means, when a decoder is restarted or given up, and which bytes of
//! a frame go to which plane. The processes, threads and files themselves belong to the caller,
//! who performs the action that a step function returns and reports back what happened.

pub mod backend;
pub mod checks;
pub mod command;
pub mod frame;
pub mod kind;
pub mod path;
pub mod protocol;
pub mod source;
pub mod stream;
pub mod text;
