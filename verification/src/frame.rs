//! The layout of a decoded frame: I420 at a fixed resolution, three planes back to back.

use std::sync::Arc;
use vstd::prelude::*;
use vstd::slice::slice_subrange;
use vstd::slice::slice_to_vec;

verus! {

/// Width of every frame in pixels.
pub const WIDTH: usize = 640;

/// Height of every frame in pixels.
pub const HEIGHT: usize = 480;

/// Bytes of the luma plane: one for each pixel.
pub const Y_SIZE: usize = WIDTH * HEIGHT;

/// Bytes of each chroma plane: one for each block of four pixels.
pub const UV_SIZE: usize = (WIDTH * HEIGHT) / 4;

/// Bytes of a whole frame.
pub const FRAME_SIZE: usize = Y_SIZE + (2 * UV_SIZE);

/// A plane of a frame.
#[derive(Debug, Clone, Copy, PartialEq, Eq, Structural)]
pub enum Plane {
    /// Luma.
    Y,
    /// First chroma plane.
    U,
    /// Second chroma plane.
    V,
}

impl Plane {
    /// Where the plane starts in a frame.
    pub open spec fn start(self) -> int {
        match self {
            Plane::Y => 0,
            Plane::U => Y_SIZE as int,
            Plane::V => Y_SIZE + UV_SIZE,
        }
    }

    /// Bytes of the plane.
    pub open spec fn size(self) -> int {
        match self {
            Plane::Y => Y_SIZE as int,
            Plane::U => UV_SIZE as int,
            Plane::V => UV_SIZE as int,
        }
    }
}

/// The bytes of `plane` in `frame`.
pub open spec fn plane_bytes(frame: Seq<u8>, plane: Plane) -> Seq<u8> {
    frame.subrange(plane.start(), plane.start() + plane.size())
}

/// The bytes of one decoded frame, exactly `FRAME_SIZE` of them.
pub struct Frame {
    bytes: Vec<u8>,
}

impl View for Frame {
    type V = Seq<u8>;

    closed spec fn view(&self) -> Seq<u8> {
        self.bytes@
    }
}

impl Frame {
    #[verifier::type_invariant]
    spec fn holds_all_planes(self) -> bool {
        self.bytes@.len() == FRAME_SIZE
    }

    /// The frame that `bytes` begin with, unless they are too few to hold all planes.
    pub fn new(bytes: &[u8]) -> (frame: Option<Frame>)
        ensures
            frame is Some <==> bytes@.len() >= FRAME_SIZE,
            frame matches Some(f) ==> f@ == bytes@.take(FRAME_SIZE as int),
    {
        if bytes.len() < FRAME_SIZE {
            None
        } else {
            let bytes = slice_to_vec(slice_subrange(bytes, 0, FRAME_SIZE));
            Some(Frame { bytes })
        }
    }

    /// The bytes of one plane.
    pub fn plane(&self, plane: Plane) -> (bytes: &[u8])
        ensures
            self@.len() == FRAME_SIZE,
            bytes@ == plane_bytes(self@, plane),
            bytes@.len() == plane.size(),
    {
        proof {
            use_type_invariant(self);
        }
        match plane {
            Plane::Y => slice_subrange(self.bytes.as_slice(), 0, Y_SIZE),
            Plane::U => slice_subrange(self.bytes.as_slice(), Y_SIZE, Y_SIZE + UV_SIZE),
            Plane::V => slice_subrange(self.bytes.as_slice(), Y_SIZE + UV_SIZE, FRAME_SIZE),
        }
    }
}

/// Calls `Arc::clone`.
///
/// Believed without proof: the new pointer points to the same frame.
#[verifier::external_body]
pub(crate) fn std_arc_clone(frame: &Arc<Frame>) -> (shared: Arc<Frame>)
    ensures
        shared == *frame,
{
    Arc::clone(frame)
}

/// The three planes, in order, are the frame: nothing between them is left out and nothing is
/// handed out twice.
pub proof fn planes_tile_the_frame(frame: Seq<u8>)
    requires
        frame.len() == FRAME_SIZE,
    ensures
        plane_bytes(frame, Plane::Y) + plane_bytes(frame, Plane::U) + plane_bytes(frame, Plane::V)
            == frame,
{
    assert(plane_bytes(frame, Plane::Y) + plane_bytes(frame, Plane::U) + plane_bytes(
        frame,
        Plane::V,
    ) =~= frame);
}

/// A frame holds one luma byte for each of its 640 by 480 pixels, then twice one chroma byte for
/// each block of four, and each plane is a piece of the frame in its place.
pub proof fn planes_are_those_of_i420(frame: Seq<u8>, i: int)
    requires
        frame.len() == FRAME_SIZE,
    ensures
        FRAME_SIZE == 640 * 480 + 2 * (320 * 240),
        plane_bytes(frame, Plane::Y).len() == 640 * 480,
        plane_bytes(frame, Plane::U).len() == 320 * 240,
        plane_bytes(frame, Plane::V).len() == 320 * 240,
        0 <= i < 307200 ==> plane_bytes(frame, Plane::Y)[i] == frame[i],
        0 <= i < 76800 ==> plane_bytes(frame, Plane::U)[i] == frame[307200 + i],
        0 <= i < 76800 ==> plane_bytes(frame, Plane::V)[i] == frame[384000 + i],
{
}

} // verus!
