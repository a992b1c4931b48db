//! Display-ready video frames.
use std::time::Duration;

use vstd::prelude::*;

verus! {

/// A frame converted for display: BGRA bytes, its size, and the time at
/// which it is to be shown.
#[derive(Clone)]
pub struct VideoFrame {
    pub data: Vec<u8>,
    pub width: u32,
    pub height: u32,
    pub pts: Duration,
}

impl VideoFrame {
    /// Creates a frame from its parts.
    pub fn new(data: Vec<u8>, width: u32, height: u32, pts: Duration) -> (r: Self)
        ensures
            r.data@ == data@,
            r.width == width,
            r.height == height,
            r.pts == pts,
    {
        VideoFrame { data, width, height, pts }
    }
}

} // verus!
