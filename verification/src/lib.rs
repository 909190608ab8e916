//! Offline renderer model for one-shot map screenshots.
//!
//! The library holds the verified core of the pipeline: the orchestrator
//! state machine that sequences loading, upload, frame configuration,
//! pass recording, submission, readback and save; the camera model with
//! exact aspect-ratio arithmetic; the RGBA8 image model; and the layer
//! draw-order model. The GPU backend itself is driven by unverified code
//! around the library.

pub mod camera;
pub mod compose;
pub mod error;
pub mod image;
pub mod layers;
pub mod pipeline;
pub mod readback;

use vstd::prelude::*;

verus! {

/// Every pixel of the output image is 8-bit-per-channel RGBA:
/// four bytes, non-premultiplied, linear byte layout.
pub fn bytes_per_pixel() -> (n: u32)
    ensures
        n == 4,
{
    4
}

} // verus!
