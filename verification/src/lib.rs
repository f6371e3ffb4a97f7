//! The decisions of a small wgpu camera demo: which keys steer the camera,
//! how the window surface follows resizes, what the event loop does with
//! each event, and the index and vertex-layout data of the drawn pentagon.
//! Everything that renders, reads input or computes in floating point lives
//! around this library; the library decides and the caller carries out.
use vstd::prelude::*;

pub mod controller;
pub mod geometry;
pub mod state;
pub mod surface;
pub mod event_loop;

verus! {
} // verus!
