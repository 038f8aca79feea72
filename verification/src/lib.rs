//! Pull-based audio signal-processing graph.
//!
//! Samples are fixed-point amplitudes: the value [`UNIT`] stands for 1.0, and
//! a sample nominally stays within `[-UNIT, UNIT]`. All per-tick arithmetic
//! saturates at the representable extremes instead of overflowing, so every
//! per-tick operation is total and returns a sample.

use vstd::prelude::*;

pub mod consumer;
pub mod control;
pub mod filters;
pub mod generators;
pub mod graph;
pub mod keys;
pub mod laws;
pub mod mux;
pub mod notes;
pub mod pots;
pub mod sample;
pub mod track;
pub mod scales;
pub mod stream;

pub use notes::{Note, NoteError, Octave, Pitch, Tone};
pub use sample::UNIT;
pub use scales::c_major;

verus! {

/// Audio amplitude at one tick, as a fixed-point number: `UNIT` is 1.0.
pub type Sample = i64;

} // verus!
