//! Turns marker-annotated audio samples into a hardware sampler kit:
//! each cue-point region of a source file becomes one kit row, and the
//! source audio is scheduled for copying into the managed card storage.
//!
//! The crate holds the decision logic only: cue-length inference, path
//! resolution and containment, row accumulation, the copy policy and the
//! batch orchestration. Reading wave metadata, writing the kit patch and
//! copying files are left to the caller.

use vstd::prelude::*;

pub mod card;
pub mod copying;
pub mod cues;
pub mod errors;
pub mod generate;
pub mod kit;
pub mod paths;

verus! {

} // verus!
