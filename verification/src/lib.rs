//! Verified core of a speech-transcription service.
//!
//! The library normalizes arbitrary audio into canonical mono 16 kHz 16-bit
//! PCM WAV (decisions verified here, I/O performed by the surrounding
//! program), parses and validates that canonical audio into a normalized
//! sample buffer, and assembles the recognition engine's raw per-index
//! segment output into an ordered transcript under a precise
//! partial-failure policy.

pub mod decoder;
pub mod engine;
pub mod errors;
pub mod models;
pub mod normalize;
pub mod segments;

use vstd::prelude::*;

verus! {

} // verus!
