//! Morse code translation and playback planning.
//!
//! The library turns ASCII text into Morse code, plans the exact sequence of
//! tones and silences that a playback run must perform, and models the audio
//! tone generator's sample counting and amplitude envelope with integer
//! arithmetic, so that all of it can be verified. Producing the actual
//! floating-point samples and driving the audio device are left to the
//! surrounding application.

use vstd::prelude::*;

pub mod playback;
pub mod signal;
pub mod translate;

verus! {

/// The fundamental timing quantum in milliseconds: a dot lasts one base unit.
pub const BASE_MS: u64 = 50;

/// A dash lasts three base units.
pub const DASH_MS: u64 = BASE_MS * 3;

/// Silence between the letters of a word lasts three base units.
pub const LETTER_GAP_MS: u64 = BASE_MS * 3;

/// Silence at a word boundary lasts seven base units.
pub const WORD_GAP_MS: u64 = BASE_MS * 7;

} // verus!
