//! Pitches of musical tunings, addressed by integer steps.
//!
//! A tuning gives a frequency to each step, and steps may be negative.
//! Frequencies and intervals are real numbers. This crate stores each as the
//! 32 bits of a single-precision IEEE 754 number and never computes with
//! them: it decides which stored values make up the pitch of a step, and
//! holds the finished pitches of the MIDI notes. Raising a frequency by an
//! interval is left to the caller.

use vstd::prelude::*;

pub mod cycle;
pub mod tuning;

verus! {

/// Hertz is the standard unit of frequency.
///
/// It is also the standard unit of pitch as well. The field holds the bits
/// of the number, and two frequencies are equal when their bits are.
#[derive(Clone, Copy, Debug, PartialEq, Eq, Structural)]
pub struct Hz(pub u32);

/// Cent is the standard unit of musical interval.
///
/// 12 EDO semitone is 100 cents large while an octave is 1200 cents large.
/// The field holds the bits of the number, and two intervals are equal when
/// their bits are.
#[derive(Clone, Copy, Debug, PartialEq, Eq, Structural)]
pub struct Cents(pub u32);

/// The bits of 440, the frequency in hertz of the A that orchestras tune to.
pub const A440: u32 = 0x43dc_0000;

} // verus!
