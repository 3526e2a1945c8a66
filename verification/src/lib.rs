//! A CHIP-8 virtual machine whose behaviour is stated in contracts and
//! proved.
//!
//! [`model::Machine`] is the machine as a mathematical value, with one
//! function for the effect of each instruction. [`chip::Chip8`] is the
//! machine that runs: each of its operations is proved to do to the machine
//! what the model says, or to fail and leave it untouched. [`decode`] turns
//! opcodes into instructions, [`screen`] holds the display and the drawing
//! of sprites, [`cycle`] paces instructions and timer ticks, and [`laws`]
//! collects what has been proved of the model beyond the single operations.

use vstd::prelude::*;

pub mod bytes;
pub mod chip;
pub mod cpu;
pub mod cycle;
pub mod decode;
pub mod error;
pub mod font;
pub mod laws;
pub mod model;
pub mod rom;
pub mod screen;

verus! {

/// Address at which a loaded program begins, and at which execution starts.
pub const PROGRAM_START: usize = 0x200;

/// Number of addressable bytes.
pub const MEMORY_SIZE: usize = 0x1000;

} // verus!
