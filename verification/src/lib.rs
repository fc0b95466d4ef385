//! An interpreter for a 16-bit-instruction, 8-bit virtual machine with a
//! 64x32 monochrome display, sixteen registers, a sixteen-entry call stack
//! and a sixteen-key pad.
//!
//! The core is the fetch-decode-execute cycle in [`cpu`]; every instruction
//! has a transition relation in [`step`] that its handler is verified
//! against, and [`laws`] proves facts spanning several instructions or
//! cycles. A host driver supplies the window, audio, keyboard and pacing
//! around this crate.

pub mod cpu;
pub mod display;
pub mod laws;
mod rng;
pub mod step;
