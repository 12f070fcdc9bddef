//! Register-level model of an RP2040-style clock and pin bring-up.
//!
//! The crate has two layers. `machine` is the register access layer: a
//! simulated flat address space of memory-mapped control registers, with
//! atomic read, write, set-bits and clear-bits operations and a model of
//! the status-bit behaviour (oscillator startup, glitchless mux settling,
//! PLL lock). `sequence` is the bring-up sequencer: the fixed, one-shot
//! order of register operations that takes the clock tree from power-on
//! state to the target frequency and one pin to software-driven output.

pub mod laws;
pub mod machine;
pub mod regs;
pub mod sequence;
