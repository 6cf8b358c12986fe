//! An instruction-set simulator for the 32-bit RISC-V base integer core.
//!
//! Memory, the instruction decoder and the execution engine are modelled by
//! spec functions, and every executable operation is proved against them.

pub mod cpu;
pub mod fault;
mod image;
pub mod instruction;
pub mod laws;
pub mod ram;
