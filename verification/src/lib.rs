//! A verified CHIP-8 virtual machine core: the machine state container, the
//! instruction decoder and the executor, with a mathematical model of the
//! machine against which each of them is proved.

pub mod cpu;
pub mod fault;
pub mod font;
pub mod instruction;
pub mod laws;
pub mod machine;
pub mod model;
mod rng;

pub use crate::fault::Fault;
pub use crate::font::FONT_SET;
pub use crate::instruction::{decode, Instruction};
pub use crate::machine::Chip8;
