//! A verified execution core for the classic 8-bit interpreted machine with a
//! 64×32 monochrome display, sixteen 8-bit registers and a 16-key keypad.

pub mod cpu;
pub mod font;
pub mod instruction;
pub mod laws;
pub mod machine;
pub mod rom;

pub use cpu::{State, CPU};
pub use instruction::{decode, Instruction};
pub use rom::Rom;
pub use machine::{PCActions, SCREEN_HEIGHT, SCREEN_WIDTH};
