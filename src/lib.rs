//! An interpreter for the classic 8-bit virtual machine with 35 opcodes,
//! 4 KiB of memory, sixteen byte registers and a 64 x 32 monochrome display.
//!
//! The fetch-decode-execute core, the sprite blit, the call stack, the timers
//! and the key latch are verified against the models in each module. Window
//! handling, keyboard polling and file loading live outside the library.

pub mod color;
pub mod debugger;
pub mod display;
pub mod keypad;
pub mod laws;
pub mod machine;
pub mod opcode;
pub mod semantics;

pub use color::Color;
pub use machine::CHIP8;
pub use semantics::{ErrorKind, Fault, MachineState};
