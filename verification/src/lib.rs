//! An interpreter core for the CHIP-8 virtual machine.
//!
//! The machine fetches big-endian 16-bit instruction words from a 4 KiB memory
//! image, decodes their nibble fields and updates its registers, program
//! counter, call stack, timers and framebuffer. Every executable function is
//! specified against the mathematical machine of [`state::Machine`].

pub mod debug_runner;
pub mod instruction;
pub mod interpreter;
pub mod laws;
mod random;
pub mod report;
pub mod state;

pub use instruction::{decode, EmOp, Opcode};
pub use debug_runner::cycle_once;
pub use interpreter::{new_em, Em};
pub use state::{Fault, LoadError, MEM_LENGTH, NUM_REGS, PC_START, PC_STEP, SCREEN_SIZE, STACK_LEN};
