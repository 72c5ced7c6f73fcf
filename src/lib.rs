//! An emulator for the LC-3, a 16-bit educational processor: eight general
//! registers, a process status register with privilege, priority and
//! condition codes, a 65536-word memory with memory-mapped devices, and a
//! supervisor/user stack protocol for exceptions and interrupts.

mod bits;
mod demo;
pub mod isa;
pub mod laws;
mod machine;
mod memory;

pub use bits::{mux, sign_extend};
pub use demo::{prepare_supervisor, prepare_user_program};
pub use isa::{LC3IO, MachineState};
pub use machine::LC3;
pub use memory::{LC3Memory, MemoryState};
