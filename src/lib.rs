//! The core of a Game Boy (LR35902) emulator: flag register, arithmetic,
//! interrupt controller, memory bus, instruction decoder and executor.

pub mod alu;
pub mod bus;
pub mod cpu;
pub mod decoder;
pub mod executor;
pub mod flags;
pub mod instruction;
pub mod interrupt;
pub mod laws;
pub mod save_file;
