//! The CPU core and its functional units.
pub mod alu;
pub mod control_unit;
pub mod cpu;
pub mod flags;
pub mod idu;
pub mod instruction;
pub mod register_file;
pub mod timing;

pub use cpu::CPU;
