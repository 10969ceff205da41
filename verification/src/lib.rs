//! A cycle-accurate execution core for an SM83-class 8-bit CPU.
//!
//! The crate models the register file, the arithmetic-logic unit, the
//! increment/decrement unit, the interrupt control unit and the two signal
//! lines (an 8-bit data bus and a 16-bit address bus) that connect them, and
//! the decode/execute state machine that drives them one machine cycle at a
//! time.
pub mod bus;
pub mod cpu;
