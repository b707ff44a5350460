//! The SM83 processor: register file, arithmetic, control flow and decoding.
pub mod arithmetic;
pub mod bit;
pub mod control;
pub mod opcodes;
pub mod opcodes_cb;
pub mod registers;

pub use self::registers::{Flag, Interrupts, Register, RegisterPair, CPU};
