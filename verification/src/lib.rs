//! Core interpreter of a Game Boy (DMG): the SM83 instruction set, its
//! register file, the memory bus, interrupt delivery and the timer.
//!
//! - [`memory`]: the 16-bit address space and its bus rules.
//! - [`cpu`]: the register file and every instruction, with its cost in
//!   T-cycles.
//! - [`interrupts`]: the five sources, their priority and their vectors.
//! - [`timer`]: DIV and TIMA, driven by the T-cycles that instructions cost.
//! - [`gameboy`]: the machine and its step.
//! - [`gameboy_doctor`]: trace lines and the serial debug sink for headless
//!   runs.
//!
//! Every function states what it returns and changes over plain values: a
//! register file is a [`cpu::CPU`], a memory is the sequence of its 65536
//! cells.
pub mod bytes;
pub mod cpu;
pub mod data;
pub mod gameboy;
pub mod gameboy_doctor;
pub mod interrupts;
pub mod memory;
pub mod timer;
