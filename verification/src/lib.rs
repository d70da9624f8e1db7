//! A verified CHIP-8 interpreter core: machine state, instruction
//! fetch/decode/execute, sprite drawing, timers and keypad logic.
//!
//! Window rendering, keyboard polling and ROM file reading are left to the
//! host program; the core works on plain values (bytes, booleans, key codes).

pub mod arith;
pub mod chip;
pub mod decode;
pub mod display;
pub mod emulation;
pub mod hexfmt;
pub mod keypad;
pub mod rng;
