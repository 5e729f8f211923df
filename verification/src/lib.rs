//! A cycle-stepped emulator core for an 8-bit processor compatible with the
//! 6502 instruction set.
//!
//! The crate is split into three layers, leaf first:
//! - [`bus`]: the device capability (read/write/address membership), and a
//!   bus that routes reads to the first matching device and fans writes out
//!   to every matching device;
//! - [`memory`]: a sparse byte store over an inclusive address range,
//!   usable as a bus device;
//! - [`processor`]: the register file, the instruction table and the
//!   micro-operation state machine driven one step per clock tick.

use vstd::prelude::*;

pub mod bus;
pub mod memory;
pub mod processor;
