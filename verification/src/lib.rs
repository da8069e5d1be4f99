//! RusTair: an Intel 8080 / MITS Altair 8800 emulation library whose
//! instruction decoding, cycle engine, debugger control and serial/disk
//! device models are verified with Verus.

pub mod cpu8080_cycle;
pub mod text;
pub mod decoder8080;
pub mod disasm;
pub mod trace8080;
pub mod debugger_control;
pub mod debugger8080;
pub mod backend;
pub mod explain8080;
pub mod mc6850;
pub mod machine;
pub mod config;
pub mod io;
