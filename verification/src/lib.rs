//! A CHIP-8 virtual machine: instruction decoding, a monochrome screen, a
//! sixteen-key pad and the fetch-decode-execute engine that ties them together.
//!
//! Every function carries a contract that is checked by Verus.

pub mod args;
pub mod chip8;
pub mod frontend;
mod host;
pub mod instruction;
pub mod keys;
pub mod laws;
pub mod machine;
pub mod screen;
