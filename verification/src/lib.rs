//! Decoder for the MOV family of Intel 8086 machine instructions.
//!
//! The library turns a byte stream into structured instructions and keeps
//! exact account of how many bytes each instruction occupies. Every function
//! carries a contract over the byte sequence it reads.
//!
//! Bits of a byte are numbered 1 to 8 from the most significant one:
//!
//! ```text
//! first byte:   1 2 3 4 5 6 7 8        second byte:  1 2 3 4 5 6 7 8
//!               ---opcode--- d w                     mod --reg- --r/m-
//! ```

pub mod bits;
pub mod classify;
pub mod decode;
pub mod disasm;
pub mod error;
pub mod instruction;
pub mod laws;
pub mod operand;
pub mod render;
pub mod stream;
pub mod tables;
