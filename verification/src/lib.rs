//! Decoder for the register-to-register move instructions of a 16-bit
//! processor: bytes in, typed instructions and their assembly text out.
//!
//! Every function carries a contract over a mathematical model of the
//! encoding, and Verus proves that the code meets it.

pub mod decoder;
pub mod error;
pub mod instructions;
pub mod registers;
