//! A stored-program machine over one mutable array of 32-bit signed words.
//!
//! `decode` classifies an instruction word, `operand` resolves parameters,
//! `executor` holds one handler per instruction and `machine` drives them.

pub mod decode;
pub mod operand;
pub mod executor;
pub mod machine;
pub mod laws;
