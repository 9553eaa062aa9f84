//! Control surface of a flash-loan program: the instruction codec, the codec
//! of the program's fixed-size account record, and the processor that
//! validates and applies instructions.

pub mod error;
pub mod little_endian;
pub mod instruction;
pub mod state;
pub mod token;
pub mod account;
pub mod processor;
