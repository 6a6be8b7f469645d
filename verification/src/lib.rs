//! A library for parsing the WebAssembly binary format, with each parser's behaviour stated as a
//! contract over the bytes it reads.
//!
//! Every parser takes the remaining input as a byte slice and, on success, hands back the input
//! that follows what it consumed together with the parsed value.

pub mod error;
pub mod input;
pub mod index;
pub mod isa;
pub mod leb128;
pub mod module;
pub mod ordering;
pub mod section;
pub mod storage;
pub mod types;
pub mod values;
