//! Types representing, and functions for parsing, [WebAssembly instructions].
//!
//! [WebAssembly instructions]: https://webassembly.github.io/spec/core/binary/instructions.html

pub mod decode;
pub mod expr;
pub mod instr;
pub mod instr_kind;
pub mod invalid;
pub mod listing;
pub mod mem_arg;
pub mod opcode;
pub mod parse_instr;

pub use expr::{expr, parse_expr, ParseExpr, UnrecognizedInstr};
pub use instr::{Immediates, Instr, LaneIdx};
pub use instr_kind::InstrKind;
pub use invalid::{InvalidExpr, InvalidInstr, InvalidOpcode};
pub use mem_arg::{Align, MemArg};
pub use opcode::{Encoding, ImmKind, Opcode};
pub use parse_instr::{instr, ParseInstr, ParseInstrError};
