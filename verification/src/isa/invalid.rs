//! Errors describing invalid instructions and expressions.

use vstd::prelude::*;

verus! {

/// Error type used when a WebAssembly instruction opcode is invalid.
#[derive(Clone, Copy, Debug, PartialEq, Eq, Hash)]
pub enum InvalidOpcode {
    /// A single byte that is not a recognized opcode.
    Byte(u8),
    /// A code following a prefix byte that is not a recognized opcode.
    Prefixed { prefix: u8, secondary: u32 },
    /// The opcode was missing.
    Missing,
    /// The code following a prefix byte was missing.
    MissingActual { prefix: u8 },
}

impl InvalidOpcode {
    /// An unrecognized opcode: a single byte when `secondary` is `None`, otherwise the code that
    /// followed the prefix byte `opcode`.
    pub(crate) fn new(opcode: u8, secondary: Option<u32>) -> (r: Self)
        ensures
            r == (match secondary {
                Some(s) => InvalidOpcode::Prefixed { prefix: opcode, secondary: s },
                None => InvalidOpcode::Byte(opcode),
            }),
    {
        match secondary {
            Some(secondary) => InvalidOpcode::Prefixed { prefix: opcode, secondary },
            None => InvalidOpcode::Byte(opcode),
        }
    }

    /// The code following the prefix byte `prefix` was missing.
    pub(crate) fn missing_actual(prefix: u8) -> (r: Self)
        ensures
            r == (InvalidOpcode::MissingActual { prefix }),
    {
        InvalidOpcode::MissingActual { prefix }
    }
}

/// Indicates why a WebAssembly instruction could not be parsed.
#[derive(Clone, Copy, Debug, PartialEq, Eq, Hash)]
#[non_exhaustive]
pub enum InvalidInstr {
    /// The instruction was not recognized by the parser it was handed to.
    Unrecognized,
    /// An immediate argument of an instruction could not be parsed.
    Argument,
    /// The destination index could not be parsed.
    Destination,
    /// The source index could not be parsed.
    Source,
    /// A vector lane index could not be parsed.
    VectorLane,
    /// A `br_table` instruction had too many labels.
    BrTableLabelCount,
    /// A typed `select` instruction had more than one type; holds the number of types, saturated
    /// at `255`.
    SelectTypedArity(u8),
}

/// Describes an error that occured while parsing a WebAssembly expression.
#[derive(Clone, Copy, Debug, PartialEq, Eq, Hash)]
#[non_exhaustive]
pub enum InvalidExpr {
    /// More `end` instructions were expected.
    ExpectedEnds(u32),
    /// The block nesting counter overflowed.
    BlockNestingOverflow,
}

} // verus!
