//! The full opcode of an instruction, classified by the byte prefix that it is encoded with.

use vstd::prelude::*;

use crate::error::{agrees, ErrorSource, Outcome, Parsed};
use crate::isa::decode::spec_opcode;
use crate::isa::opcode::{spec_encoding, spec_name, Encoding, Opcode};

verus! {

/// Represents the full opcode of an instruction.
///
/// Some instructions in WebAssembly are encoded with a byte prefix, followed by the actual
/// opcode, encoded in a *LEB128* format integer.
#[derive(Clone, Copy, Debug, PartialEq, Eq, Hash)]
#[non_exhaustive]
pub enum InstrKind {
    /// Encodes an instruction with a single byte *opcode*.
    Byte(Opcode),
    /// Encodes an instruction prefixed with the byte `0xFC`.
    FCPrefixed(Opcode),
    /// Encodes a 128-bit vector instruction, which is prefixed with the byte `0xFD`.
    V128(Opcode),
    /// Encodes an instruction prefixed with the byte `0xFE`: the atomic memory instructions.
    FEPrefixed(Opcode),
}

impl View for InstrKind {
    type V = InstrKind;

    open spec fn view(&self) -> InstrKind {
        *self
    }
}

/// The kind of `op`: the prefix byte of its encoding decides.
pub open spec fn spec_instr_kind(op: Opcode) -> InstrKind {
    match spec_encoding(op) {
        Encoding::Byte(_) => InstrKind::Byte(op),
        Encoding::Prefixed { prefix, .. } => if prefix == 0xFC {
            InstrKind::FCPrefixed(op)
        } else if prefix == 0xFD {
            InstrKind::V128(op)
        } else {
            InstrKind::FEPrefixed(op)
        },
    }
}

/// The opcode that a kind holds.
pub open spec fn spec_kind_opcode(kind: InstrKind) -> Opcode {
    match kind {
        InstrKind::Byte(op) | InstrKind::FCPrefixed(op) | InstrKind::V128(op) | InstrKind::FEPrefixed(op) => op,
    }
}

/// The meaning of [`InstrKind::parse`]: an opcode, classified by its prefix.
pub open spec fn spec_parse_instr_kind(s: Seq<u8>) -> Outcome<InstrKind> {
    match spec_opcode(s) {
        Ok((n, op)) => Ok((n, spec_instr_kind(op))),
        Err(e) => Err(e),
    }
}

/// An opcode's kind is the prefix of its encoding: none for a single byte, and `0xFC`, `0xFD`
/// (the vector instructions) or `0xFE` (the atomic instructions) otherwise; the kind holds the
/// opcode it was made from.
pub proof fn lemma_instr_kind_prefix(op: Opcode)
    ensures
        spec_kind_opcode(spec_instr_kind(op)) == op,
        spec_encoding(op) is Byte ==> spec_instr_kind(op) == InstrKind::Byte(op),
        spec_encoding(op) matches Encoding::Prefixed { prefix, .. } ==> (prefix == 0xFC ==> spec_instr_kind(op) == InstrKind::FCPrefixed(op)),
        spec_encoding(op) matches Encoding::Prefixed { prefix, .. } ==> (prefix == 0xFD ==> spec_instr_kind(op) == InstrKind::V128(op)),
        spec_encoding(op) matches Encoding::Prefixed { prefix, .. } ==> (prefix == 0xFE ==> spec_instr_kind(op) == InstrKind::FEPrefixed(op)),
{
}

impl InstrKind {
    /// The kind of the given opcode.
    pub fn of(op: Opcode) -> (r: InstrKind)
        ensures
            r == spec_instr_kind(op),
    {
        match op.encoding() {
            Encoding::Byte(_) => InstrKind::Byte(op),
            Encoding::Prefixed { prefix, .. } => if prefix == 0xFC {
                InstrKind::FCPrefixed(op)
            } else if prefix == 0xFD {
                InstrKind::V128(op)
            } else {
                InstrKind::FEPrefixed(op)
            },
        }
    }

    /// Parses a WebAssembly instruction *opcode*.
    ///
    /// Fails if the *opcode* bytes could not be parsed, or if the *opcode* was not recognized.
    pub fn parse<'a, E: ErrorSource<'a>>(input: &'a [u8]) -> (res: Parsed<'a, InstrKind, E>)
        ensures
            agrees(input@, res, spec_parse_instr_kind(input@)),
    {
        match Opcode::parse(input) {
            Ok((rest, op)) => Ok((rest, InstrKind::of(op))),
            Err(e) => Err(e),
        }
    }

    /// Gets the opcode of the instruction.
    pub fn opcode(self) -> (r: Opcode)
        ensures
            r == spec_kind_opcode(self),
    {
        match self {
            InstrKind::Byte(op) | InstrKind::FCPrefixed(op) | InstrKind::V128(op) | InstrKind::FEPrefixed(op) => op,
        }
    }

    /// Gets the name of the WebAssembly instruction that this opcode corresponds to, in the
    /// WebAssembly text format.
    pub fn name(self) -> (r: &'static str)
        ensures
            r@ == spec_name(spec_kind_opcode(self)),
    {
        self.opcode().name()
    }
}

} // verus!
