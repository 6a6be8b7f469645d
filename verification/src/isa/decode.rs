//! Parsing of instruction opcodes.

use vstd::prelude::*;

use crate::error::{agrees, group_skip, shift, ErrorCause, ErrorSource, Outcome, Parsed};
use crate::isa::invalid::InvalidOpcode;
use crate::isa::opcode::{byte_opcode, is_prefix, prefixed_opcode, spec_byte_opcode, spec_prefixed_opcode, Opcode};
use crate::leb128::{leb128_u32, lemma_leb128_round_trips, spec_leb128_u32, unsigned_encoding};

verus! {

broadcast use group_skip;

/// The meaning of [`Opcode::parse`]: a prefix byte followed by a *LEB128* code, or a single
/// byte.
pub open spec fn spec_opcode(s: Seq<u8>) -> Outcome<Opcode> {
    if s.len() == 0 {
        Err((0, ErrorCause::Opcode(InvalidOpcode::Missing)))
    } else if is_prefix(s[0]) {
        match shift(1, spec_leb128_u32(s.skip(1))) {
            Err(e) => Err(e),
            Ok((n, code)) => match spec_prefixed_opcode(s[0], code) {
                Some(op) => Ok((n, op)),
                None => Err((0, ErrorCause::Opcode(InvalidOpcode::Prefixed { prefix: s[0], secondary: code }))),
            },
        }
    } else {
        match spec_byte_opcode(s[0]) {
            Some(op) => Ok((1, op)),
            None => Err((0, ErrorCause::Opcode(InvalidOpcode::Byte(s[0])))),
        }
    }
}

/// An opcode is a single byte, or one of the prefix bytes `0xFC`, `0xFD` and `0xFE` followed by
/// a code written as a *LEB128* `u32`: reading an opcode written either way, whatever follows it,
/// gives back the opcode that the byte, or the prefix and code, stand for, and reads exactly its
/// bytes.
pub proof fn lemma_opcode_layout(b: u8, code: u32, s: Seq<u8>)
    ensures
        is_prefix(b) <==> (b == 0xFC || b == 0xFD || b == 0xFE),
        !is_prefix(b) ==> spec_opcode(seq![b] + s) == match spec_byte_opcode(b) {
            Some(op) => Outcome::<Opcode>::Ok((1, op)),
            None => Outcome::<Opcode>::Err((0, ErrorCause::Opcode(InvalidOpcode::Byte(b)))),
        },
        is_prefix(b) ==> spec_opcode(seq![b] + unsigned_encoding(code as nat) + s) == match spec_prefixed_opcode(b, code) {
            Some(op) => Outcome::<Opcode>::Ok((1 + unsigned_encoding(code as nat).len(), op)),
            None => Outcome::<Opcode>::Err((0, ErrorCause::Opcode(InvalidOpcode::Prefixed { prefix: b, secondary: code }))),
        },
{
    let t = seq![b] + s;
    assert(t[0] == b);
    let e = unsigned_encoding(code as nat);
    let u = seq![b] + e + s;
    assert(u[0] == b);
    assert(u.skip(1) =~= e + s);
    lemma_leb128_round_trips(s, code, 0, 0, 0);
}

/// A parsed opcode takes at least one byte.
pub proof fn lemma_opcode_progress(s: Seq<u8>)
    ensures
        spec_opcode(s) matches Ok((n, _)) ==> 1 <= n <= s.len(),
{
    if s.len() > 0 && is_prefix(s[0]) {
        crate::leb128::lemma_unsigned_bounds(s.skip(1), 32);
    }
}

impl Opcode {
    /// Parses a WebAssembly instruction *opcode*.
    ///
    /// Fails if the *opcode* bytes could not be parsed, or if the *opcode* was not recognized.
    pub fn parse<'a, E: ErrorSource<'a>>(input: &'a [u8]) -> (res: Parsed<'a, Opcode, E>)
        ensures
            agrees(input@, res, spec_opcode(input@)),
    {
        if input.len() == 0 {
            return Err(E::from_error_cause(input, ErrorCause::Opcode(InvalidOpcode::Missing)));
        }
        let prefix: u8 = input[0];
        let (_, rest) = input.split_at(1);
        if prefix == 0xFC || prefix == 0xFD || prefix == 0xFE {
            let (rest, code) = match leb128_u32(rest) {
                Ok(x) => x,
                Err(e) => return Err(
                    E::append_with_cause(rest, ErrorCause::Opcode(InvalidOpcode::missing_actual(prefix)), e),
                ),
            };
            match prefixed_opcode(prefix, code) {
                Some(op) => Ok((rest, op)),
                None => Err(E::from_error_cause(input, ErrorCause::Opcode(InvalidOpcode::new(prefix, Some(code))))),
            }
        } else {
            match byte_opcode(prefix) {
                Some(op) => Ok((rest, op)),
                None => Err(E::from_error_cause(input, ErrorCause::Opcode(InvalidOpcode::new(prefix, None)))),
            }
        }
    }
}

} // verus!
