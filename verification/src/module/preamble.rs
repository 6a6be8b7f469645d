//! Parsing of the [module preamble], which marks the start of a WebAssembly module: the 4-byte
//! **`magic`** number followed by the 4-byte **`version`** field.
//!
//! [module preamble]: https://webassembly.github.io/spec/core/binary/modules.html#binary-module

use vstd::prelude::*;

use crate::error::{agrees, group_skip, Error, ErrorCause, ErrorSource, Outcome, Parsed};
use crate::values::{le_value, fixed_le};

verus! {

broadcast use group_skip;

/// The 4-byte **`magic`** number, `"\0asm"`, placed at the start of the preamble.
pub open spec fn spec_magic_bytes() -> Seq<u8> {
    seq![0x00u8, 0x61u8, 0x73u8, 0x6Du8]
}

/// The version of the binary format that is recognized: `1`, as a little-endian 32-bit integer.
pub open spec fn spec_version_bytes() -> Seq<u8> {
    seq![0x01u8, 0x00u8, 0x00u8, 0x00u8]
}

/// Error type used when the WebAssembly **`magic`** number could not be parsed, holding the (at
/// most four) bytes found in its place.
#[derive(Clone, Copy, Debug, PartialEq, Eq)]
pub struct InvalidMagic {
    contents: [u8; 4],
    length: u8,
}

impl View for InvalidMagic {
    type V = Seq<u8>;

    /// The bytes found in place of the magic number.
    closed spec fn view(&self) -> Seq<u8> {
        self.contents@.take(self.length as int)
    }
}

/// The error describing `input` found in place of the magic number: its first four bytes, or all
/// of it when shorter.
pub open spec fn spec_invalid_magic(input: Seq<u8>) -> Seq<u8> {
    if input.len() < 4 { input } else { input.take(4) }
}

/// The `i`-th of the first `n` bytes of `s`, or `0` past them.
pub open spec fn byte_or_zero(s: Seq<u8>, i: int, n: int) -> u8 {
    if i < n { s[i] } else { 0 }
}

/// The error that [`magic`] reports for `s`.
pub closed spec fn spec_invalid_magic_value(s: Seq<u8>) -> InvalidMagic {
    let n: int = if s.len() < 4 { s.len() as int } else { 4 };
    InvalidMagic {
        contents: [byte_or_zero(s, 0, n), byte_or_zero(s, 1, n), byte_or_zero(s, 2, n), byte_or_zero(s, 3, n)],
        length: n as u8,
    }
}

/// The error that [`magic`] reports for `s` holds the bytes found at its start.
pub proof fn lemma_invalid_magic_value(s: Seq<u8>)
    ensures
        spec_invalid_magic_value(s)@ == spec_invalid_magic(s),
{
    let m = spec_invalid_magic_value(s);
    assert(m@ =~= spec_invalid_magic(s));
}

impl InvalidMagic {
    #[verifier::type_invariant]
    closed spec fn inv(self) -> bool {
        self.length <= 4
    }

    fn new(input: &[u8]) -> (r: Self)
        ensures
            r == spec_invalid_magic_value(input@),
    {
        let n: usize = if input.len() < 4 { input.len() } else { 4 };
        let b0: u8 = if 0 < n { input[0] } else { 0 };
        let b1: u8 = if 1 < n { input[1] } else { 0 };
        let b2: u8 = if 2 < n { input[2] } else { 0 };
        let b3: u8 = if 3 < n { input[3] } else { 0 };
        InvalidMagic { contents: [b0, b1, b2, b3], length: n as u8 }
    }

    /// Gets the bytes found in place of the **`magic`** field.
    pub fn value(&self) -> (r: &[u8])
        ensures
            r@ == self@,
    {
        proof {
            use_type_invariant(self);
        }
        let (v, _) = self.contents.as_slice().split_at(self.length as usize);
        v
    }
}

/// The meaning of [`magic`].
pub open spec fn spec_magic(s: Seq<u8>) -> Outcome<()> {
    if s.len() >= 4 && s.take(4) == spec_magic_bytes() {
        Ok((4, ()))
    } else {
        Err((0, ErrorCause::PreambleMagic(spec_invalid_magic_value(s))))
    }
}

/// Whatever the input, reading the magic number either succeeds or fails at the start of the
/// input with an [`InvalidMagic`] whose value is the bytes found there: the first four bytes of
/// the input, or all of it when it is shorter.
pub proof fn lemma_magic_error_value(s: Seq<u8>)
    ensures
        spec_magic(s) is Err ==> (spec_magic(s) matches Err((at, ErrorCause::PreambleMagic(m))) && at == 0
            && m@ == (if s.len() < 4 { s } else { s.take(4) })),
{
    lemma_invalid_magic_value(s);
}

/// A module starts with the magic bytes `\0asm` followed by the version `1` as four
/// little-endian bytes: that preamble is read, whatever follows it, and the magic bytes followed
/// by any other four bytes are a version that is not recognized.
pub proof fn lemma_preamble_bytes(s: Seq<u8>, v: Seq<u8>)
    requires
        v.len() == 4,
    ensures
        spec_preamble(seq![0x00u8, 0x61u8, 0x73u8, 0x6Du8, 0x01u8, 0x00u8, 0x00u8, 0x00u8] + s) == Outcome::<()>::Ok((8, ())),
        v != seq![0x01u8, 0x00u8, 0x00u8, 0x00u8] ==> spec_preamble(seq![0x00u8, 0x61u8, 0x73u8, 0x6Du8] + v + s) is Err,
{
    let t = seq![0x00u8, 0x61u8, 0x73u8, 0x6Du8, 0x01u8, 0x00u8, 0x00u8, 0x00u8] + s;
    assert(t.take(4) =~= spec_magic_bytes());
    assert(t.skip(4).take(4) =~= spec_version_bytes());
    let u = seq![0x00u8, 0x61u8, 0x73u8, 0x6Du8] + v + s;
    assert(u.take(4) =~= spec_magic_bytes());
    assert(u.skip(4).take(4) =~= v);
}

fn starts_with(input: &[u8], expected: &[u8]) -> (r: bool)
    ensures
        r == (expected@.len() <= input@.len() && input@.take(expected@.len() as int) == expected@),
{
    if expected.len() > input.len() {
        return false;
    }
    let mut i: usize = 0;
    while i < expected.len()
        invariant
            expected@.len() <= input@.len(),
            i <= expected@.len(),
            forall|j: int| 0 <= j < i ==> input@[j] == expected@[j],
        decreases expected.len() - i,
    {
        if input[i] != expected[i] {
            assert(input@.take(expected@.len() as int)[i as int] != expected@[i as int]);
            return false;
        }
        i = i + 1;
    }
    assert(input@.take(expected@.len() as int) =~= expected@);
    true
}

/// Parses the WebAssembly **`magic`** number, indicating the start of a WebAssembly binary format
/// module.
pub fn magic<'a, E: ErrorSource<'a>>(input: &'a [u8]) -> (res: Parsed<'a, (), E>)
    ensures
        agrees(input@, res, spec_magic(input@)),
        res matches Err(e) ==> e.spec_cause() matches ErrorCause::PreambleMagic(m) && m@ == spec_invalid_magic(input@),
{
    let expected: [u8; 4] = [0x00, 0x61, 0x73, 0x6D];
    assert(expected@ =~= spec_magic_bytes());
    if starts_with(input, expected.as_slice()) {
        let (_, rest) = input.split_at(4);
        Ok((rest, ()))
    } else {
        let m = InvalidMagic::new(input);
        proof {
            lemma_invalid_magic_value(input@);
        }
        Err(E::from_error_cause(input, ErrorCause::PreambleMagic(m)))
    }
}

/// The meaning of [`parse`]: the magic number followed by the recognized version.
pub open spec fn spec_preamble(s: Seq<u8>) -> Outcome<()> {
    match spec_magic(s) {
        Err(e) => Err(e),
        Ok(_) => {
            let r = s.skip(4);
            if r.len() >= 4 && r.take(4) == spec_version_bytes() {
                Ok((8, ()))
            } else {
                Err((4, ErrorCause::PreambleVersion(
                    if r.len() >= 4 { Some(le_value(r.take(4)) as u32) } else { None },
                )))
            }
        },
    }
}

/// Parses a module preamble, checking that the contents of its **`version`** field matches the
/// recognized version, `1`.
///
/// To handle different version values, use [`parse_any()`].
pub fn parse<'a, E: ErrorSource<'a>>(input: &'a [u8]) -> (res: Parsed<'a, (), E>)
    ensures
        agrees(input@, res, spec_preamble(input@)),
{
    let (rest, ()) = match magic(input) {
        Ok(x) => x,
        Err(e) => return Err(e),
    };
    let expected: [u8; 4] = [0x01, 0x00, 0x00, 0x00];
    assert(expected@ =~= spec_version_bytes());
    if starts_with(rest, expected.as_slice()) {
        let (_, after) = rest.split_at(4);
        Ok((after, ()))
    } else {
        let version: Option<u32> = match fixed_le(rest, 4) {
            Some((_, v)) => {
                proof {
                    crate::values::lemma_le_value_bound(rest@.subrange(0, 4));
                    reveal_with_fuel(crate::values::byte_power, 5);
                    assert(rest@.subrange(0, 4) == rest@.take(4));
                }
                Some(v as u32)
            },
            None => None,
        };
        Err(E::from_error_cause(rest, ErrorCause::PreambleVersion(version)))
    }
}

/// The meaning of [`parse_any`]: the magic number followed by any four version bytes.
pub open spec fn spec_preamble_any(s: Seq<u8>) -> Outcome<Seq<u8>> {
    match spec_magic(s) {
        Err(e) => Err(e),
        Ok(_) => if s.len() >= 8 {
            Ok((8, s.subrange(4, 8)))
        } else {
            Err((4, ErrorCause::PreambleVersion(None)))
        },
    }
}

/// Parses a module preamble, returning the contents of its **`version`** field.
///
/// If you don't want to handle special version values, use [`parse()`] instead.
pub fn parse_any<'a, E: ErrorSource<'a>>(input: &'a [u8]) -> (res: Parsed<'a, [u8; 4], E>)
    ensures
        agrees(input@, res, spec_preamble_any(input@)),
{
    let (rest, ()) = match magic(input) {
        Ok(x) => x,
        Err(e) => return Err(e),
    };
    if rest.len() >= 4 {
        let version: [u8; 4] = [rest[0], rest[1], rest[2], rest[3]];
        assert(version@ =~= input@.subrange(4, 8));
        let (_, after) = rest.split_at(4);
        Ok((after, version))
    } else {
        Err(E::from_error_cause(rest, ErrorCause::PreambleVersion(None)))
    }
}

} // verus!
