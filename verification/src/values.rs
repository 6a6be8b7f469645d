//! Parsers for values of the binary format: [names], vector lengths, and fixed-width constants.
//!
//! [names]: https://webassembly.github.io/spec/core/binary/values.html#names

use vstd::prelude::*;
use vstd::utf8::{valid_utf8, decode_utf8, encode_utf8_decode_utf8};
use vstd::string::StringSliceAdditionalSpecFns;

use crate::error::{agrees, group_skip, ErrorCause, ErrorSource, LengthMismatch, Outcome, Parsed};
use crate::leb128::{leb128_u32, lemma_leb128_round_trips, spec_leb128_u32, unsigned_encoding};

verus! {

broadcast use group_skip;

/// The error that UTF-8 decoding of `bytes` reports.
pub uninterp spec fn utf8_error_of(bytes: Seq<u8>) -> core::str::Utf8Error;

/// Decodes UTF-8 with `core::str::from_utf8`: it gives back the string slice over exactly the
/// same bytes when they are valid UTF-8, and otherwise its error, which depends on the bytes
/// alone.
#[verifier::external_body]
fn str_from_utf8<'a>(bytes: &'a [u8]) -> (r: Result<&'a str, core::str::Utf8Error>)
    ensures
        r is Ok <==> valid_utf8(bytes@),
        r matches Ok(s) ==> s.spec_bytes() == bytes@,
        r matches Err(e) ==> e == utf8_error_of(bytes@),
{
    core::str::from_utf8(bytes)
}

/// `n` as a 32-bit count, saturating at `u32::MAX`.
pub open spec fn saturate_u32(n: nat) -> u32 {
    if n <= u32::MAX { n as u32 } else { u32::MAX }
}

/// The meaning of [`name`]: a *LEB128* length followed by that many bytes of UTF-8.
pub open spec fn spec_name(s: Seq<u8>) -> Outcome<Seq<char>> {
    match spec_leb128_u32(s) {
        Err(e) => Err(e),
        Ok((n, len)) => if n + len <= s.len() {
            let bytes = s.subrange(n as int, n + len);
            if valid_utf8(bytes) {
                Ok(((n + len) as nat, decode_utf8(bytes)))
            } else {
                Err((n, ErrorCause::NameEncoding(utf8_error_of(bytes))))
            }
        } else {
            Err((n, ErrorCause::NameContents(LengthMismatch {
                expected: len,
                actual: saturate_u32((s.len() - n) as nat),
            })))
        },
    }
}

/// A name is the number of its bytes as a *LEB128* `u32`, then those bytes, which hold its text in
/// UTF-8: reading a name written that way, whatever follows it, gives back the text, and reads
/// exactly those bytes; bytes that are not UTF-8 are an encoding error just after the length.
pub proof fn lemma_name_layout(bytes: Seq<u8>, s: Seq<u8>)
    requires
        bytes.len() <= u32::MAX,
    ensures
        valid_utf8(bytes) ==> spec_name(unsigned_encoding(bytes.len()) + bytes + s) == Outcome::<Seq<char>>::Ok(
            ((unsigned_encoding(bytes.len()).len() + bytes.len()) as nat, decode_utf8(bytes))),
        !valid_utf8(bytes) ==> (spec_name(unsigned_encoding(bytes.len()) + bytes + s) matches Err((at, ErrorCause::NameEncoding(_)))
            && at == unsigned_encoding(bytes.len()).len()),
{
    let e = unsigned_encoding(bytes.len());
    let t = e + bytes + s;
    lemma_leb128_round_trips(bytes + s, bytes.len() as u32, 0, 0, 0);
    assert(t =~= e + (bytes + s));
    assert(t.subrange(e.len() as int, (e.len() + bytes.len()) as int) =~= bytes);
}

/// Parses a [WebAssembly name](https://webassembly.github.io/spec/core/binary/values.html#names).
pub fn name<'a, E: ErrorSource<'a>>(input: &'a [u8]) -> (res: Parsed<'a, &'a str, E>)
    ensures
        agrees(input@, res, spec_name(input@)),
{
    let (rest, len) = match leb128_u32(input) {
        Ok(x) => x,
        Err(e) => return Err(e),
    };
    let ghost n: nat = (input@.len() - rest@.len()) as nat;
    if (len as usize) <= rest.len() {
        let (bytes, after) = rest.split_at(len as usize);
        assert(bytes@ == input@.subrange(n as int, n + len));
        match str_from_utf8(bytes) {
            Ok(s) => {
                proof {
                    encode_utf8_decode_utf8(s@);
                }
                Ok((after, s))
            },
            Err(e) => Err(E::from_error_cause(rest, ErrorCause::NameEncoding(e))),
        }
    } else {
        let actual: u32 = if rest.len() <= u32::MAX as usize { rest.len() as u32 } else { u32::MAX };
        Err(E::from_error_cause(rest, ErrorCause::NameContents(LengthMismatch { expected: len, actual })))
    }
}

/// The meaning of [`vector_length`].
pub open spec fn spec_vector_length(s: Seq<u8>) -> Outcome<u32> {
    spec_leb128_u32(s)
}

/// Parses the *LEB128* encoded unsigned 32-bit length of a [vector].
///
/// [vector]: https://webassembly.github.io/spec/core/binary/conventions.html#vectors
pub fn vector_length<'a, E: ErrorSource<'a>>(input: &'a [u8]) -> (res: Parsed<'a, u32, E>)
    ensures
        agrees(input@, res, spec_vector_length(input@)),
{
    leb128_u32(input)
}

/// The little-endian value of `bytes`.
pub open spec fn le_value(bytes: Seq<u8>) -> nat
    decreases bytes.len(),
{
    if bytes.len() == 0 {
        0
    } else {
        (bytes[0] + 256 * le_value(bytes.drop_first())) as nat
    }
}

/// Little-endian: the value of bytes followed by more bytes is the value of the first ones plus
/// the value of the rest, scaled by `256` for each byte before it; a single byte is its own value.
pub proof fn lemma_le_value_concat(x: Seq<u8>, y: Seq<u8>)
    ensures
        le_value(x + y) == le_value(x) + byte_power(x.len()) * le_value(y),
    decreases x.len(),
{
    if x.len() > 0 {
        lemma_le_value_concat(x.drop_first(), y);
        assert((x + y).drop_first() =~= x.drop_first() + y);
        assert((x + y)[0] == x[0]);
        let a = le_value(x.drop_first());
        let b = byte_power(x.drop_first().len());
        let c = le_value(y);
        assert(le_value(x.drop_first() + y) == a + b * c);
        assert(le_value(x + y) == x[0] + 256 * (a + b * c));
        assert(le_value(x) == x[0] + 256 * a);
        assert(byte_power(x.len()) == 256 * b);
        assert(256 * (a + b * c) == 256 * a + (256 * b) * c) by (nonlinear_arith);
    } else {
        assert(x + y =~= y);
        assert(byte_power(0) == 1);
        assert(1 * le_value(y) == le_value(y));
    }
}

/// The value of four bytes, least significant first, as a fixed-width 32-bit constant is read.
pub proof fn lemma_le_value_four(a: u8, b: u8, c: u8, d: u8)
    ensures
        le_value(seq![a, b, c, d]) == a + 0x100 * b + 0x1_0000 * c + 0x100_0000 * d,
{
    let s = seq![a, b, c, d];
    reveal_with_fuel(le_value, 5);
    assert(s.drop_first() =~= seq![b, c, d]);
    assert(seq![b, c, d].drop_first() =~= seq![c, d]);
    assert(seq![c, d].drop_first() =~= seq![d]);
    assert(seq![d].drop_first() =~= Seq::<u8>::empty());
}

/// `256` raised to the power `k`.
pub open spec fn byte_power(k: nat) -> nat
    decreases k,
{
    if k == 0 {
        1
    } else {
        256 * byte_power((k - 1) as nat)
    }
}

/// The little-endian value of a sequence of bytes is below `256` to the power of its length.
pub proof fn lemma_le_value_bound(bytes: Seq<u8>)
    ensures
        le_value(bytes) < byte_power(bytes.len()),
    decreases bytes.len(),
{
    if bytes.len() > 0 {
        lemma_le_value_bound(bytes.drop_first());
        let p = byte_power((bytes.len() - 1) as nat);
        let v = le_value(bytes.drop_first());
        assert(bytes[0] + 256 * v < 256 * p) by (nonlinear_arith)
            requires v < p, bytes[0] < 256;
    }
}

/// Powers of `256` grow with the exponent, up to `2^64` for eight bytes.
proof fn lemma_byte_power_le_8(k: nat)
    requires
        k <= 8,
    ensures
        byte_power(k) <= 0x1_0000_0000_0000_0000,
{
    reveal_with_fuel(byte_power, 9);
}

/// Reads the little-endian value of the `n` bytes at the start of `s`.
fn read_le(s: &[u8], n: usize) -> (r: u64)
    requires
        n <= s@.len(),
        n <= 8,
    ensures
        r == le_value(s@.subrange(0, n as int)),
{
    let mut i: usize = n;
    let mut v: u64 = 0;
    while i > 0
        invariant
            i <= n <= s@.len(),
            n <= 8,
            v == le_value(s@.subrange(i as int, n as int)),
        decreases i,
    {
        let ghost tail = s@.subrange(i as int, n as int);
        i = i - 1;
        proof {
            let part = s@.subrange(i as int, n as int);
            assert(part.drop_first() =~= tail);
            lemma_le_value_bound(part);
            lemma_byte_power_le_8(part.len());
        }
        v = (s[i] as u64) + 256 * v;
    }
    v
}

/// The meaning of [`fixed_le`]: `n` bytes read as a little-endian number.
pub open spec fn spec_fixed_le(s: Seq<u8>, n: nat) -> Option<(nat, nat)> {
    if n <= s.len() {
        Some((n, le_value(s.subrange(0, n as int))))
    } else {
        None
    }
}

/// Reads `n` bytes as a little-endian number, giving the input after them; `None` if fewer than
/// `n` bytes remain.
pub fn fixed_le<'a>(input: &'a [u8], n: usize) -> (r: Option<(&'a [u8], u64)>)
    requires
        n <= 8,
    ensures
        match spec_fixed_le(input@, n as nat) {
            Some((k, v)) => r matches Some((rest, w)) && rest@ == input@.skip(k as int) && w == v,
            None => r is None,
        },
{
    if n <= input.len() {
        let v: u64 = read_le(input, n);
        let (_, rest) = input.split_at(n);
        Some((rest, v))
    } else {
        None
    }
}

/// The bits of a 32-bit floating-point constant, in little-endian order in the binary format.
#[derive(Clone, Copy, Debug, PartialEq, Eq, Hash)]
pub struct F32 {
    pub bits: u32,
}

/// The bits of a 64-bit floating-point constant, in little-endian order in the binary format.
#[derive(Clone, Copy, Debug, PartialEq, Eq, Hash)]
pub struct F64 {
    pub bits: u64,
}

/// A 128-bit vector constant, as its sixteen bytes in the order of the binary format.
#[derive(Clone, Copy, Debug, PartialEq, Eq, Hash)]
pub struct V128 {
    pub bytes: [u8; 16],
}

/// The sixteen lane indices of an `i8x16.shuffle` instruction.
#[derive(Clone, Copy, Debug, PartialEq, Eq, Hash)]
pub struct V128ShuffleLanes {
    pub lanes: [u8; 16],
}

/// Copies the first sixteen bytes of `input`, giving back the input after them; `None` if fewer
/// than sixteen bytes remain.
pub fn take16<'a>(input: &'a [u8]) -> (r: Option<(&'a [u8], [u8; 16])>)
    ensures
        input@.len() >= 16 ==> (r matches Some((rest, a)) && rest@ == input@.skip(16) && a@ == input@.take(16)),
        input@.len() < 16 ==> r is None,
{
    if input.len() < 16 {
        return None;
    }
    let mut a: [u8; 16] = [0u8; 16];
    let mut i: usize = 0;
    while i < 16
        invariant
            input@.len() >= 16,
            i <= 16,
            a@.len() == 16,
            forall|j: int| 0 <= j < i ==> a@[j] == input@[j],
        decreases 16 - i,
    {
        a[i] = input[i];
        i = i + 1;
    }
    assert(a@ =~= input@.take(16));
    let (_, rest) = input.split_at(16);
    Some((rest, a))
}

} // verus!
