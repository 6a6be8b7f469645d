//! Decoding of integers in the
//! [*LEB128* format](https://webassembly.github.io/spec/core/binary/values.html#integers).
//!
//! The specification functions follow the grammar of the WebAssembly binary format: an `N`-bit
//! integer is encoded in at most `ceil(N / 7)` bytes, each byte carrying 7 value bits with the
//! high bit marking that more bytes follow, and the final byte may not carry bits that would not
//! fit in `N` bits.

use vstd::prelude::*;
use vstd::arithmetic::power2::{pow2, lemma2_to64, lemma2_to64_rest, lemma_pow2_adds, lemma_pow2_pos};

use crate::error::{agrees, ErrorCause, ErrorSource, Outcome, Parsed};

verus! {

/// Represents the target type for a particular *LEB128* encoded integer value.
#[derive(Clone, Copy, Debug, PartialEq, Eq)]
#[non_exhaustive]
pub enum Destination {
    U32,
    S32,
    U64,
    S64,
}

/// Describes why a *LEB128* integer count not be decoded.
#[derive(Clone, Copy, Debug, PartialEq, Eq)]
#[non_exhaustive]
pub enum InvalidEncoding {
    /// The encoded value would result in an overflow when converted to the target type.
    Overflow,
    /// More bytes containing value bits were expected.
    NoContinuation,
}

/// Decodes an unsigned integer of `bits` bits from the start of `s`, giving the number of bytes
/// read and the value.
pub open spec fn spec_unsigned(s: Seq<u8>, bits: nat) -> Result<(nat, nat), InvalidEncoding>
    decreases s.len(),
{
    if s.len() == 0 {
        Err(InvalidEncoding::NoContinuation)
    } else if bits <= 7 {
        if (s[0] as nat) < pow2(bits) {
            Ok((1, s[0] as nat))
        } else {
            Err(InvalidEncoding::Overflow)
        }
    } else if s[0] < 128 {
        Ok((1, s[0] as nat))
    } else {
        match spec_unsigned(s.drop_first(), (bits - 7) as nat) {
            Ok((n, v)) => Ok((n + 1, ((s[0] - 128) + 128 * v) as nat)),
            Err(e) => Err(e),
        }
    }
}

/// Decodes a signed (two's complement) integer of `bits` bits from the start of `s`, giving the
/// number of bytes read and the value.
pub open spec fn spec_signed(s: Seq<u8>, bits: nat) -> Result<(nat, int), InvalidEncoding>
    decreases s.len(),
{
    if s.len() == 0 {
        Err(InvalidEncoding::NoContinuation)
    } else if s[0] < 128 {
        let v: int = if s[0] < 64 { s[0] as int } else { s[0] - 128 };
        if bits >= 1 && -pow2((bits - 1) as nat) <= v < pow2((bits - 1) as nat) {
            Ok((1, v))
        } else {
            Err(InvalidEncoding::Overflow)
        }
    } else if bits <= 7 {
        Err(InvalidEncoding::Overflow)
    } else {
        match spec_signed(s.drop_first(), (bits - 7) as nat) {
            Ok((n, m)) => Ok((n + 1, 128 * m + (s[0] - 128))),
            Err(e) => Err(e),
        }
    }
}

/// The number of bytes that may encode an integer of `bits` bits.
pub open spec fn max_width(bits: nat) -> nat {
    ((bits + 6) / 7) as nat
}

/// A decoded unsigned value fits in `bits` bits, and at most `max_width(bits)` bytes were read.
pub proof fn lemma_unsigned_bounds(s: Seq<u8>, bits: nat)
    requires
        bits >= 1,
    ensures
        spec_unsigned(s, bits) matches Ok((n, v)) ==> 1 <= n <= s.len() && n <= max_width(bits)
            && v < pow2(bits),
    decreases s.len(),
{
    if s.len() > 0 {
        if bits <= 7 {
        } else if s[0] < 128 {
            lemma2_to64();
            lemma_pow2_adds(7, (bits - 7) as nat);
            lemma_pow2_pos((bits - 7) as nat);
        } else {
            lemma_unsigned_bounds(s.drop_first(), (bits - 7) as nat);
            if let Ok((n, v)) = spec_unsigned(s.drop_first(), (bits - 7) as nat) {
                lemma2_to64();
                lemma_pow2_adds(7, (bits - 7) as nat);
                let p = pow2((bits - 7) as nat);
                assert(128 * v + 127 < 128 * p) by (nonlinear_arith)
                    requires v < p;
            }
        }
    }
}

/// A decoded signed value fits in `bits` bits, and at most `max_width(bits)` bytes were read.
pub proof fn lemma_signed_bounds(s: Seq<u8>, bits: nat)
    requires
        bits >= 1,
    ensures
        spec_signed(s, bits) matches Ok((n, v)) ==> 1 <= n <= s.len() && n <= max_width(bits)
            && bits >= 1 && -pow2((bits - 1) as nat) <= v < pow2((bits - 1) as nat),
    decreases s.len(),
{
    if s.len() > 0 {
        if s[0] < 128 {
        } else if bits <= 7 {
        } else {
            lemma_signed_bounds(s.drop_first(), (bits - 7) as nat);
            if let Ok((n, m)) = spec_signed(s.drop_first(), (bits - 7) as nat) {
                lemma2_to64();
                lemma_pow2_adds(7, (bits - 8) as nat);
                let p = pow2((bits - 8) as nat);
                assert(-(128 * p) <= 128 * m + (s[0] - 128) < 128 * p) by (nonlinear_arith)
                    requires -p <= m < p, 0 <= s[0] - 128 < 128;
            }
        }
    }
}

/// `2` raised to a power of at most `7`.
fn small_pow2(bits: u32) -> (r: u32)
    requires
        bits <= 7,
    ensures
        r == pow2(bits as nat),
{
    proof {
        lemma2_to64();
    }
    if bits == 0 {
        1
    } else if bits == 1 {
        2
    } else if bits == 2 {
        4
    } else if bits == 3 {
        8
    } else if bits == 4 {
        16
    } else if bits == 5 {
        32
    } else if bits == 6 {
        64
    } else {
        128
    }
}

proof fn lemma_skip_step(s: Seq<u8>, pos: int)
    requires
        0 <= pos < s.len(),
    ensures
        s.skip(pos).drop_first() == s.skip(pos + 1),
        s.skip(pos)[0] == s[pos],
        s.skip(pos).len() == s.len() - pos,
{
    assert(s.skip(pos).drop_first() =~= s.skip(pos + 1));
}

/// Decodes an unsigned integer of `bits` bits starting at `pos`.
fn unsigned_at(s: &[u8], pos: usize, bits: u32) -> (r: Result<(usize, u64), InvalidEncoding>)
    requires
        pos <= s@.len(),
        1 <= bits <= 64,
    ensures
        match spec_unsigned(s@.skip(pos as int), bits as nat) {
            Ok((n, v)) => r == Ok::<(usize, u64), InvalidEncoding>((n as usize, v as u64))
                && n + pos <= s@.len() && v < pow2(bits as nat),
            Err(e) => r == Err::<(usize, u64), InvalidEncoding>(e),
        },
    decreases bits,
{
    let ghost rest = s@.skip(pos as int);
    proof {
        lemma_unsigned_bounds(rest, bits as nat);
        lemma2_to64();
    }
    if pos >= s.len() {
        return Err(InvalidEncoding::NoContinuation);
    }
    proof {
        lemma_skip_step(s@, pos as int);
    }
    let b: u8 = s[pos];
    if bits <= 7 {
        let limit: u32 = small_pow2(bits);
        if (b as u32) < limit {
            Ok((1, b as u64))
        } else {
            Err(InvalidEncoding::Overflow)
        }
    } else if b < 128 {
        Ok((1, b as u64))
    } else {
        match unsigned_at(s, pos + 1, bits - 7) {
            Ok((n, v)) => {
                proof {
                    lemma_pow2_adds(7, (bits - 7) as nat);
                    if bits < 64 {
                        vstd::arithmetic::power2::lemma_pow2_strictly_increases(bits as nat, 64);
                    }
                    let p = pow2((bits - 7) as nat);
                    assert(128 * v + 127 < 128 * p) by (nonlinear_arith)
                        requires v < p;
                }
                Ok((n + 1, ((b - 128) as u64) + 128 * v))
            },
            Err(e) => Err(e),
        }
    }
}

/// The shortest *LEB128* encoding of the unsigned value `v`: its bits seven at a time, least
/// significant first, with the high bit set on every byte but the last.
pub open spec fn unsigned_encoding(v: nat) -> Seq<u8>
    decreases v,
{
    if v < 128 {
        seq![v as u8]
    } else {
        seq![(v % 128 + 128) as u8] + unsigned_encoding(v / 128)
    }
}

/// The shortest *LEB128* encoding of the signed value `v`: its two's complement bits seven at a
/// time, least significant first, with the high bit set on every byte but the last, which also
/// carries the sign in its bit `0x40`.
pub open spec fn signed_encoding(v: int) -> Seq<u8>
    decreases (if v < 0 { -v } else { v }),
{
    if -64 <= v < 64 {
        seq![(v % 128) as u8]
    } else {
        seq![(v % 128 + 128) as u8] + signed_encoding(v / 128)
    }
}

/// Decoding reads back what encoding wrote: the encoding of any value that fits in `bits` bits,
/// whatever follows it, decodes to that value, reading exactly its bytes.
pub proof fn lemma_unsigned_round_trip(v: nat, bits: nat, s: Seq<u8>)
    requires
        bits >= 1,
        v < pow2(bits),
    ensures
        spec_unsigned(unsigned_encoding(v) + s, bits) == Ok::<(nat, nat), InvalidEncoding>((unsigned_encoding(v).len(), v)),
    decreases v,
{
    let e = unsigned_encoding(v);
    let t = e + s;
    lemma2_to64();
    if v < 128 {
        assert(t[0] == v as u8);
    } else {
        assert(t[0] == (v % 128 + 128) as u8);
        if bits <= 7 {
            lemma_pow2_le(bits, 7);
            assert(false);
        }
        lemma_pow2_adds(7, (bits - 7) as nat);
        let p = pow2((bits - 7) as nat);
        assert(v / 128 < p) by (nonlinear_arith)
            requires v < 128 * p;
        assert(v == 128 * (v / 128) + v % 128) by (nonlinear_arith);
        lemma_unsigned_round_trip(v / 128, (bits - 7) as nat, s);
        assert(t.drop_first() =~= unsigned_encoding(v / 128) + s);
    }
}

/// Decoding reads back what encoding wrote: the encoding of any value that fits in `bits` bits as
/// a two's complement number, whatever follows it, decodes to that value, reading exactly its
/// bytes.
pub proof fn lemma_signed_round_trip(v: int, bits: nat, s: Seq<u8>)
    requires
        bits >= 1,
        -pow2((bits - 1) as nat) <= v < pow2((bits - 1) as nat),
    ensures
        spec_signed(signed_encoding(v) + s, bits) == Ok::<(nat, int), InvalidEncoding>((signed_encoding(v).len(), v)),
    decreases (if v < 0 { -v } else { v }),
{
    let e = signed_encoding(v);
    let t = e + s;
    lemma2_to64();
    if -64 <= v < 64 {
        assert(t[0] == (v % 128) as u8);
        if v < 0 {
            assert(v % 128 == v + 128) by (nonlinear_arith)
                requires -64 <= v < 0;
        } else {
            assert(v % 128 == v) by (nonlinear_arith)
                requires 0 <= v < 64;
        }
    } else {
        assert(t[0] == (v % 128 + 128) as u8);
        if bits <= 7 {
            lemma_pow2_le((bits - 1) as nat, 6);
            assert(false);
        }
        lemma_pow2_adds(7, (bits - 8) as nat);
        assert((bits - 1) as nat == 7 + (bits - 8) as nat);
        let p = pow2((bits - 8) as nat);
        assert(-p <= v / 128 < p) by (nonlinear_arith)
            requires -128 * p <= v < 128 * p;
        assert(v == 128 * (v / 128) + v % 128) by (nonlinear_arith);
        assert(0 <= v % 128 < 128) by (nonlinear_arith);
        assert((bits - 7 - 1) as nat == (bits - 8) as nat);
        lemma_signed_round_trip(v / 128, (bits - 7) as nat, s);
        assert(t.drop_first() =~= signed_encoding(v / 128) + s);
    }
}

/// Each fixed-width integer decodes from its *LEB128* encoding to itself, whatever follows it:
/// for every `u32`, `u64`, `i32` and `i64` value.
pub proof fn lemma_leb128_round_trips(s: Seq<u8>, a: u32, b: u64, c: i32, d: i64)
    ensures
        spec_leb128_u32(unsigned_encoding(a as nat) + s) == Outcome::<u32>::Ok((unsigned_encoding(a as nat).len(), a)),
        spec_leb128_u64(unsigned_encoding(b as nat) + s) == Outcome::<u64>::Ok((unsigned_encoding(b as nat).len(), b)),
        spec_leb128_s32(signed_encoding(c as int) + s) == Outcome::<i32>::Ok((signed_encoding(c as int).len(), c)),
        spec_leb128_s64(signed_encoding(d as int) + s) == Outcome::<i64>::Ok((signed_encoding(d as int).len(), d)),
{
    lemma2_to64();
    lemma_unsigned_round_trip(a as nat, 32, s);
    lemma_unsigned_round_trip(b as nat, 64, s);
    lemma_signed_round_trip(c as int, 32, s);
    lemma2_to64_rest();
    assert(pow2(63) == 0x8000_0000_0000_0000);
    assert((64 - 1) as nat == 63);
    lemma_signed_round_trip(d as int, 64, s);
}

/// `pow2` grows with its exponent.
proof fn lemma_pow2_le(a: nat, b: nat)
    requires
        a <= b,
    ensures
        pow2(a) <= pow2(b),
    decreases b - a,
{
    if a < b {
        lemma_pow2_le(a, (b - 1) as nat);
        vstd::arithmetic::power2::lemma_pow2_unfold(b);
    }
}

/// The meaning of [`leb128_u32`].
pub open spec fn spec_leb128_u32(s: Seq<u8>) -> Outcome<u32> {
    match spec_unsigned(s, 32) {
        Ok((n, v)) => Ok((n, v as u32)),
        Err(e) => Err((0, ErrorCause::Leb128 { destination: Destination::U32, reason: e })),
    }
}

/// Parses an at most 5-byte wide *LEB128* encoded unsigned 32-bit integer.
pub fn leb128_u32<'a, E: ErrorSource<'a>>(input: &'a [u8]) -> (res: Parsed<'a, u32, E>)
    ensures
        agrees(input@, res, spec_leb128_u32(input@)),
        res matches Ok((rest, _)) ==> input@.len() - rest@.len() <= 5,
{
    proof {
        assert(input@.skip(0) =~= input@);
        lemma_unsigned_bounds(input@, 32);
        lemma2_to64();
    }
    match unsigned_at(input, 0, 32) {
        Ok((n, v)) => {
            let (_, rest) = input.split_at(n);
            Ok((rest, v as u32))
        },
        Err(e) => Err(E::from_error_cause(input, ErrorCause::Leb128 { destination: Destination::U32, reason: e })),
    }
}


/// Decodes a signed integer of `bits` bits starting at `pos`.
pub(crate) fn signed_at(s: &[u8], pos: usize, bits: u32) -> (r: Result<(usize, i64), InvalidEncoding>)
    requires
        pos <= s@.len(),
        1 <= bits <= 64,
    ensures
        match spec_signed(s@.skip(pos as int), bits as nat) {
            Ok((n, v)) => r == Ok::<(usize, i64), InvalidEncoding>((n as usize, v as i64))
                && n + pos <= s@.len() && -pow2((bits - 1) as nat) <= v < pow2((bits - 1) as nat),
            Err(e) => r == Err::<(usize, i64), InvalidEncoding>(e),
        },
    decreases bits,
{
    let ghost rest = s@.skip(pos as int);
    proof {
        lemma_signed_bounds(rest, bits as nat);
        lemma2_to64();
    }
    if pos >= s.len() {
        return Err(InvalidEncoding::NoContinuation);
    }
    proof {
        lemma_skip_step(s@, pos as int);
    }
    let b: u8 = s[pos];
    if b < 128 {
        let v: i64 = if b < 64 { b as i64 } else { b as i64 - 128 };
        if bits >= 8 {
            proof {
                vstd::arithmetic::power2::lemma_pow2_strictly_increases(6, (bits - 1) as nat);
            }
            Ok((1, v))
        } else {
            let half: u32 = small_pow2(bits - 1);
            if -(half as i64) <= v && v < half as i64 {
                Ok((1, v))
            } else {
                Err(InvalidEncoding::Overflow)
            }
        }
    } else if bits <= 7 {
        Err(InvalidEncoding::Overflow)
    } else {
        match signed_at(s, pos + 1, bits - 7) {
            Ok((n, m)) => {
                proof {
                    lemma_pow2_adds(7, (bits - 8) as nat);
                    if bits < 64 {
                        vstd::arithmetic::power2::lemma_pow2_strictly_increases((bits - 1) as nat, 63);
                    }
                    let p = pow2((bits - 8) as nat);
                    lemma2_to64_rest();
                    assert(128 * p == pow2((bits - 1) as nat));
                    assert(pow2((bits - 1) as nat) <= 0x8000_0000_0000_0000);
                    assert(-(128 * p) <= 128 * m <= 128 * p - 128) by (nonlinear_arith)
                        requires -p <= m < p;
                    assert(-(128 * p) <= 128 * m + (b - 128) < 128 * p);
                }
                let scaled: i64 = 128 * m;
                Ok((n + 1, scaled + ((b - 128) as i64)))
            },
            Err(e) => Err(e),
        }
    }
}

/// The meaning of [`leb128_u64`].
pub open spec fn spec_leb128_u64(s: Seq<u8>) -> Outcome<u64> {
    match spec_unsigned(s, 64) {
        Ok((n, v)) => Ok((n, v as u64)),
        Err(e) => Err((0, ErrorCause::Leb128 { destination: Destination::U64, reason: e })),
    }
}

/// Parses an at most 10-byte wide *LEB128* encoded unsigned 64-bit integer.
pub fn leb128_u64<'a, E: ErrorSource<'a>>(input: &'a [u8]) -> (res: Parsed<'a, u64, E>)
    ensures
        agrees(input@, res, spec_leb128_u64(input@)),
        res matches Ok((rest, _)) ==> input@.len() - rest@.len() <= 10,
{
    proof {
        assert(input@.skip(0) =~= input@);
        lemma_unsigned_bounds(input@, 64);
    }
    match unsigned_at(input, 0, 64) {
        Ok((n, v)) => {
            let (_, rest) = input.split_at(n);
            Ok((rest, v))
        },
        Err(e) => Err(E::from_error_cause(input, ErrorCause::Leb128 { destination: Destination::U64, reason: e })),
    }
}

/// The meaning of [`leb128_s32`].
pub open spec fn spec_leb128_s32(s: Seq<u8>) -> Outcome<i32> {
    match spec_signed(s, 32) {
        Ok((n, v)) => Ok((n, v as i32)),
        Err(e) => Err((0, ErrorCause::Leb128 { destination: Destination::S32, reason: e })),
    }
}

/// Parses an at most 5-byte wide *LEB128* encoded signed 32-bit integer.
pub fn leb128_s32<'a, E: ErrorSource<'a>>(input: &'a [u8]) -> (res: Parsed<'a, i32, E>)
    ensures
        agrees(input@, res, spec_leb128_s32(input@)),
        res matches Ok((rest, _)) ==> input@.len() - rest@.len() <= 5,
{
    proof {
        assert(input@.skip(0) =~= input@);
        lemma_signed_bounds(input@, 32);
        lemma2_to64();
    }
    match signed_at(input, 0, 32) {
        Ok((n, v)) => {
            let (_, rest) = input.split_at(n);
            Ok((rest, v as i32))
        },
        Err(e) => Err(E::from_error_cause(input, ErrorCause::Leb128 { destination: Destination::S32, reason: e })),
    }
}

/// The meaning of [`leb128_s64`].
pub open spec fn spec_leb128_s64(s: Seq<u8>) -> Outcome<i64> {
    match spec_signed(s, 64) {
        Ok((n, v)) => Ok((n, v as i64)),
        Err(e) => Err((0, ErrorCause::Leb128 { destination: Destination::S64, reason: e })),
    }
}

/// Parses an at most 10-byte wide *LEB128* encoded signed 64-bit integer.
pub fn leb128_s64<'a, E: ErrorSource<'a>>(input: &'a [u8]) -> (res: Parsed<'a, i64, E>)
    ensures
        agrees(input@, res, spec_leb128_s64(input@)),
        res matches Ok((rest, _)) ==> input@.len() - rest@.len() <= 10,
{
    proof {
        assert(input@.skip(0) =~= input@);
        lemma_signed_bounds(input@, 64);
    }
    match signed_at(input, 0, 64) {
        Ok((n, v)) => {
            let (_, rest) = input.split_at(n);
            Ok((rest, v))
        },
        Err(e) => Err(E::from_error_cause(input, ErrorCause::Leb128 { destination: Destination::S64, reason: e })),
    }
}

} // verus!
