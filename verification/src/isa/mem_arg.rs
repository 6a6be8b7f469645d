//! Memory arguments of load and store instructions.

use vstd::prelude::*;
use vstd::arithmetic::power2::{pow2, lemma2_to64};

use crate::error::{agrees, group_skip, shift, ErrorCause, ErrorSource, MemArgComponent, Outcome, Parsed};
use crate::index::{spec_mem_idx, MemIdx};
use crate::leb128::{leb128_u32, leb128_u64, lemma_leb128_round_trips, spec_leb128_u32, spec_leb128_u64, unsigned_encoding};

verus! {

broadcast use group_skip;

/// Specifies the alignment for a [`MemArg`].
#[derive(Clone, Copy, Debug, PartialEq, Eq, Hash)]
#[non_exhaustive]
pub enum Align {
    Any,
    Two,
    Four,
    Eight,
    Sixteen,
}

/// The exponent of the power of 2 that an alignment stands for.
pub open spec fn spec_to_power(a: Align) -> u8 {
    match a {
        Align::Any => 0,
        Align::Two => 1,
        Align::Four => 2,
        Align::Eight => 3,
        Align::Sixteen => 4,
    }
}

impl Align {
    /// Creates a new alignment value from an exponent of a power of 2; `None` when the exponent is
    /// larger than `4`.
    pub fn new(power: u8) -> (r: Option<Self>)
        ensures
            r matches Some(a) ==> spec_to_power(a) == power,
            r is None <==> power > 4,
    {
        if power == 0 {
            Some(Self::Any)
        } else if power == 1 {
            Some(Self::Two)
        } else if power == 2 {
            Some(Self::Four)
        } else if power == 3 {
            Some(Self::Eight)
        } else if power == 4 {
            Some(Self::Sixteen)
        } else {
            None
        }
    }

    /// Gets the alignment value, expressed as a number of bytes.
    pub fn in_bytes(self) -> (r: u8)
        ensures
            r == pow2(spec_to_power(self) as nat),
    {
        proof {
            lemma2_to64();
        }
        match self {
            Self::Any => 1,
            Self::Two => 2,
            Self::Four => 4,
            Self::Eight => 8,
            Self::Sixteen => 16,
        }
    }

    /// Gets the alignment value, expressed as the exponent of a power of 2.
    ///
    /// A value of 0 means any alignment, a value of 1 means alignment on a 2-byte boundary, a
    /// value of 2 means alignment on a 4-byte boundary, and so on.
    pub fn to_power(self) -> (r: u8)
        ensures
            r == spec_to_power(self),
            r <= 4,
    {
        match self {
            Self::Any => 0,
            Self::Two => 1,
            Self::Four => 2,
            Self::Eight => 3,
            Self::Sixteen => 4,
        }
    }
}

/// An alignment is determined by its exponent: two alignments with the same exponent are the same.
pub proof fn lemma_align_power_injective(a: Align, b: Align)
    ensures
        spec_to_power(a) == spec_to_power(b) ==> a == b,
{
}

/// The alignment that an exponent stands for, if it is at most `4`.
pub open spec fn spec_align(power: int) -> Option<Align> {
    if power == 0 {
        Some(Align::Any)
    } else if power == 1 {
        Some(Align::Two)
    } else if power == 2 {
        Some(Align::Four)
    } else if power == 3 {
        Some(Align::Eight)
    } else if power == 4 {
        Some(Align::Sixteen)
    } else {
        None
    }
}

/// A WebAssembly [**`memarg`**] specifies an address **offset** and expected **align**ment for a
/// load from or store into linear memory.
///
/// [**`memarg`**]: https://webassembly.github.io/spec/core/syntax/instructions.html#memory-instructions
#[derive(Clone, Copy, Debug, PartialEq, Eq, Hash)]
#[non_exhaustive]
pub struct MemArg {
    /// The offset into the linear memory.
    pub offset: u64,
    /// The expected alignment for the address of the load or store operation.
    pub align: Align,
    /// The linear memory that the load or store operation accesses.
    pub memory: MemIdx,
}

impl View for MemArg {
    type V = MemArg;

    open spec fn view(&self) -> MemArg {
        *self
    }
}

/// The meaning of [`MemArg::parse`]: the alignment field (adding `64` to it announces a memory
/// index), the offset, then the memory index if announced; the alignment exponent must be at
/// most `4`.
pub open spec fn spec_mem_arg(s: Seq<u8>) -> Outcome<MemArg> {
    match spec_leb128_u32(s) {
        Err(e) => Err(e),
        Ok((n, a)) => match shift(n, spec_leb128_u64(s.skip(n as int))) {
            Err(e) => Err(e),
            Ok((m, offset)) => {
                let memory: Outcome<MemIdx> = if a < 64 {
                    Ok((m, MemIdx(0)))
                } else {
                    shift(m, spec_mem_idx(s.skip(m as int)))
                };
                let align: u32 = if a < 64 { a } else { (a - 64) as u32 };
                match memory {
                    Err(e) => Err(e),
                    Ok((k, memory)) => match spec_align(align as int) {
                        Some(align) => Ok((k, MemArg { offset, align, memory })),
                        None => Err((k, ErrorCause::MemArg(MemArgComponent::Alignment(Some(align))))),
                    },
                }
            },
        },
    }
}

/// Each alignment is named by its size in bytes, two to the power of its exponent, and the
/// exponents `0` to `4` are exactly those that name an alignment, each naming the one of that
/// exponent.
pub proof fn lemma_align_exponents(k: int)
    ensures
        pow2(spec_to_power(Align::Any) as nat) == 1,
        pow2(spec_to_power(Align::Two) as nat) == 2,
        pow2(spec_to_power(Align::Four) as nat) == 4,
        pow2(spec_to_power(Align::Eight) as nat) == 8,
        pow2(spec_to_power(Align::Sixteen) as nat) == 16,
        spec_align(k) is Some <==> 0 <= k <= 4,
        spec_align(k) matches Some(a) ==> spec_to_power(a) == k,
{
    lemma2_to64();
}

/// A memory argument is the alignment exponent, then the offset, each as a *LEB128* number; when
/// the exponent has the bit `64` set, the index of the memory follows, otherwise the memory is
/// the first one. Reading one written that way, whatever follows it, gives back those values.
pub proof fn lemma_mem_arg_layout(k: u32, offset: u64, memory: u32, s: Seq<u8>)
    requires
        k <= 4,
    ensures
        spec_mem_arg(unsigned_encoding(k as nat) + unsigned_encoding(offset as nat) + s) == Outcome::<MemArg>::Ok(
            ((unsigned_encoding(k as nat).len() + unsigned_encoding(offset as nat).len()) as nat,
            MemArg { offset, align: spec_align(k as int)->Some_0, memory: MemIdx(0) })),
        spec_mem_arg(unsigned_encoding((k + 64) as nat) + unsigned_encoding(offset as nat) + unsigned_encoding(memory as nat) + s)
            == Outcome::<MemArg>::Ok(((unsigned_encoding((k + 64) as nat).len() + unsigned_encoding(offset as nat).len()
            + unsigned_encoding(memory as nat).len()) as nat, MemArg { offset, align: spec_align(k as int)->Some_0, memory: MemIdx(memory) })),
{
    let ea = unsigned_encoding(k as nat);
    let eo = unsigned_encoding(offset as nat);
    let t = ea + eo + s;
    lemma_leb128_round_trips(eo + s, k, 0, 0, 0);
    lemma_leb128_round_trips(s, 0, offset, 0, 0);
    assert(t =~= ea + (eo + s));
    assert(t.skip(ea.len() as int) =~= eo + s);
    let eb = unsigned_encoding((k + 64) as nat);
    let em = unsigned_encoding(memory as nat);
    let u = eb + eo + em + s;
    lemma_leb128_round_trips(eo + em + s, (k + 64) as u32, 0, 0, 0);
    lemma_leb128_round_trips(em + s, 0, offset, 0, 0);
    lemma_leb128_round_trips(s, memory, 0, 0, 0);
    assert(u =~= eb + (eo + em + s));
    assert(u.skip(eb.len() as int) =~= eo + (em + s));
    assert(u.skip((eb.len() + eo.len()) as int) =~= em + s);
}

impl MemArg {
    /// Parses a [`MemArg`].
    ///
    /// Fails if a component could not be parsed, or if the alignment exponent is larger than `4`.
    pub fn parse<'a, E: ErrorSource<'a>>(input: &'a [u8]) -> (res: Parsed<'a, MemArg, E>)
        ensures
            agrees(input@, res, spec_mem_arg(input@)),
    {
        let (rest, a) = match leb128_u32(input) {
            Ok(x) => x,
            Err(e) => return Err(E::append_with_cause(input, ErrorCause::MemArg(MemArgComponent::Alignment(None)), e)),
        };
        let ghost n: int = input@.len() - rest@.len();
        assert(rest@ == input@.skip(n));
        let (rest, offset) = match leb128_u64(rest) {
            Ok(x) => x,
            Err(e) => return Err(E::append_with_cause(rest, ErrorCause::MemArg(MemArgComponent::Offset), e)),
        };
        let ghost m: int = input@.len() - rest@.len();
        assert(rest@ == input@.skip(m));
        let align: u32;
        let (rest, memory) = if a < 64 {
            align = a;
            (rest, MemIdx(0))
        } else {
            align = a - 64;
            match MemIdx::parse(rest) {
                Ok(x) => x,
                Err(e) => return Err(E::append_with_cause(rest, ErrorCause::MemArg(MemArgComponent::Memory), e)),
            }
        };
        let power: Option<Align> = if align <= 4 { Align::new(align as u8) } else { None };
        proof {
            if align <= 4 {
                assert(power == spec_align(align as int));
            }
        }
        match power {
            Some(align) => Ok((rest, MemArg { offset, align, memory })),
            None => Err(E::from_error_cause(rest, ErrorCause::MemArg(MemArgComponent::Alignment(Some(align))))),
        }
    }
}

} // verus!
