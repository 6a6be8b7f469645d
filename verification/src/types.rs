//! Types representing, and functions for parsing,
//! [WebAssembly types](https://webassembly.github.io/spec/core/binary/types.html).

use vstd::prelude::*;

use crate::error::{agrees, group_skip, lemma_repeat_err, shift, spec_repeat, ErrorCause, ErrorSource, InvalidFlags, InvalidFlagsValue, InvalidTag, Outcome, Parsed};
use crate::index::{spec_type_idx, TypeIdx};
use crate::leb128::{leb128_u32, leb128_u64, lemma_leb128_round_trips, lemma_signed_round_trip, signed_at, signed_encoding, spec_leb128_u32, spec_leb128_u64, spec_signed, unsigned_encoding, Destination};
use crate::values::{spec_vector_length, vector_length};

verus! {

broadcast use group_skip;

/// A [value type](https://webassembly.github.io/spec/core/binary/types.html#value-types).
#[derive(Clone, Copy, Debug, PartialEq, Eq, Hash)]
#[non_exhaustive]
pub enum ValType {
    I32,
    I64,
    F32,
    F64,
    V128,
    FuncRef,
    ExternRef,
}

/// A [reference type](https://webassembly.github.io/spec/core/binary/types.html#reference-types).
#[derive(Clone, Copy, Debug, PartialEq, Eq, Hash)]
#[non_exhaustive]
pub enum RefType {
    Func,
    Extern,
}

/// A [block type](https://webassembly.github.io/spec/core/binary/instructions.html#control-instructions).
#[derive(Clone, Copy, Debug, PartialEq, Eq, Hash)]
pub enum BlockType {
    /// The block has no result.
    Empty,
    /// The block's type is given by a type in the *type section*.
    Index(TypeIdx),
    /// The block has a single result of the given type.
    Inline(ValType),
}

/// Whether an index space is addressed with 32-bit or 64-bit indices.
#[derive(Clone, Copy, Debug, PartialEq, Eq, Hash)]
pub enum IdxType {
    I32,
    I64,
}

/// Whether a memory is shared between threads.
#[derive(Clone, Copy, Debug, PartialEq, Eq, Hash)]
pub enum Sharing {
    Unshared,
    Shared,
}

/// The minimum and optional maximum of [`Limits`].
#[derive(Clone, Copy, Debug, PartialEq, Eq, Hash)]
pub struct LimitBounds {
    pub minimum: u64,
    pub maximum: Option<u64>,
}

/// The [limits](https://webassembly.github.io/spec/core/binary/types.html#limits) of a table or
/// memory.
#[derive(Clone, Copy, Debug, PartialEq, Eq, Hash)]
pub struct Limits {
    pub index_type: IdxType,
    pub bounds: LimitBounds,
    pub share: Sharing,
}

/// A [table type](https://webassembly.github.io/spec/core/binary/types.html#table-types).
#[derive(Clone, Copy, Debug, PartialEq, Eq, Hash)]
pub struct TableType {
    pub element_type: RefType,
    pub limits: Limits,
}

/// A [memory type](https://webassembly.github.io/spec/core/binary/types.html#memory-types).
#[derive(Clone, Copy, Debug, PartialEq, Eq, Hash)]
pub struct MemType {
    pub limits: Limits,
}

/// Whether a global variable may be assigned to.
#[derive(Clone, Copy, Debug, PartialEq, Eq, Hash)]
pub enum Mutability {
    Constant,
    Variable,
}

/// A [global type](https://webassembly.github.io/spec/core/binary/types.html#global-types).
#[derive(Clone, Copy, Debug, PartialEq, Eq, Hash)]
pub struct GlobalType {
    pub value_type: ValType,
    pub mutability: Mutability,
}

/// The type of a *tag*, introduced by the exception handling proposal.
#[derive(Clone, Copy, Debug, PartialEq, Eq, Hash)]
pub struct TagType {
    pub index: TypeIdx,
}

/// A [function type](https://webassembly.github.io/spec/core/binary/types.html#function-types).
#[derive(Clone, Debug, PartialEq, Eq, Hash)]
pub struct FuncType {
    pub parameters: Vec<ValType>,
    pub results: Vec<ValType>,
}

impl View for ValType {
    type V = ValType;

    open spec fn view(&self) -> ValType {
        *self
    }
}

impl View for RefType {
    type V = RefType;

    open spec fn view(&self) -> RefType {
        *self
    }
}

impl View for BlockType {
    type V = BlockType;

    open spec fn view(&self) -> BlockType {
        *self
    }
}

impl View for Limits {
    type V = Limits;

    open spec fn view(&self) -> Limits {
        *self
    }
}

impl View for TableType {
    type V = TableType;

    open spec fn view(&self) -> TableType {
        *self
    }
}

impl View for MemType {
    type V = MemType;

    open spec fn view(&self) -> MemType {
        *self
    }
}

impl View for GlobalType {
    type V = GlobalType;

    open spec fn view(&self) -> GlobalType {
        *self
    }
}

impl View for TagType {
    type V = TagType;

    open spec fn view(&self) -> TagType {
        *self
    }
}

impl View for FuncType {
    type V = (Seq<ValType>, Seq<ValType>);

    /// The parameter types and the result types.
    open spec fn view(&self) -> (Seq<ValType>, Seq<ValType>) {
        (self.parameters@, self.results@)
    }
}

/// The value type that a single byte encodes, if any.
pub open spec fn spec_val_type_byte(b: u8) -> Option<ValType> {
    if b == 0x7F {
        Some(ValType::I32)
    } else if b == 0x7E {
        Some(ValType::I64)
    } else if b == 0x7D {
        Some(ValType::F32)
    } else if b == 0x7C {
        Some(ValType::F64)
    } else if b == 0x7B {
        Some(ValType::V128)
    } else if b == 0x70 {
        Some(ValType::FuncRef)
    } else if b == 0x6F {
        Some(ValType::ExternRef)
    } else {
        None
    }
}

impl ValType {
    /// Gets the value type that the byte `b` encodes, if any.
    pub fn from_byte(b: u8) -> (r: Option<ValType>)
        ensures
            r == spec_val_type_byte(b),
    {
        if b == 0x7F {
            Some(ValType::I32)
        } else if b == 0x7E {
            Some(ValType::I64)
        } else if b == 0x7D {
            Some(ValType::F32)
        } else if b == 0x7C {
            Some(ValType::F64)
        } else if b == 0x7B {
            Some(ValType::V128)
        } else if b == 0x70 {
            Some(ValType::FuncRef)
        } else if b == 0x6F {
            Some(ValType::ExternRef)
        } else {
            None
        }
    }
}

/// The meaning of [`BlockType::parse`]: `0x40`, a value type, or a non-negative *LEB128* signed
/// 33-bit type index.
pub open spec fn spec_block_type(s: Seq<u8>) -> Outcome<BlockType> {
    if s.len() == 0 {
        Err((0, ErrorCause::BlockType(None)))
    } else if s[0] == 0x40 {
        Ok((1, BlockType::Empty))
    } else {
        match spec_val_type_byte(s[0]) {
            Some(t) => Ok((1, BlockType::Inline(t))),
            None => match spec_signed(s, 33) {
                Err(e) => Err((0, ErrorCause::Leb128 { destination: Destination::S64, reason: e })),
                Ok((n, v)) => if 0 <= v <= u32::MAX {
                    Ok((n, BlockType::Index(TypeIdx(v as u32))))
                } else {
                    Err((0, ErrorCause::BlockType(Some(v as i64))))
                },
            },
        }
    }
}

impl BlockType {
    /// Parses a [`BlockType`].
    pub fn parse<'a, E: ErrorSource<'a>>(input: &'a [u8]) -> (res: Parsed<'a, BlockType, E>)
        ensures
            agrees(input@, res, spec_block_type(input@)),
    {
        if input.len() == 0 {
            return Err(E::from_error_cause(input, ErrorCause::BlockType(None)));
        }
        let b: u8 = input[0];
        if b == 0x40 {
            let (_, rest) = input.split_at(1);
            return Ok((rest, BlockType::Empty));
        }
        match ValType::from_byte(b) {
            Some(t) => {
                let (_, rest) = input.split_at(1);
                Ok((rest, BlockType::Inline(t)))
            },
            None => {
                proof {
                    assert(input@.skip(0) =~= input@);
                    vstd::arithmetic::power2::lemma2_to64();
                }
                match signed_at(input, 0, 33) {
                    Err(e) => Err(E::from_error_cause(input, ErrorCause::Leb128 { destination: Destination::S64, reason: e })),
                    Ok((n, v)) => {
                        if 0 <= v && v <= u32::MAX as i64 {
                            let (_, rest) = input.split_at(n);
                            Ok((rest, BlockType::Index(TypeIdx(v as u32))))
                        } else {
                            Err(E::from_error_cause(input, ErrorCause::BlockType(Some(v))))
                        }
                    },
                }
            },
        }
    }
}

/// The meaning of [`ValType::parse`]: a block type that must be a single value type.
pub open spec fn spec_val_type(s: Seq<u8>) -> Outcome<ValType> {
    match spec_block_type(s) {
        Ok((n, BlockType::Inline(t))) => Ok((n, t)),
        Ok((_, BlockType::Empty)) => Err((0, ErrorCause::ValType(None))),
        Ok((_, BlockType::Index(i))) => Err((0, ErrorCause::ValType(Some(i)))),
        Err(e) => Err(e),
    }
}

/// The value types are encoded by the bytes the binary format assigns them, read as one byte:
/// `0x7F` is `i32`, `0x7E` `i64`, `0x7D` `f32`, `0x7C` `f64`, `0x7B` `v128`, `0x70` `funcref`
/// and `0x6F` `externref`; as a block type, `0x40` is the empty type.
pub proof fn lemma_val_type_bytes(s: Seq<u8>)
    ensures
        spec_val_type(seq![0x7Fu8] + s) == Outcome::<ValType>::Ok((1, ValType::I32)),
        spec_val_type(seq![0x7Eu8] + s) == Outcome::<ValType>::Ok((1, ValType::I64)),
        spec_val_type(seq![0x7Du8] + s) == Outcome::<ValType>::Ok((1, ValType::F32)),
        spec_val_type(seq![0x7Cu8] + s) == Outcome::<ValType>::Ok((1, ValType::F64)),
        spec_val_type(seq![0x7Bu8] + s) == Outcome::<ValType>::Ok((1, ValType::V128)),
        spec_val_type(seq![0x70u8] + s) == Outcome::<ValType>::Ok((1, ValType::FuncRef)),
        spec_val_type(seq![0x6Fu8] + s) == Outcome::<ValType>::Ok((1, ValType::ExternRef)),
        spec_block_type(seq![0x40u8] + s) == Outcome::<BlockType>::Ok((1, BlockType::Empty)),
{
    assert((seq![0x7Fu8] + s)[0] == 0x7Fu8);
    assert((seq![0x7Eu8] + s)[0] == 0x7Eu8);
    assert((seq![0x7Du8] + s)[0] == 0x7Du8);
    assert((seq![0x7Cu8] + s)[0] == 0x7Cu8);
    assert((seq![0x7Bu8] + s)[0] == 0x7Bu8);
    assert((seq![0x70u8] + s)[0] == 0x70u8);
    assert((seq![0x6Fu8] + s)[0] == 0x6Fu8);
    assert((seq![0x40u8] + s)[0] == 0x40u8);
}

/// A block type that is neither empty nor a value type is a type index, written as a signed
/// 33-bit *LEB128* number: every `u32` index written that way, whatever follows it, is read back
/// as that index.
pub proof fn lemma_block_type_index(index: u32, s: Seq<u8>)
    ensures
        spec_block_type(signed_encoding(index as int) + s) == Outcome::<BlockType>::Ok(
            (signed_encoding(index as int).len(), BlockType::Index(TypeIdx(index)))),
{
    let e = signed_encoding(index as int);
    let t = e + s;
    vstd::arithmetic::power2::lemma2_to64();
    lemma_signed_round_trip(index as int, 33, s);
    if index < 64 {
        assert(e == seq![((index as int) % 128) as u8]);
        assert(t[0] == index as u8);
    } else {
        assert(e[0] == ((index as int) % 128 + 128) as u8);
        assert(t[0] >= 128);
    }
}

/// Reference types are the value types `funcref` (`0x70`) and `externref` (`0x6F`); every other
/// value type is not one.
pub proof fn lemma_ref_type_bytes(s: Seq<u8>, b: u8)
    ensures
        spec_ref_type(seq![0x70u8] + s) == Outcome::<RefType>::Ok((1, RefType::Func)),
        spec_ref_type(seq![0x6Fu8] + s) == Outcome::<RefType>::Ok((1, RefType::Extern)),
        (spec_val_type_byte(b) matches Some(t) && t != ValType::FuncRef && t != ValType::ExternRef)
            ==> spec_ref_type(seq![b] + s) is Err,
{
    lemma_val_type_bytes(s);
    assert((seq![b] + s)[0] == b);
}

impl ValType {
    /// Parses a [`ValType`].
    pub fn parse<'a, E: ErrorSource<'a>>(input: &'a [u8]) -> (res: Parsed<'a, ValType, E>)
        ensures
            agrees(input@, res, spec_val_type(input@)),
    {
        match BlockType::parse(input) {
            Ok((rest, BlockType::Inline(t))) => Ok((rest, t)),
            Ok((_, BlockType::Empty)) => Err(E::from_error_cause(input, ErrorCause::ValType(None))),
            Ok((_, BlockType::Index(i))) => Err(E::from_error_cause(input, ErrorCause::ValType(Some(i)))),
            Err(e) => Err(e),
        }
    }
}

/// The meaning of [`RefType::parse`]: a value type that must be a reference type.
pub open spec fn spec_ref_type(s: Seq<u8>) -> Outcome<RefType> {
    match spec_val_type(s) {
        Ok((n, ValType::FuncRef)) => Ok((n, RefType::Func)),
        Ok((n, ValType::ExternRef)) => Ok((n, RefType::Extern)),
        Ok((_, t)) => Err((0, ErrorCause::RefType(t))),
        Err(e) => Err(e),
    }
}

impl RefType {
    /// Parses a [`RefType`].
    pub fn parse<'a, E: ErrorSource<'a>>(input: &'a [u8]) -> (res: Parsed<'a, RefType, E>)
        ensures
            agrees(input@, res, spec_ref_type(input@)),
    {
        match ValType::parse(input) {
            Ok((rest, ValType::FuncRef)) => Ok((rest, RefType::Func)),
            Ok((rest, ValType::ExternRef)) => Ok((rest, RefType::Extern)),
            Ok((_, t)) => Err(E::from_error_cause(input, ErrorCause::RefType(t))),
            Err(e) => Err(e),
        }
    }
}

/// The meaning of a limit bound: a *LEB128* unsigned integer as wide as the index type.
pub open spec fn spec_bound(s: Seq<u8>, index_type: IdxType) -> Outcome<u64> {
    match index_type {
        IdxType::I32 => match spec_leb128_u32(s) {
            Ok((n, v)) => Ok((n, v as u64)),
            Err(e) => Err(e),
        },
        IdxType::I64 => spec_leb128_u64(s),
    }
}

fn parse_bound<'a, E: ErrorSource<'a>>(input: &'a [u8], index_type: IdxType) -> (res: Parsed<'a, u64, E>)
    ensures
        agrees(input@, res, spec_bound(input@, index_type)),
{
    match index_type {
        IdxType::I32 => match leb128_u32(input) {
            Ok((rest, v)) => Ok((rest, v as u64)),
            Err(e) => Err(e),
        },
        IdxType::I64 => leb128_u64(input),
    }
}

/// The meaning of [`Limits::parse`]: a flags byte (bit 0: a maximum follows, bit 1: shared,
/// bit 2: 64-bit indices), the minimum, and the maximum if present.
pub open spec fn spec_limits(s: Seq<u8>) -> Outcome<Limits> {
    if s.len() == 0 {
        Err((0, ErrorCause::InvalidFlags(InvalidFlags::Limits(InvalidFlagsValue::Missing))))
    } else if s[0] >= 8 {
        Err((0, ErrorCause::InvalidFlags(InvalidFlags::Limits(InvalidFlagsValue::Invalid {
            value: s[0],
            invalid: (s[0] - s[0] % 8) as u8,
        }))))
    } else {
        let f = s[0];
        let index_type = if f >= 4 { IdxType::I64 } else { IdxType::I32 };
        let share = if f % 4 >= 2 { Sharing::Shared } else { Sharing::Unshared };
        match shift(1, spec_bound(s.skip(1), index_type)) {
            Err(e) => Err(e),
            Ok((n, minimum)) => if f % 2 == 1 {
                match shift(n, spec_bound(s.skip(n as int), index_type)) {
                    Err(e) => Err(e),
                    Ok((m, maximum)) => Ok((m, Limits {
                        index_type,
                        bounds: LimitBounds { minimum, maximum: Some(maximum) },
                        share,
                    })),
                }
            } else {
                Ok((n, Limits { index_type, bounds: LimitBounds { minimum, maximum: None }, share }))
            },
        }
    }
}

/// Limits are a flags byte, the minimum, and the maximum when the flags say one follows: bit `1`
/// of the flags says a maximum follows, bit `2` that the limits are shared, and bit `4` that
/// indices are 64 bits wide, so that the bounds are 64-bit *LEB128* numbers rather than 32-bit
/// ones. Reading limits written that way, whatever follows them, gives back those values.
pub proof fn lemma_limits_layout(f: u8, min: u64, max: u64, s: Seq<u8>)
    requires
        f < 8,
        f < 4 ==> min <= u32::MAX && max <= u32::MAX,
    ensures
        ({
            let bounds = unsigned_encoding(min as nat) + (if f % 2 == 1 { unsigned_encoding(max as nat) } else { Seq::empty() });
            spec_limits(seq![f] + bounds + s) == Outcome::<Limits>::Ok(((1 + bounds.len()) as nat, Limits {
                index_type: if f >= 4 { IdxType::I64 } else { IdxType::I32 },
                bounds: LimitBounds { minimum: min, maximum: if f % 2 == 1 { Some(max) } else { None } },
                share: if f % 4 >= 2 { Sharing::Shared } else { Sharing::Unshared },
            }))
        }),
{
    let e1 = unsigned_encoding(min as nat);
    let e2 = unsigned_encoding(max as nat);
    let bounds = e1 + (if f % 2 == 1 { e2 } else { Seq::empty() });
    let t = seq![f] + bounds + s;
    assert(t[0] == f);
    assert(t.skip(1) =~= e1 + ((if f % 2 == 1 { e2 } else { Seq::empty() }) + s));
    assert(t.skip((1 + e1.len()) as int) =~= (if f % 2 == 1 { e2 } else { Seq::empty() }) + s);
    if f % 2 == 1 {
        assert(t.skip((1 + e1.len()) as int) =~= e2 + s);
    } else {
        assert(t.skip((1 + e1.len()) as int) =~= s);
    }
    lemma_leb128_round_trips((if f % 2 == 1 { e2 } else { Seq::empty() }) + s, min as u32, min, 0, 0);
    lemma_leb128_round_trips(s, max as u32, max, 0, 0);
}

/// A global type is a value type followed by its mutability byte, `0` for a constant and `1` for
/// a variable.
pub proof fn lemma_global_type_layout(b: u8, s: Seq<u8>)
    ensures
        spec_val_type_byte(b) matches Some(t) ==> spec_global_type(seq![b, 0u8] + s) == Outcome::<GlobalType>::Ok(
            (2, GlobalType { value_type: t, mutability: Mutability::Constant })),
        spec_val_type_byte(b) matches Some(t) ==> spec_global_type(seq![b, 1u8] + s) == Outcome::<GlobalType>::Ok(
            (2, GlobalType { value_type: t, mutability: Mutability::Variable })),
{
    let c = seq![b, 0u8] + s;
    let v = seq![b, 1u8] + s;
    assert(c[0] == b && c[1] == 0u8);
    assert(v[0] == b && v[1] == 1u8);
}

impl Limits {
    /// Parses [`Limits`].
    pub fn parse<'a, E: ErrorSource<'a>>(input: &'a [u8]) -> (res: Parsed<'a, Limits, E>)
        ensures
            agrees(input@, res, spec_limits(input@)),
    {
        if input.len() == 0 {
            return Err(E::from_error_cause(input, ErrorCause::InvalidFlags(InvalidFlags::Limits(InvalidFlagsValue::Missing))));
        }
        let f: u8 = input[0];
        if f >= 8 {
            return Err(E::from_error_cause(input, ErrorCause::InvalidFlags(InvalidFlags::Limits(InvalidFlagsValue::Invalid { value: f, invalid: f - f % 8, }))));
        }
        let index_type = if f >= 4 { IdxType::I64 } else { IdxType::I32 };
        let share = if f % 4 >= 2 { Sharing::Shared } else { Sharing::Unshared };
        let (_, after_flags) = input.split_at(1);
        let (rest, minimum) = match parse_bound(after_flags, index_type) {
            Ok(x) => x,
            Err(e) => return Err(e),
        };
        if f % 2 == 1 {
            let ghost n: int = input@.len() - rest@.len();
            assert(rest@ == input@.skip(n));
            let (rest, maximum) = match parse_bound(rest, index_type) {
                Ok(x) => x,
                Err(e) => return Err(e),
            };
            Ok((rest, Limits { index_type, bounds: LimitBounds { minimum, maximum: Some(maximum) }, share }))
        } else {
            Ok((rest, Limits { index_type, bounds: LimitBounds { minimum, maximum: None }, share }))
        }
    }
}

/// The meaning of [`TableType::parse`]: a reference type followed by limits.
pub open spec fn spec_table_type(s: Seq<u8>) -> Outcome<TableType> {
    match spec_ref_type(s) {
        Err(e) => Err(e),
        Ok((n, element_type)) => match shift(n, spec_limits(s.skip(n as int))) {
            Err(e) => Err(e),
            Ok((m, limits)) => Ok((m, TableType { element_type, limits })),
        },
    }
}

impl TableType {
    /// Parses a [`TableType`].
    pub fn parse<'a, E: ErrorSource<'a>>(input: &'a [u8]) -> (res: Parsed<'a, TableType, E>)
        ensures
            agrees(input@, res, spec_table_type(input@)),
    {
        let (rest, element_type) = match RefType::parse(input) {
            Ok(x) => x,
            Err(e) => return Err(e),
        };
        let ghost n: int = input@.len() - rest@.len();
        assert(rest@ == input@.skip(n));
        match Limits::parse(rest) {
            Ok((rest, limits)) => Ok((rest, TableType { element_type, limits })),
            Err(e) => Err(e),
        }
    }
}

/// The meaning of [`MemType::parse`]: limits.
pub open spec fn spec_mem_type(s: Seq<u8>) -> Outcome<MemType> {
    match spec_limits(s) {
        Err(e) => Err(e),
        Ok((n, limits)) => Ok((n, MemType { limits })),
    }
}

impl MemType {
    /// Parses a [`MemType`].
    pub fn parse<'a, E: ErrorSource<'a>>(input: &'a [u8]) -> (res: Parsed<'a, MemType, E>)
        ensures
            agrees(input@, res, spec_mem_type(input@)),
    {
        match Limits::parse(input) {
            Ok((rest, limits)) => Ok((rest, MemType { limits })),
            Err(e) => Err(e),
        }
    }
}

/// The meaning of [`GlobalType::parse`]: a value type followed by a mutability flag byte.
pub open spec fn spec_global_type(s: Seq<u8>) -> Outcome<GlobalType> {
    match spec_val_type(s) {
        Err(e) => Err(e),
        Ok((n, value_type)) => if n >= s.len() {
            Err((n, ErrorCause::InvalidFlags(InvalidFlags::GlobalType(InvalidFlagsValue::Missing))))
        } else if s[n as int] == 0 {
            Ok((n + 1, GlobalType { value_type, mutability: Mutability::Constant }))
        } else if s[n as int] == 1 {
            Ok((n + 1, GlobalType { value_type, mutability: Mutability::Variable }))
        } else {
            Err((n, ErrorCause::InvalidFlags(InvalidFlags::GlobalType(InvalidFlagsValue::Invalid {
                value: s[n as int],
                invalid: (s[n as int] - s[n as int] % 2) as u8,
            }))))
        },
    }
}

impl GlobalType {
    /// Parses a [`GlobalType`].
    pub fn parse<'a, E: ErrorSource<'a>>(input: &'a [u8]) -> (res: Parsed<'a, GlobalType, E>)
        ensures
            agrees(input@, res, spec_global_type(input@)),
    {
        let (rest, value_type) = match ValType::parse(input) {
            Ok(x) => x,
            Err(e) => return Err(e),
        };
        let ghost n: int = input@.len() - rest@.len();
        assert(rest@ == input@.skip(n));
        if rest.len() == 0 {
            return Err(E::from_error_cause(rest, ErrorCause::InvalidFlags(InvalidFlags::GlobalType(InvalidFlagsValue::Missing))));
        }
        let m: u8 = rest[0];
        let (_, after) = rest.split_at(1);
        if m == 0 {
            Ok((after, GlobalType { value_type, mutability: Mutability::Constant }))
        } else if m == 1 {
            Ok((after, GlobalType { value_type, mutability: Mutability::Variable }))
        } else {
            Err(E::from_error_cause(rest, ErrorCause::InvalidFlags(InvalidFlags::GlobalType(InvalidFlagsValue::Invalid { value: m, invalid: m - m % 2, }))))
        }
    }
}

/// The meaning of [`TagType::parse`]: an attribute byte `0x00` followed by a type index.
pub open spec fn spec_tag_type(s: Seq<u8>) -> Outcome<TagType> {
    if s.len() == 0 || s[0] != 0 {
        Err((0, ErrorCause::TagType))
    } else {
        match shift(1, spec_type_idx(s.skip(1))) {
            Err(e) => Err(e),
            Ok((n, index)) => Ok((n, TagType { index })),
        }
    }
}

/// A tag type is the attribute byte `0x00` followed by the type index of the tag's signature,
/// and a function type starts with the byte `0x60`.
pub proof fn lemma_tag_and_func_type_tags(s: Seq<u8>, b: u8)
    ensures
        spec_tag_type(seq![0u8] + s) == match spec_type_idx(s) {
            Ok((n, index)) => Outcome::<TagType>::Ok((n + 1, TagType { index })),
            Err((at, cause)) => Outcome::<TagType>::Err((at + 1, cause)),
        },
        b != 0 ==> spec_tag_type(seq![b] + s) == Outcome::<TagType>::Err((0, ErrorCause::TagType)),
        b != 0x60 ==> spec_func_type(seq![b] + s) == Outcome::<(Seq<ValType>, Seq<ValType>)>::Err(
            (0, ErrorCause::InvalidTag(InvalidTag::FuncType(Some(b))))),
        spec_func_type(seq![0x60u8] + s) is Ok ==> spec_val_types(s) is Ok,
{
    assert((seq![0u8] + s).skip(1) =~= s);
    assert((seq![0x60u8] + s).skip(1) =~= s);
    assert((seq![b] + s)[0] == b);
    assert((seq![0u8] + s)[0] == 0u8);
    assert((seq![0x60u8] + s)[0] == 0x60u8);
}

impl TagType {
    /// Parses a [`TagType`].
    pub fn parse<'a, E: ErrorSource<'a>>(input: &'a [u8]) -> (res: Parsed<'a, TagType, E>)
        ensures
            agrees(input@, res, spec_tag_type(input@)),
    {
        if input.len() == 0 || input[0] != 0 {
            return Err(E::from_error_cause(input, ErrorCause::TagType));
        }
        let (_, rest) = input.split_at(1);
        match TypeIdx::parse(rest) {
            Ok((rest, index)) => Ok((rest, TagType { index })),
            Err(e) => Err(e),
        }
    }
}

/// The meaning of parsing `count` value types one after another.
pub open spec fn spec_val_type_seq(s: Seq<u8>, count: nat) -> Outcome<Seq<ValType>> {
    spec_repeat(s, count, |t: Seq<u8>| spec_val_type(t))
}

/// The meaning of [`val_types`]: a vector of value types.
pub open spec fn spec_val_types(s: Seq<u8>) -> Outcome<Seq<ValType>> {
    match spec_vector_length(s) {
        Err(e) => Err(e),
        Ok((n, count)) => shift(n, spec_val_type_seq(s.skip(n as int), count as nat)),
    }
}

/// Parses a vector of value types.
#[verifier::spinoff_prover]
#[verifier::rlimit(40)]
pub fn val_types<'a, E: ErrorSource<'a>>(input: &'a [u8]) -> (res: Parsed<'a, Vec<ValType>, E>)
    ensures
        agrees(input@, res, spec_val_types(input@)),
{
    let (start, count) = match vector_length(input) {
        Ok(x) => x,
        Err(e) => return Err(e),
    };
    let ghost base: int = input@.len() - start@.len();
    let ghost s = start@;
    assert(s == input@.skip(base));
    let mut rest: &'a [u8] = start;
    let mut types: Vec<ValType> = Vec::new();
    let mut i: u32 = 0;
    assert(s.skip(0) =~= s);
    while i < count
        invariant
            i <= count,
            s == start@,
            0 <= base <= input@.len(),
            s == input@.skip(base),
            spec_vector_length(input@) == Outcome::<u32>::Ok((base as nat, count)),
            rest@.len() <= s.len(),
            rest@ == s.skip(s.len() - rest@.len()),
            spec_val_type_seq(s, i as nat) == Outcome::<Seq<ValType>>::Ok(((s.len() - rest@.len()) as nat, types@)),
        decreases count - i,
    {
        let ghost n: int = s.len() - rest@.len();
        match ValType::parse::<E>(rest) {
            Ok((next, t)) => {
                types.push(t);
                rest = next;
            },
            Err(e) => {
                proof {
                    let at = spec_val_type(rest@)->Err_0.0;
                    assert(shift(n as nat, spec_val_type(s.skip(n))) is Err);
                    assert(spec_val_type_seq(s, (i + 1) as nat) is Err);
                    lemma_repeat_err(s, (i + 1) as nat, count as nat, |t: Seq<u8>| spec_val_type(t));
                    assert(spec_val_type_seq(s, count as nat) is Err);
                    assert(e.spec_input() == s.skip(n + at));
                    assert(e.spec_input() == input@.skip(base + n + at));
                }
                return Err(e);
            },
        }
        i = i + 1;
    }
    Ok((rest, types))
}

/// The meaning of [`FuncType::parse`]: the tag `0x60`, the parameter types, then the result types.
pub open spec fn spec_func_type(s: Seq<u8>) -> Outcome<(Seq<ValType>, Seq<ValType>)> {
    if s.len() == 0 {
        Err((0, ErrorCause::InvalidTag(InvalidTag::FuncType(None))))
    } else if s[0] != 0x60 {
        Err((0, ErrorCause::InvalidTag(InvalidTag::FuncType(Some(s[0])))))
    } else {
        match shift(1, spec_val_types(s.skip(1))) {
            Err(e) => Err(e),
            Ok((n, parameters)) => match shift(n, spec_val_types(s.skip(n as int))) {
                Err(e) => Err(e),
                Ok((m, results)) => Ok((m, (parameters, results))),
            },
        }
    }
}

impl FuncType {
    /// Parses a [`FuncType`].
    pub fn parse<'a, E: ErrorSource<'a>>(input: &'a [u8]) -> (res: Parsed<'a, FuncType, E>)
        ensures
            agrees(input@, res, spec_func_type(input@)),
    {
        if input.len() == 0 {
            return Err(E::from_error_cause(input, ErrorCause::InvalidTag(InvalidTag::FuncType(None))));
        }
        let tag: u8 = input[0];
        if tag != 0x60 {
            return Err(E::from_error_cause(input, ErrorCause::InvalidTag(InvalidTag::FuncType(Some(tag)))));
        }
        let (_, rest) = input.split_at(1);
        let (rest, parameters) = match val_types(rest) {
            Ok(x) => x,
            Err(e) => return Err(e),
        };
        let ghost n: int = input@.len() - rest@.len();
        assert(rest@ == input@.skip(n));
        let (rest, results) = match val_types(rest) {
            Ok(x) => x,
            Err(e) => return Err(e),
        };
        Ok((rest, FuncType { parameters, results }))
    }
}

} // verus!
