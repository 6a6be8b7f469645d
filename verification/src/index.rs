//! Traits for representing, and functions for parsing, WebAssembly [indices].
//!
//! Every index is encoded as a *LEB128* unsigned 32-bit integer.
//!
//! [indices]: https://webassembly.github.io/spec/core/binary/modules.html#indices

use vstd::prelude::*;

use crate::error::{agrees, error_at, ErrorSource, Outcome, Parsed};
use crate::leb128::{leb128_u32, spec_leb128_u32};

verus! {

/// A [WebAssembly index](https://webassembly.github.io/spec/core/binary/modules.html#indices).
pub trait Index: Copy + Sized {
    /// The number that the index holds.
    spec fn spec_value(&self) -> u32;

    /// Creates the index that holds `value`.
    fn from_u32(value: u32) -> (r: Self)
        ensures
            r.spec_value() == value,
    ;

    /// Gets the number that the index holds.
    fn to_u32(&self) -> (r: u32)
        ensures
            r == self.spec_value(),
    ;

    /// What this kind of [`Index`] refers to.
    spec fn spec_index_name() -> Seq<char>;

    /// A human readable string that indicates what this [`Index`] refers to.
    fn name() -> (r: &'static str)
        ensures
            r@ == Self::spec_index_name(),
    ;

    /// Parses a *LEB128* encoded unsigned 32-bit index of this kind.
    fn parse<'a, E: ErrorSource<'a>>(input: &'a [u8]) -> (res: Result<(&'a [u8], Self), E>)
        ensures
            match spec_leb128_u32(input@) {
                Ok((n, v)) => res matches Ok((rest, i)) && n <= input@.len() && rest@ == input@.skip(n as int)
                    && i.spec_value() == v,
                Err((at, cause)) => res matches Err(e) && error_at(input@, e, at, cause),
            },
    {
        match leb128_u32(input) {
            Ok((rest, v)) => Ok((rest, Self::from_u32(v))),
            Err(e) => Err(e),
        }
    }
}

/// A `typeidx` is an index into the *type section*.
#[derive(Clone, Copy, Debug, PartialEq, Eq, PartialOrd, Ord, Hash)]
pub struct TypeIdx(pub u32);

impl View for TypeIdx {
    type V = TypeIdx;

    open spec fn view(&self) -> TypeIdx {
        *self
    }
}

impl Index for TypeIdx {
    open spec fn spec_value(&self) -> u32 {
        self.0
    }

    fn from_u32(value: u32) -> (r: Self) {
        TypeIdx(value)
    }

    fn to_u32(&self) -> (r: u32) {
        self.0
    }

    open spec fn spec_index_name() -> Seq<char> {
        "type"@
    }

    fn name() -> (r: &'static str) {
        "type"
    }
}

/// The meaning of [`TypeIdx::parse`].
pub open spec fn spec_type_idx(s: Seq<u8>) -> Outcome<TypeIdx> {
    match spec_leb128_u32(s) {
        Ok((n, v)) => Ok((n, TypeIdx(v))),
        Err(e) => Err(e),
    }
}

impl TypeIdx {
    /// Parses a *LEB128* encoded unsigned 32-bit index.
    pub fn parse<'a, E: ErrorSource<'a>>(input: &'a [u8]) -> (res: Parsed<'a, TypeIdx, E>)
        ensures
            agrees(input@, res, spec_type_idx(input@)),
    {
        match leb128_u32(input) {
            Ok((rest, v)) => Ok((rest, TypeIdx(v))),
            Err(e) => Err(e),
        }
    }
}

/// A `funcidx` refers to an imported function or a function defined in the *function section*.
#[derive(Clone, Copy, Debug, PartialEq, Eq, PartialOrd, Ord, Hash)]
pub struct FuncIdx(pub u32);

impl View for FuncIdx {
    type V = FuncIdx;

    open spec fn view(&self) -> FuncIdx {
        *self
    }
}

impl Index for FuncIdx {
    open spec fn spec_value(&self) -> u32 {
        self.0
    }

    fn from_u32(value: u32) -> (r: Self) {
        FuncIdx(value)
    }

    fn to_u32(&self) -> (r: u32) {
        self.0
    }

    open spec fn spec_index_name() -> Seq<char> {
        "func"@
    }

    fn name() -> (r: &'static str) {
        "func"
    }
}

/// The meaning of [`FuncIdx::parse`].
pub open spec fn spec_func_idx(s: Seq<u8>) -> Outcome<FuncIdx> {
    match spec_leb128_u32(s) {
        Ok((n, v)) => Ok((n, FuncIdx(v))),
        Err(e) => Err(e),
    }
}

impl FuncIdx {
    /// Parses a *LEB128* encoded unsigned 32-bit index.
    pub fn parse<'a, E: ErrorSource<'a>>(input: &'a [u8]) -> (res: Parsed<'a, FuncIdx, E>)
        ensures
            agrees(input@, res, spec_func_idx(input@)),
    {
        match leb128_u32(input) {
            Ok((rest, v)) => Ok((rest, FuncIdx(v))),
            Err(e) => Err(e),
        }
    }
}

/// A `tableidx` refers to an imported table or a table defined in the *table section*.
#[derive(Clone, Copy, Debug, PartialEq, Eq, PartialOrd, Ord, Hash)]
pub struct TableIdx(pub u32);

impl View for TableIdx {
    type V = TableIdx;

    open spec fn view(&self) -> TableIdx {
        *self
    }
}

impl Index for TableIdx {
    open spec fn spec_value(&self) -> u32 {
        self.0
    }

    fn from_u32(value: u32) -> (r: Self) {
        TableIdx(value)
    }

    fn to_u32(&self) -> (r: u32) {
        self.0
    }

    open spec fn spec_index_name() -> Seq<char> {
        "table"@
    }

    fn name() -> (r: &'static str) {
        "table"
    }
}

/// The meaning of [`TableIdx::parse`].
pub open spec fn spec_table_idx(s: Seq<u8>) -> Outcome<TableIdx> {
    match spec_leb128_u32(s) {
        Ok((n, v)) => Ok((n, TableIdx(v))),
        Err(e) => Err(e),
    }
}

impl TableIdx {
    /// Parses a *LEB128* encoded unsigned 32-bit index.
    pub fn parse<'a, E: ErrorSource<'a>>(input: &'a [u8]) -> (res: Parsed<'a, TableIdx, E>)
        ensures
            agrees(input@, res, spec_table_idx(input@)),
    {
        match leb128_u32(input) {
            Ok((rest, v)) => Ok((rest, TableIdx(v))),
            Err(e) => Err(e),
        }
    }
}

/// A `memidx` refers to an imported memory or a memory defined in the *memory section*.
#[derive(Clone, Copy, Debug, PartialEq, Eq, PartialOrd, Ord, Hash)]
pub struct MemIdx(pub u32);

impl View for MemIdx {
    type V = MemIdx;

    open spec fn view(&self) -> MemIdx {
        *self
    }
}

impl Index for MemIdx {
    open spec fn spec_value(&self) -> u32 {
        self.0
    }

    fn from_u32(value: u32) -> (r: Self) {
        MemIdx(value)
    }

    fn to_u32(&self) -> (r: u32) {
        self.0
    }

    open spec fn spec_index_name() -> Seq<char> {
        "mem"@
    }

    fn name() -> (r: &'static str) {
        "mem"
    }
}

/// The meaning of [`MemIdx::parse`].
pub open spec fn spec_mem_idx(s: Seq<u8>) -> Outcome<MemIdx> {
    match spec_leb128_u32(s) {
        Ok((n, v)) => Ok((n, MemIdx(v))),
        Err(e) => Err(e),
    }
}

impl MemIdx {
    /// Parses a *LEB128* encoded unsigned 32-bit index.
    pub fn parse<'a, E: ErrorSource<'a>>(input: &'a [u8]) -> (res: Parsed<'a, MemIdx, E>)
        ensures
            agrees(input@, res, spec_mem_idx(input@)),
    {
        match leb128_u32(input) {
            Ok((rest, v)) => Ok((rest, MemIdx(v))),
            Err(e) => Err(e),
        }
    }
}

/// A `globalidx` refers to an imported global or a global defined in the *global section*.
#[derive(Clone, Copy, Debug, PartialEq, Eq, PartialOrd, Ord, Hash)]
pub struct GlobalIdx(pub u32);

impl View for GlobalIdx {
    type V = GlobalIdx;

    open spec fn view(&self) -> GlobalIdx {
        *self
    }
}

impl Index for GlobalIdx {
    open spec fn spec_value(&self) -> u32 {
        self.0
    }

    fn from_u32(value: u32) -> (r: Self) {
        GlobalIdx(value)
    }

    fn to_u32(&self) -> (r: u32) {
        self.0
    }

    open spec fn spec_index_name() -> Seq<char> {
        "global"@
    }

    fn name() -> (r: &'static str) {
        "global"
    }
}

/// The meaning of [`GlobalIdx::parse`].
pub open spec fn spec_global_idx(s: Seq<u8>) -> Outcome<GlobalIdx> {
    match spec_leb128_u32(s) {
        Ok((n, v)) => Ok((n, GlobalIdx(v))),
        Err(e) => Err(e),
    }
}

impl GlobalIdx {
    /// Parses a *LEB128* encoded unsigned 32-bit index.
    pub fn parse<'a, E: ErrorSource<'a>>(input: &'a [u8]) -> (res: Parsed<'a, GlobalIdx, E>)
        ensures
            agrees(input@, res, spec_global_idx(input@)),
    {
        match leb128_u32(input) {
            Ok((rest, v)) => Ok((rest, GlobalIdx(v))),
            Err(e) => Err(e),
        }
    }
}

/// An `elemidx` refers to element segments in the *element section*.
#[derive(Clone, Copy, Debug, PartialEq, Eq, PartialOrd, Ord, Hash)]
pub struct ElemIdx(pub u32);

impl View for ElemIdx {
    type V = ElemIdx;

    open spec fn view(&self) -> ElemIdx {
        *self
    }
}

impl Index for ElemIdx {
    open spec fn spec_value(&self) -> u32 {
        self.0
    }

    fn from_u32(value: u32) -> (r: Self) {
        ElemIdx(value)
    }

    fn to_u32(&self) -> (r: u32) {
        self.0
    }

    open spec fn spec_index_name() -> Seq<char> {
        "elem"@
    }

    fn name() -> (r: &'static str) {
        "elem"
    }
}

/// The meaning of [`ElemIdx::parse`].
pub open spec fn spec_elem_idx(s: Seq<u8>) -> Outcome<ElemIdx> {
    match spec_leb128_u32(s) {
        Ok((n, v)) => Ok((n, ElemIdx(v))),
        Err(e) => Err(e),
    }
}

impl ElemIdx {
    /// Parses a *LEB128* encoded unsigned 32-bit index.
    pub fn parse<'a, E: ErrorSource<'a>>(input: &'a [u8]) -> (res: Parsed<'a, ElemIdx, E>)
        ensures
            agrees(input@, res, spec_elem_idx(input@)),
    {
        match leb128_u32(input) {
            Ok((rest, v)) => Ok((rest, ElemIdx(v))),
            Err(e) => Err(e),
        }
    }
}

/// A `dataidx` refers to data segments in the *data section*.
#[derive(Clone, Copy, Debug, PartialEq, Eq, PartialOrd, Ord, Hash)]
pub struct DataIdx(pub u32);

impl View for DataIdx {
    type V = DataIdx;

    open spec fn view(&self) -> DataIdx {
        *self
    }
}

impl Index for DataIdx {
    open spec fn spec_value(&self) -> u32 {
        self.0
    }

    fn from_u32(value: u32) -> (r: Self) {
        DataIdx(value)
    }

    fn to_u32(&self) -> (r: u32) {
        self.0
    }

    open spec fn spec_index_name() -> Seq<char> {
        "data"@
    }

    fn name() -> (r: &'static str) {
        "data"
    }
}

/// The meaning of [`DataIdx::parse`].
pub open spec fn spec_data_idx(s: Seq<u8>) -> Outcome<DataIdx> {
    match spec_leb128_u32(s) {
        Ok((n, v)) => Ok((n, DataIdx(v))),
        Err(e) => Err(e),
    }
}

impl DataIdx {
    /// Parses a *LEB128* encoded unsigned 32-bit index.
    pub fn parse<'a, E: ErrorSource<'a>>(input: &'a [u8]) -> (res: Parsed<'a, DataIdx, E>)
        ensures
            agrees(input@, res, spec_data_idx(input@)),
    {
        match leb128_u32(input) {
            Ok((rest, v)) => Ok((rest, DataIdx(v))),
            Err(e) => Err(e),
        }
    }
}

/// A `localidx` refers to the parameters and local variables of a function.
#[derive(Clone, Copy, Debug, PartialEq, Eq, PartialOrd, Ord, Hash)]
pub struct LocalIdx(pub u32);

impl View for LocalIdx {
    type V = LocalIdx;

    open spec fn view(&self) -> LocalIdx {
        *self
    }
}

impl Index for LocalIdx {
    open spec fn spec_value(&self) -> u32 {
        self.0
    }

    fn from_u32(value: u32) -> (r: Self) {
        LocalIdx(value)
    }

    fn to_u32(&self) -> (r: u32) {
        self.0
    }

    open spec fn spec_index_name() -> Seq<char> {
        "local"@
    }

    fn name() -> (r: &'static str) {
        "local"
    }
}

/// The meaning of [`LocalIdx::parse`].
pub open spec fn spec_local_idx(s: Seq<u8>) -> Outcome<LocalIdx> {
    match spec_leb128_u32(s) {
        Ok((n, v)) => Ok((n, LocalIdx(v))),
        Err(e) => Err(e),
    }
}

impl LocalIdx {
    /// Parses a *LEB128* encoded unsigned 32-bit index.
    pub fn parse<'a, E: ErrorSource<'a>>(input: &'a [u8]) -> (res: Parsed<'a, LocalIdx, E>)
        ensures
            agrees(input@, res, spec_local_idx(input@)),
    {
        match leb128_u32(input) {
            Ok((rest, v)) => Ok((rest, LocalIdx(v))),
            Err(e) => Err(e),
        }
    }
}

/// A `labelidx` refers to structured control instructions within the code of a function.
#[derive(Clone, Copy, Debug, PartialEq, Eq, PartialOrd, Ord, Hash)]
pub struct LabelIdx(pub u32);

impl View for LabelIdx {
    type V = LabelIdx;

    open spec fn view(&self) -> LabelIdx {
        *self
    }
}

impl Index for LabelIdx {
    open spec fn spec_value(&self) -> u32 {
        self.0
    }

    fn from_u32(value: u32) -> (r: Self) {
        LabelIdx(value)
    }

    fn to_u32(&self) -> (r: u32) {
        self.0
    }

    open spec fn spec_index_name() -> Seq<char> {
        "label"@
    }

    fn name() -> (r: &'static str) {
        "label"
    }
}

/// The meaning of [`LabelIdx::parse`].
pub open spec fn spec_label_idx(s: Seq<u8>) -> Outcome<LabelIdx> {
    match spec_leb128_u32(s) {
        Ok((n, v)) => Ok((n, LabelIdx(v))),
        Err(e) => Err(e),
    }
}

impl LabelIdx {
    /// Parses a *LEB128* encoded unsigned 32-bit index.
    pub fn parse<'a, E: ErrorSource<'a>>(input: &'a [u8]) -> (res: Parsed<'a, LabelIdx, E>)
        ensures
            agrees(input@, res, spec_label_idx(input@)),
    {
        match leb128_u32(input) {
            Ok((rest, v)) => Ok((rest, LabelIdx(v))),
            Err(e) => Err(e),
        }
    }
}

/// A `tagidx` refers to a *tag* in the *tag section* of the exception handling proposal.
#[derive(Clone, Copy, Debug, PartialEq, Eq, PartialOrd, Ord, Hash)]
pub struct TagIdx(pub u32);

impl View for TagIdx {
    type V = TagIdx;

    open spec fn view(&self) -> TagIdx {
        *self
    }
}

impl Index for TagIdx {
    open spec fn spec_value(&self) -> u32 {
        self.0
    }

    fn from_u32(value: u32) -> (r: Self) {
        TagIdx(value)
    }

    fn to_u32(&self) -> (r: u32) {
        self.0
    }

    open spec fn spec_index_name() -> Seq<char> {
        "tag"@
    }

    fn name() -> (r: &'static str) {
        "tag"
    }
}

/// The meaning of [`TagIdx::parse`].
pub open spec fn spec_tag_idx(s: Seq<u8>) -> Outcome<TagIdx> {
    match spec_leb128_u32(s) {
        Ok((n, v)) => Ok((n, TagIdx(v))),
        Err(e) => Err(e),
    }
}

impl TagIdx {
    /// Parses a *LEB128* encoded unsigned 32-bit index.
    pub fn parse<'a, E: ErrorSource<'a>>(input: &'a [u8]) -> (res: Parsed<'a, TagIdx, E>)
        ensures
            agrees(input@, res, spec_tag_idx(input@)),
    {
        match leb128_u32(input) {
            Ok((rest, v)) => Ok((rest, TagIdx(v))),
            Err(e) => Err(e),
        }
    }
}

/// `res` is what parsing a *LEB128* encoded index from `input` gives: the index holds the
/// number that was read, or the error is that of the *LEB128* integer.
pub open spec fn index_agrees<'a, I: Index, E: ErrorSource<'a>>(input: Seq<u8>, res: Result<(&'a [u8], I), E>) -> bool {
    match spec_leb128_u32(input) {
        Ok((n, v)) => res matches Ok((rest, i)) && n <= input.len() && rest@ == input.skip(n as int)
            && i.spec_value() == v,
        Err((at, cause)) => res matches Err(e) && error_at(input, e, at, cause),
    }
}

/// A parser for a *LEB128* encoded [`Index`] of any kind.
#[derive(Clone, Copy, Debug, Default)]
#[non_exhaustive]
pub struct IndexParser;

impl IndexParser {
    /// Parses a *LEB128* encoded unsigned 32-bit [`Index`].
    pub fn parse<'a, I: Index, E: ErrorSource<'a>>(&mut self, input: &'a [u8]) -> (res: Result<(&'a [u8], I), E>)
        ensures
            index_agrees(input@, res),
    {
        <I as Index>::parse(input)
    }
}

} // verus!
