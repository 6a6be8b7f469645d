//! Types describing errors that occur during parsing, and the way a parser's result is related
//! to the meaning of the bytes it read.

use vstd::prelude::*;

use crate::index::TypeIdx;
use crate::isa::{InvalidExpr, InvalidInstr, InvalidOpcode, Opcode};
use crate::leb128::{Destination, InvalidEncoding};
use crate::module::preamble::InvalidMagic;
use crate::module::ModuleSectionOrder;
use crate::ordering::OrderingError;
use crate::types::{IdxType, ValType};

verus! {

/// The UTF-8 decoding error of the standard library, carried through unchanged.
#[verifier::external_type_specification]
#[verifier::external_body]
pub struct ExUtf8Error(core::str::Utf8Error);

/// Coarse classification of a failure, matching the kinds of failures that parser combinator
/// libraries report.
#[derive(Clone, Copy, Debug, PartialEq, Eq, Hash)]
#[non_exhaustive]
pub enum ErrorKind {
    Tag,
    MapRes,
    MapOpt,
    Alt,
    IsNot,
    IsA,
    SeparatedList,
    SeparatedNonEmptyList,
    Many0,
    Many1,
    ManyTill,
    Count,
    TakeUntil,
    LengthValue,
    TagClosure,
    Alpha,
    Digit,
    HexDigit,
    OctDigit,
    AlphaNumeric,
    Space,
    MultiSpace,
    LengthValueFn,
    Eof,
    Switch,
    TagBits,
    OneOf,
    NoneOf,
    Char,
    CrLf,
    RegexpMatch,
    RegexpMatches,
    RegexpFind,
    RegexpCapture,
    RegexpCaptures,
    TakeWhile1,
    Complete,
    Fix,
    Escaped,
    EscapedTransform,
    NonEmpty,
    ManyMN,
    Not,
    Permutation,
    Verify,
    TakeTill1,
    TakeWhileMN,
    TooLarge,
    Many0Count,
    Many1Count,
    Float,
    Satisfy,
    Fail,
}

/// Describes an [`ErrorCause`] where the length of some data was incorrect.
#[derive(Clone, Copy, Debug, PartialEq, Eq, Hash)]
pub struct LengthMismatch {
    pub expected: u32,
    pub actual: u32,
}

/// Error type used when a byte or 32-bit enumeration value was invalid.
#[derive(Clone, Copy, Debug, PartialEq, Eq, Hash)]
#[non_exhaustive]
pub enum InvalidTag {
    /// An invalid [`ModuleSectionId`](crate::module::ModuleSectionId).
    ModuleSectionId(u8),
    /// An invalid or missing function type tag.
    FuncType(Option<u8>),
    /// An invalid or missing [`ImportDesc`](crate::module::ImportDesc) tag.
    ImportDesc(Option<u8>),
}

/// Used with [`InvalidFlags`] to indicate what values were invalid.
#[derive(Clone, Copy, Debug, PartialEq, Eq, Hash)]
pub enum InvalidFlagsValue<V: Copy> {
    /// The flags were parsed, but had invalid flags.
    Invalid {
        /// The flags value that *contains* the invalid flags.
        value: V,
        /// The flags that caused validation to fail.
        invalid: V,
    },
    /// Flags could not be parsed.
    Missing,
}

/// Error type used when a byte flags combination was invalid.
#[derive(Clone, Copy, Debug, PartialEq, Eq, Hash)]
#[non_exhaustive]
pub enum InvalidFlags {
    /// Invalid flags for [`Limits`](crate::types::Limits).
    Limits(InvalidFlagsValue<u8>),
    /// Invalid flags for a [`GlobalType`](crate::types::GlobalType).
    GlobalType(InvalidFlagsValue<u8>),
}

/// Indicates which part of a [`Limits`](crate::types::Limits) could not be parsed.
#[derive(Clone, Copy, Debug, PartialEq, Eq, Hash)]
#[non_exhaustive]
pub enum LimitsComponent {
    Minimum,
    Maximum,
}

/// Indicates which field of an [`Import`](crate::module::Import) could not be parsed.
#[derive(Clone, Copy, Debug, PartialEq, Eq, Hash)]
#[non_exhaustive]
pub enum ImportComponent {
    Module,
    Name,
}

/// Indicates why a [`MemArg`](crate::isa::MemArg) could not be parsed.
#[derive(Clone, Copy, Debug, PartialEq, Eq, Hash)]
#[non_exhaustive]
pub enum MemArgComponent {
    /// The alignment field could not be parsed when `None`; otherwise, the alignment exponent that
    /// was too large.
    Alignment(Option<u32>),
    Offset,
    Memory,
}

/// Describes why a vector could not be parsed.
#[derive(Clone, Copy, Debug, PartialEq, Eq, Hash)]
#[non_exhaustive]
pub enum InvalidVector {
    /// The length of the vector could not be parsed.
    Length,
    /// Fewer items than the length announced were present.
    Remaining { expected: u32 },
}

/// Describes why a parser error occured.
#[derive(Clone, Copy, Debug, PartialEq, Eq)]
#[non_exhaustive]
#[allow(inconsistent_fields)]
pub enum ErrorCause {
    Nom(ErrorKind),
    Leb128 { destination: Destination, reason: InvalidEncoding },
    InvalidTag(InvalidTag),
    InvalidFlags(InvalidFlags),
    Vector(InvalidVector),
    NameLength,
    NameContents(LengthMismatch),
    NameEncoding(core::str::Utf8Error),
    Index(&'static str),
    SectionId,
    SectionLength,
    SectionContents(LengthMismatch),
    CustomSectionName,
    PreambleMagic(InvalidMagic),
    PreambleVersion(Option<u32>),
    /// A [`BlockType`](crate::types::BlockType) could not be parsed: `None` if the end of input
    /// was encountered, a negative value for an unrecognized encoding of a type, or a positive
    /// value for a type index that is too large.
    BlockType(Option<i64>),
    /// A [`ValType`] was expected: `None` if an empty block type was parsed instead, or the type
    /// index that was parsed instead.
    ValType(Option<TypeIdx>),
    Limits { index_type: IdxType, component: LimitsComponent },
    RefType(ValType),
    MemType,
    TableType,
    GlobalType,
    TagType,
    ImportDesc { kind: u8 },
    Import(ImportComponent),
    ModuleSectionOrder(OrderingError<ModuleSectionOrder>),
    Opcode(InvalidOpcode),
    Instr { opcode: Opcode, reason: InvalidInstr },
    Expr(InvalidExpr),
    MemArg(MemArgComponent),
}

/// The closest [`ErrorKind`] counterpart of each [`ErrorCause`].
pub open spec fn spec_error_kind(cause: ErrorCause) -> ErrorKind {
    match cause {
        ErrorCause::Nom(kind) => kind,
        ErrorCause::Leb128 { .. } | ErrorCause::Index(_) => ErrorKind::ManyTill,
        ErrorCause::InvalidTag(_) | ErrorCause::PreambleMagic(_) | ErrorCause::PreambleVersion(_)
        | ErrorCause::ImportDesc { .. } | ErrorCause::Opcode(_) => ErrorKind::Tag,
        ErrorCause::InvalidFlags(_) => ErrorKind::OneOf,
        ErrorCause::Vector(InvalidVector::Length) | ErrorCause::NameLength
        | ErrorCause::SectionLength => ErrorKind::LengthValue,
        ErrorCause::Vector(InvalidVector::Remaining { .. }) => ErrorKind::Count,
        ErrorCause::NameContents(_) | ErrorCause::SectionContents(_) => ErrorKind::Complete,
        ErrorCause::NameEncoding(_) | ErrorCause::BlockType(_) | ErrorCause::ValType(_)
        | ErrorCause::RefType(_) | ErrorCause::ModuleSectionOrder(_) | ErrorCause::Expr(_) => ErrorKind::Verify,
        ErrorCause::Instr { reason, .. } => match reason {
            InvalidInstr::Unrecognized | InvalidInstr::BrTableLabelCount
            | InvalidInstr::SelectTypedArity(_) => ErrorKind::Verify,
            _ => ErrorKind::Eof,
        },
        ErrorCause::SectionId | ErrorCause::CustomSectionName | ErrorCause::Limits { .. }
        | ErrorCause::MemType | ErrorCause::TableType | ErrorCause::GlobalType
        | ErrorCause::TagType | ErrorCause::Import(_) | ErrorCause::MemArg(_) => ErrorKind::Eof,
    }
}

impl ErrorCause {
    /// Maps this [`ErrorCause`] to its closest [`ErrorKind`] counterpart.
    ///
    /// This conversion may result in the loss of error information.
    pub fn to_error_kind(self) -> (r: ErrorKind)
        ensures
            r == spec_error_kind(self),
    {
        match self {
            ErrorCause::Nom(kind) => kind,
            ErrorCause::Leb128 { .. } | ErrorCause::Index(_) => ErrorKind::ManyTill,
            ErrorCause::InvalidTag(_) | ErrorCause::PreambleMagic(_) | ErrorCause::PreambleVersion(_)
            | ErrorCause::ImportDesc { .. } | ErrorCause::Opcode(_) => ErrorKind::Tag,
            ErrorCause::InvalidFlags(_) => ErrorKind::OneOf,
            ErrorCause::Vector(InvalidVector::Length) | ErrorCause::NameLength
            | ErrorCause::SectionLength => ErrorKind::LengthValue,
            ErrorCause::Vector(InvalidVector::Remaining { .. }) => ErrorKind::Count,
            ErrorCause::NameContents(_) | ErrorCause::SectionContents(_) => ErrorKind::Complete,
            ErrorCause::NameEncoding(_) | ErrorCause::BlockType(_) | ErrorCause::ValType(_)
            | ErrorCause::RefType(_) | ErrorCause::ModuleSectionOrder(_) | ErrorCause::Expr(_) => ErrorKind::Verify,
            ErrorCause::Instr { reason, .. } => match reason {
                InvalidInstr::Unrecognized | InvalidInstr::BrTableLabelCount
                | InvalidInstr::SelectTypedArity(_) => ErrorKind::Verify,
                _ => ErrorKind::Eof,
            },
            ErrorCause::SectionId | ErrorCause::CustomSectionName | ErrorCause::Limits { .. }
            | ErrorCause::MemType | ErrorCause::TableType | ErrorCause::GlobalType
            | ErrorCause::TagType | ErrorCause::Import(_) | ErrorCause::MemArg(_) => ErrorKind::Eof,
        }
    }

    /// Converts an [`ErrorKind`] into an [`ErrorCause`].
    pub fn from_kind(kind: ErrorKind) -> (r: ErrorCause)
        ensures
            r == ErrorCause::Nom(kind),
    {
        ErrorCause::Nom(kind)
    }
}

/// Default error type, which tracks an error's location and the reason why it occured.
#[derive(Clone, Copy, Debug, PartialEq, Eq)]
#[non_exhaustive]
pub struct Error<'a> {
    /// A slice into the original input indicating where the error occured.
    pub input: &'a [u8],
    /// An error code indicating why a parse failed.
    pub cause: ErrorCause,
}

/// Accumulates information about an error: where and why it first occured, and the causes that
/// enclosing parsers added on top of it.
#[derive(Debug)]
pub struct VerboseError<'a> {
    base: Error<'a>,
    additional: Vec<Error<'a>>,
}

impl<'a> View for VerboseError<'a> {
    type V = (Error<'a>, Seq<Error<'a>>);

    /// The first error, and the errors added on top of it, oldest first.
    closed spec fn view(&self) -> (Error<'a>, Seq<Error<'a>>) {
        (self.base, self.additional@)
    }
}

/// Trait for error types produced by parsers: an error records where and why parsing first
/// failed, and may accumulate the causes that enclosing parsers add on top of it.
pub trait ErrorSource<'a>: Sized {
    /// The input at which parsing first failed.
    spec fn spec_input(&self) -> Seq<u8>;

    /// Why parsing first failed.
    spec fn spec_cause(&self) -> ErrorCause;

    /// This error is `other` with the cause `cause`, at `input`, added on top of it.
    spec fn spec_appended(&self, input: &'a [u8], cause: ErrorCause, other: Self) -> bool;

    /// Creates a new error from the input where it occured, and its [`ErrorCause`].
    fn from_error_cause(input: &'a [u8], cause: ErrorCause) -> (r: Self)
        ensures
            r.spec_input() == input@,
            r.spec_cause() == cause,
    ;

    /// Combines an existing error with a newly constructed error; where and why parsing first
    /// failed stay those of the existing error.
    fn append_with_cause(input: &'a [u8], cause: ErrorCause, other: Self) -> (r: Self)
        ensures
            r.spec_input() == other.spec_input(),
            r.spec_cause() == other.spec_cause(),
            r.spec_appended(input, cause, other),
    ;
}

impl<'a> ErrorSource<'a> for Error<'a> {
    open spec fn spec_input(&self) -> Seq<u8> {
        self.input@
    }

    open spec fn spec_cause(&self) -> ErrorCause {
        self.cause
    }

    /// The default error keeps only where and why parsing first failed.
    open spec fn spec_appended(&self, input: &'a [u8], cause: ErrorCause, other: Self) -> bool {
        *self == other
    }

    fn from_error_cause(input: &'a [u8], cause: ErrorCause) -> (r: Self)
        ensures
            r.input == input && r.cause == cause,
    {
        Error { input, cause }
    }

    /// Keeps the existing error: the default error type reports where parsing first failed.
    fn append_with_cause(input: &'a [u8], cause: ErrorCause, other: Self) -> (r: Self)
        ensures
            r == other,
    {
        other
    }
}

impl<'a> ErrorSource<'a> for VerboseError<'a> {
    open spec fn spec_input(&self) -> Seq<u8> {
        self@.0.input@
    }

    open spec fn spec_cause(&self) -> ErrorCause {
        self@.0.cause
    }

    /// The added cause comes last among the additional errors.
    open spec fn spec_appended(&self, input: &'a [u8], cause: ErrorCause, other: Self) -> bool {
        self@.0 == other@.0 && self@.1 == other@.1.push(Error { input, cause })
    }

    fn from_error_cause(input: &'a [u8], cause: ErrorCause) -> (r: Self)
        ensures
            r@.0.input == input && r@.0.cause == cause,
            r@.1 == Seq::<Error<'a>>::empty(),
    {
        VerboseError { base: Error { input, cause }, additional: Vec::new() }
    }

    fn append_with_cause(input: &'a [u8], cause: ErrorCause, other: Self) -> (r: Self)
        ensures
            r@.0 == other@.0,
            r@.1.len() == other@.1.len() + 1,
            r@.1.drop_last() == other@.1,
            r@.1.last().input == input && r@.1.last().cause == cause,
    {
        let mut other = other;
        other.additional.push(Error { input, cause });
        other
    }
}

impl<'a> VerboseError<'a> {
    /// Gets the error where parsing first failed.
    pub fn base(&self) -> (r: Error<'a>)
        ensures
            r == self@.0,
    {
        self.base
    }

    /// Gets the errors added on top of the first one, oldest first.
    pub fn additional(&self) -> (r: &[Error<'a>])
        ensures
            r@ == self@.1,
    {
        self.additional.as_slice()
    }
}

/// Result of a parser: the input that follows what was consumed, and the parsed value.
pub type Parsed<'a, T, E = Error<'a>> = Result<(&'a [u8], T), E>;

/// The meaning of a parse at the level of byte sequences: either the number of bytes consumed
/// together with the view of the parsed value, or the offset at which the error was reported
/// together with its cause.
pub type Outcome<V> = Result<(nat, V), (nat, ErrorCause)>;

/// `e` reports `cause` at offset `at` of `input`.
pub open spec fn error_at<'a, E: ErrorSource<'a>>(input: Seq<u8>, e: E, at: nat, cause: ErrorCause) -> bool {
    at <= input.len() && e.spec_input() == input.skip(at as int) && e.spec_cause() == cause
}

/// `res`, produced from `input`, is exactly what `expected` describes.
pub open spec fn agrees<'a, T: View, E: ErrorSource<'a>>(input: Seq<u8>, res: Parsed<'a, T, E>, expected: Outcome<T::V>) -> bool {
    match res {
        Ok((rest, value)) => match expected {
            Ok((n, v)) => n <= input.len() && rest@ == input.skip(n as int) && value@ == v,
            Err(_) => false,
        },
        Err(e) => match expected {
            Ok(_) => false,
            Err((at, cause)) => error_at(input, e, at, cause),
        },
    }
}

/// `res`, a value parsed from the whole of `input`, is exactly what `expected` describes.
pub open spec fn agrees_value<'a, T: View, E: ErrorSource<'a>>(input: Seq<u8>, res: Result<T, E>, expected: Result<T::V, (nat, ErrorCause)>) -> bool {
    match res {
        Ok(value) => match expected {
            Ok(v) => value@ == v,
            Err(_) => false,
        },
        Err(e) => match expected {
            Ok(_) => false,
            Err((at, cause)) => error_at(input, e, at, cause),
        },
    }
}

/// Moves an outcome that describes the input after `n` bytes to one that describes the whole input.
pub open spec fn shift<V>(n: nat, o: Outcome<V>) -> Outcome<V> {
    match o {
        Ok((k, v)) => Ok((n + k, v)),
        Err((at, cause)) => Err((n + at, cause)),
    }
}

/// Skipping `a` bytes and then `b` bytes is skipping `a + b` bytes.
pub broadcast proof fn lemma_skip_skip<A>(s: Seq<A>, a: int, b: int)
    requires
        0 <= a,
        0 <= b,
        a + b <= s.len(),
    ensures
        #[trigger] s.skip(a).skip(b) == s.skip(a + b),
{
    assert(s.skip(a).skip(b) =~= s.skip(a + b));
}

/// Skipping no bytes leaves the input as it is.
pub broadcast proof fn lemma_skip_zero<A>(s: Seq<A>)
    ensures
        #[trigger] s.skip(0) == s,
{
    assert(s.skip(0) =~= s);
}

/// The facts about skipping bytes that relating parsers to their meaning relies on.
pub broadcast group group_skip {
    lemma_skip_skip,
    lemma_skip_zero,
}

/// Maps the value of an outcome.
pub open spec fn map_outcome<A, B>(o: Outcome<A>, f: spec_fn(A) -> B) -> Outcome<B> {
    match o {
        Ok((n, v)) => Ok((n, f(v))),
        Err(e) => Err(e),
    }
}

/// The meaning of parsing an item with the meaning `first`, then one with the meaning `second`
/// from the input that follows it.
pub open spec fn spec_pair<A, B>(s: Seq<u8>, first: spec_fn(Seq<u8>) -> Outcome<A>, second: spec_fn(Seq<u8>) -> Outcome<B>) -> Outcome<(A, B)> {
    match first(s) {
        Err(e) => Err(e),
        Ok((n, a)) => match shift(n, second(s.skip(n as int))) {
            Err(e) => Err(e),
            Ok((m, b)) => Ok((m, (a, b))),
        },
    }
}

/// The meaning of parsing `count` items one after another, each with the meaning `item`: the
/// items in order, or the first error.
pub open spec fn spec_repeat<V>(s: Seq<u8>, count: nat, item: spec_fn(Seq<u8>) -> Outcome<V>) -> Outcome<Seq<V>>
    decreases count,
{
    if count == 0 {
        Ok((0, Seq::empty()))
    } else {
        match spec_repeat(s, (count - 1) as nat, item) {
            Err(e) => Err(e),
            Ok((n, values)) => match shift(n, item(s.skip(n as int))) {
                Err(e) => Err(e),
                Ok((m, v)) => Ok((m, values.push(v))),
            },
        }
    }
}

/// Once parsing some of the items fails, parsing more of them fails with the same error.
pub proof fn lemma_repeat_err<V>(s: Seq<u8>, k: nat, k2: nat, item: spec_fn(Seq<u8>) -> Outcome<V>)
    requires
        k <= k2,
        spec_repeat(s, k, item) is Err,
    ensures
        spec_repeat(s, k2, item) == spec_repeat(s, k, item),
    decreases k2,
{
    if k2 > k {
        lemma_repeat_err(s, k, (k2 - 1) as nat, item);
    }
}

} // verus!
