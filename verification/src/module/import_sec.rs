//! The [*import section*] of a WebAssembly module.
//!
//! [*import section*]: https://webassembly.github.io/spec/core/binary/modules.html#import-section

use vstd::prelude::*;
use vstd::utf8::{decode_utf8, valid_utf8};

use crate::input::AsInput;

use crate::error::{agrees, agrees_value, error_at, group_skip, lemma_repeat_err, shift, spec_repeat, ErrorCause, ErrorKind, ErrorSource, ImportComponent, InvalidTag, Outcome, Parsed};
use crate::index::{spec_type_idx, TypeIdx};
use crate::leb128::{lemma_leb128_round_trips, unsigned_encoding};
use crate::types::{
    spec_global_type, spec_mem_type, spec_table_type, spec_tag_type, GlobalType, MemType, TableType, TagType,
};
use crate::values::{lemma_name_layout, name, spec_name, spec_vector_length, vector_length};

verus! {

broadcast use group_skip;

/// An [**`importdesc`**] describes what kind of entity is specified by an [`Import`].
///
/// [**`importdesc`**]: https://webassembly.github.io/spec/core/binary/modules.html#import-section
#[derive(Clone, Copy, Debug, PartialEq, Eq, Hash)]
#[non_exhaustive]
pub enum ImportDesc {
    /// An imported function with the specified signature.
    Function(TypeIdx),
    /// An imported table with the specified limits and element type.
    Table(TableType),
    /// An imported memory with the specified limits.
    Memory(MemType),
    /// An imported global with the specified type.
    Global(GlobalType),
    /// An imported tag, introduced as part of the exception handling proposal.
    Tag(TagType),
}

impl View for ImportDesc {
    type V = ImportDesc;

    open spec fn view(&self) -> ImportDesc {
        *self
    }
}

/// Maps the value of an outcome.
pub open spec fn map_desc<V>(o: Outcome<V>, f: spec_fn(V) -> ImportDesc) -> Outcome<ImportDesc> {
    match o {
        Ok((n, v)) => Ok((n, f(v))),
        Err(e) => Err(e),
    }
}

/// The meaning of [`ImportDesc::parse`]: a tag byte followed by the description it announces.
pub open spec fn spec_import_desc(s: Seq<u8>) -> Outcome<ImportDesc> {
    if s.len() == 0 {
        Err((0, ErrorCause::InvalidTag(InvalidTag::ImportDesc(None))))
    } else if s[0] == 0 {
        map_desc(shift(1, spec_type_idx(s.skip(1))), |v: TypeIdx| ImportDesc::Function(v))
    } else if s[0] == 1 {
        map_desc(shift(1, spec_table_type(s.skip(1))), |v: TableType| ImportDesc::Table(v))
    } else if s[0] == 2 {
        map_desc(shift(1, spec_mem_type(s.skip(1))), |v: MemType| ImportDesc::Memory(v))
    } else if s[0] == 3 {
        map_desc(shift(1, spec_global_type(s.skip(1))), |v: GlobalType| ImportDesc::Global(v))
    } else if s[0] == 4 {
        map_desc(shift(1, spec_tag_type(s.skip(1))), |v: TagType| ImportDesc::Tag(v))
    } else {
        Err((0, ErrorCause::InvalidTag(InvalidTag::ImportDesc(Some(s[0])))))
    }
}

/// The outcome of an import description whose contents, read from the input after its tag
/// byte, had the outcome `o`: the value `f` makes of it, one byte further on.
pub open spec fn after_tag<V>(o: Outcome<V>, f: spec_fn(V) -> ImportDesc) -> Outcome<ImportDesc> {
    match o {
        Ok((n, v)) => Ok((n + 1, f(v))),
        Err((at, cause)) => Err((at + 1, cause)),
    }
}

/// The tag byte of an import description says what is imported, as the binary format lists it:
/// `0x00` a function (by its type index), `0x01` a table, `0x02` a memory, `0x03` a global and
/// `0x04` a tag, each read from the bytes after the tag; any other byte, or no byte, is an invalid
/// tag at the start of the description.
pub proof fn lemma_import_desc_tags(s: Seq<u8>, t: u8)
    ensures
        t == 0 ==> spec_import_desc(seq![t] + s) == after_tag(spec_type_idx(s), |v: TypeIdx| ImportDesc::Function(v)),
        t == 1 ==> spec_import_desc(seq![t] + s) == after_tag(spec_table_type(s), |v: TableType| ImportDesc::Table(v)),
        t == 2 ==> spec_import_desc(seq![t] + s) == after_tag(spec_mem_type(s), |v: MemType| ImportDesc::Memory(v)),
        t == 3 ==> spec_import_desc(seq![t] + s) == after_tag(spec_global_type(s), |v: GlobalType| ImportDesc::Global(v)),
        t == 4 ==> spec_import_desc(seq![t] + s) == after_tag(spec_tag_type(s), |v: TagType| ImportDesc::Tag(v)),
        t > 4 ==> spec_import_desc(seq![t] + s) == Outcome::<ImportDesc>::Err((0, ErrorCause::InvalidTag(InvalidTag::ImportDesc(Some(t))))),
        spec_import_desc(Seq::<u8>::empty()) == Outcome::<ImportDesc>::Err((0, ErrorCause::InvalidTag(InvalidTag::ImportDesc(None)))),
{
    assert((seq![t] + s).skip(1) =~= s);
    assert((seq![t] + s)[0] == t);
}

impl ImportDesc {
    /// Parses an [`ImportDesc`].
    pub fn parse<'a, E: ErrorSource<'a>>(input: &'a [u8]) -> (res: Parsed<'a, ImportDesc, E>)
        ensures
            agrees(input@, res, spec_import_desc(input@)),
    {
        if input.len() == 0 {
            return Err(E::from_error_cause(input, ErrorCause::InvalidTag(InvalidTag::ImportDesc(None))));
        }
        let tag: u8 = input[0];
        let (_, rest) = input.split_at(1);
        if tag == 0 {
            match TypeIdx::parse(rest) {
                Ok((rest, v)) => Ok((rest, ImportDesc::Function(v))),
                Err(e) => Err(e),
            }
        } else if tag == 1 {
            match TableType::parse(rest) {
                Ok((rest, v)) => Ok((rest, ImportDesc::Table(v))),
                Err(e) => Err(e),
            }
        } else if tag == 2 {
            match MemType::parse(rest) {
                Ok((rest, v)) => Ok((rest, ImportDesc::Memory(v))),
                Err(e) => Err(e),
            }
        } else if tag == 3 {
            match GlobalType::parse(rest) {
                Ok((rest, v)) => Ok((rest, ImportDesc::Global(v))),
                Err(e) => Err(e),
            }
        } else if tag == 4 {
            match TagType::parse(rest) {
                Ok((rest, v)) => Ok((rest, ImportDesc::Tag(v))),
                Err(e) => Err(e),
            }
        } else {
            Err(E::from_error_cause(input, ErrorCause::InvalidTag(InvalidTag::ImportDesc(Some(tag)))))
        }
    }
}

/// Represents a [WebAssembly **`import`**](https://webassembly.github.io/spec/core/binary/modules.html#import-section).
#[derive(Clone, Copy, Debug, PartialEq, Eq, Hash)]
#[non_exhaustive]
pub struct Import<'a> {
    /// The name of the module that this import originates from.
    pub module: &'a str,
    /// The name of the import.
    pub name: &'a str,
    /// The description for the import.
    pub desc: ImportDesc,
}

impl<'a> View for Import<'a> {
    type V = (Seq<char>, Seq<char>, ImportDesc);

    /// The module name, the import name, and the description.
    open spec fn view(&self) -> (Seq<char>, Seq<char>, ImportDesc) {
        (self.module@, self.name@, self.desc)
    }
}

/// The meaning of [`Import::parse`]: the module name, the import name, then the description.
pub open spec fn spec_import(s: Seq<u8>) -> Outcome<(Seq<char>, Seq<char>, ImportDesc)> {
    match spec_name(s) {
        Err(e) => Err(e),
        Ok((n, module)) => match shift(n, spec_name(s.skip(n as int))) {
            Err(e) => Err(e),
            Ok((m, name)) => match shift(m, spec_import_desc(s.skip(m as int))) {
                Err(e) => Err(e),
                Ok((k, desc)) => Ok((k, (module, name, desc))),
            },
        },
    }
}

/// An import is the module's name, then the imported item's name, then its description, in that
/// order: reading a function import written that way gives back both names, in order, and the
/// type index.
pub proof fn lemma_import_layout(module: Seq<u8>, name: Seq<u8>, index: u32, s: Seq<u8>)
    requires
        module.len() <= u32::MAX,
        name.len() <= u32::MAX,
        valid_utf8(module),
        valid_utf8(name),
    ensures
        ({
            let m = unsigned_encoding(module.len()) + module;
            let n = unsigned_encoding(name.len()) + name;
            let d = seq![0u8] + unsigned_encoding(index as nat);
            spec_import(m + n + d + s) == Outcome::<(Seq<char>, Seq<char>, ImportDesc)>::Ok(
                ((m.len() + n.len() + d.len()) as nat, (decode_utf8(module), decode_utf8(name), ImportDesc::Function(TypeIdx(index)))))
        }),
{
    let m = unsigned_encoding(module.len()) + module;
    let n = unsigned_encoding(name.len()) + name;
    let ei = unsigned_encoding(index as nat);
    let d = seq![0u8] + ei;
    let t = m + n + d + s;
    lemma_name_layout(module, n + d + s);
    assert(t =~= unsigned_encoding(module.len()) + module + (n + d + s));
    lemma_name_layout(name, d + s);
    assert(t.skip(m.len() as int) =~= unsigned_encoding(name.len()) + name + (d + s));
    assert(t.skip((m.len() + n.len()) as int) =~= seq![0u8] + (ei + s));
    lemma_import_desc_tags(ei + s, 0);
    lemma_leb128_round_trips(s, index, 0, 0, 0);
    assert(spec_type_idx(ei + s) == Outcome::<TypeIdx>::Ok((ei.len(), TypeIdx(index))));
}

impl<'a> Import<'a> {
    /// Parses an [`Import`].
    pub fn parse<E: ErrorSource<'a>>(input: &'a [u8]) -> (res: Parsed<'a, Import<'a>, E>)
        ensures
            agrees(input@, res, spec_import(input@)),
    {
        let (rest, module) = match name(input) {
            Ok(x) => x,
            Err(e) => return Err(E::append_with_cause(input, ErrorCause::Import(ImportComponent::Module), e)),
        };
        let ghost n: int = input@.len() - rest@.len();
        assert(rest@ == input@.skip(n));
        let (rest, name) = match name(rest) {
            Ok(x) => x,
            Err(e) => return Err(E::append_with_cause(rest, ErrorCause::Import(ImportComponent::Name), e)),
        };
        let ghost m: int = input@.len() - rest@.len();
        assert(rest@ == input@.skip(m));
        match ImportDesc::parse(rest) {
            Ok((rest, desc)) => Ok((rest, Import { module, name, desc })),
            Err(e) => Err(e),
        }
    }
}

/// A parser for [`Import`]s, which [`Import::parse`] does the work of.
#[derive(Clone, Copy, Debug, Default)]
#[non_exhaustive]
pub struct ImportParser;

impl ImportParser {
    /// Parses an [`Import`].
    pub fn parse<'a, E: ErrorSource<'a>>(&mut self, input: &'a [u8]) -> (res: Parsed<'a, Import<'a>, E>)
        ensures
            agrees(input@, res, spec_import(input@)),
    {
        Import::parse(input)
    }
}

/// Represents the [*import section*] of a WebAssembly module: the number of imports it
/// announces, and the bytes that encode them.
///
/// [*import section*]: https://webassembly.github.io/spec/core/binary/modules.html#import-section
#[derive(Clone, Copy, Debug)]
pub struct ImportSec<'a> {
    count: u32,
    imports: &'a [u8],
}

impl<'a> View for ImportSec<'a> {
    type V = (u32, Seq<u8>);

    /// The number of imports announced, and the bytes that encode them.
    closed spec fn view(&self) -> (u32, Seq<u8>) {
        (self.count, self.imports@)
    }
}

/// The meaning of [`ImportSec::parse`]: a vector length, then the encoded imports.
pub open spec fn spec_import_sec(s: Seq<u8>) -> Result<(u32, Seq<u8>), (nat, ErrorCause)> {
    match spec_vector_length(s) {
        Err(e) => Err(e),
        Ok((n, count)) => Ok((count, s.skip(n as int))),
    }
}

/// The meaning of [`ImportSec::parse_all_contents`]: `count` imports that take up all of `s`.
pub open spec fn spec_import_sec_contents(count: u32, s: Seq<u8>) -> Result<Seq<(Seq<char>, Seq<char>, ImportDesc)>, (nat, ErrorCause)> {
    match spec_repeat(s, count as nat, |t: Seq<u8>| spec_import(t)) {
        Err(e) => Err(e),
        Ok((n, imports)) => if n == s.len() {
            Ok(imports)
        } else {
            Err((n, ErrorCause::Nom(ErrorKind::Eof)))
        },
    }
}

impl<'a> ImportSec<'a> {
    /// Parses an *import section* from a section's contents.
    pub fn parse<E: ErrorSource<'a>>(contents: &'a [u8]) -> (res: Result<ImportSec<'a>, E>)
        ensures
            agrees_value(contents@, res, spec_import_sec(contents@)),
    {
        match vector_length(contents) {
            Ok((imports, count)) => Ok(ImportSec { count, imports }),
            Err(e) => Err(e),
        }
    }

    /// The expected number of [`Import`]s within the section.
    pub fn count(&self) -> (r: usize)
        ensures
            r == self@.0,
    {
        self.count as usize
    }

    /// Parses all of the [`Import`]s within the section, which must be exactly the announced
    /// number of imports.
    #[verifier::spinoff_prover]
    #[verifier::rlimit(40)]
    pub fn parse_all_contents<E: ErrorSource<'a>>(&self) -> (res: Result<Vec<Import<'a>>, E>)
        ensures
            match spec_import_sec_contents(self@.0, self@.1) {
                Ok(imports) => res matches Ok(v) && v@.len() == imports.len()
                    && forall|i: int| 0 <= i < imports.len() ==> #[trigger] v@[i]@ == imports[i],
                Err((at, cause)) => res matches Err(e) && error_at(self@.1, e, at, cause),
            },
    {
        let ghost s = self.imports@;
        let ghost f = |t: Seq<u8>| spec_import(t);
        let count: u32 = self.count;
        let mut rest: &'a [u8] = self.imports;
        let mut imports: Vec<Import<'a>> = Vec::new();
        let mut i: u32 = 0;
        while i < count
            invariant
                i <= count,
                count == self@.0,
                s == self@.1,
                f == (|t: Seq<u8>| spec_import(t)),
                rest@.len() <= s.len(),
                rest@ == s.skip(s.len() - rest@.len()),
                spec_repeat(s, i as nat, f) matches Ok((n, all)) && n == s.len() - rest@.len()
                    && imports@.len() == all.len()
                    && forall|j: int| 0 <= j < all.len() ==> #[trigger] imports@[j]@ == all[j],
            decreases count - i,
        {
            let ghost prev = spec_repeat(s, i as nat, f)->Ok_0.1;
            match Import::parse(rest) {
                Ok((next, import)) => {
                    imports.push(import);
                    rest = next;
                    proof {
                        let now = spec_repeat(s, (i + 1) as nat, f)->Ok_0.1;
                        assert(now == prev.push(import@));
                        assert forall|j: int| 0 <= j < now.len() implies #[trigger] imports@[j]@ == now[j] by {
                            if j < prev.len() {
                            }
                        }
                    }
                },
                Err(e) => {
                    proof {
                        lemma_repeat_err(s, (i + 1) as nat, count as nat, f);
                    }
                    return Err(e);
                },
            }
            i = i + 1;
        }
        if rest.len() == 0 {
            Ok(imports)
        } else {
            Err(E::from_error_cause(rest, ErrorCause::Nom(ErrorKind::Eof)))
        }
    }
}

impl<'a> AsInput<'a> for ImportSec<'a> {
    /// The bytes that encode the imports.
    open spec fn input_bytes(&self) -> Seq<u8> {
        self@.1
    }

    fn as_input(&self) -> (r: &'a [u8]) {
        self.imports
    }
}

impl<'a> Default for ImportSec<'a> {
    /// A section that announces no items.
    fn default() -> (r: Self)
        ensures
            r@ == (0u32, Seq::<u8>::empty()),
    {
        let imports: &'a [u8] = &[];
        assert(imports@ =~= Seq::<u8>::empty());
        ImportSec { count: 0, imports }
    }
}

} // verus!
