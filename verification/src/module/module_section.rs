//! The well-known sections of a WebAssembly module.

use vstd::prelude::*;

use crate::error::{agrees_value, ErrorCause, ErrorSource, InvalidTag};
use crate::module::custom::{spec_custom_section, CustomSection};
use crate::module::import_sec::{spec_import_sec, ImportSec};
use crate::module::type_sec::{spec_type_sec, TypeSec};
use crate::section::Section;

verus! {

/// Represents the *id* of a known WebAssembly [`ModuleSection`].
#[derive(Clone, Copy, Debug, PartialEq, Eq, Hash)]
#[non_exhaustive]
pub enum ModuleSectionId {
    Custom,
    Type,
    Import,
}

/// The byte that encodes each section *id*.
pub open spec fn spec_section_id_byte(id: ModuleSectionId) -> u8 {
    match id {
        ModuleSectionId::Custom => 0,
        ModuleSectionId::Type => 1,
        ModuleSectionId::Import => 2,
    }
}

/// The section *id* that a byte encodes, if any.
pub open spec fn spec_section_id(b: u8) -> Option<ModuleSectionId> {
    if b == 0 {
        Some(ModuleSectionId::Custom)
    } else if b == 1 {
        Some(ModuleSectionId::Type)
    } else if b == 2 {
        Some(ModuleSectionId::Import)
    } else {
        None
    }
}

/// The section *id* bytes are those the binary format assigns: `0` a custom section, `1` the
/// type section and `2` the import section; each section's *id* is encoded by that same byte, and
/// the contents of a section are read as what its *id* byte says.
pub proof fn lemma_section_id_bytes(contents: Seq<u8>)
    ensures
        spec_section_id(0) == Some(ModuleSectionId::Custom),
        spec_section_id(1) == Some(ModuleSectionId::Type),
        spec_section_id(2) == Some(ModuleSectionId::Import),
        spec_section_id_byte(ModuleSectionId::Custom) == 0,
        spec_section_id_byte(ModuleSectionId::Type) == 1,
        spec_section_id_byte(ModuleSectionId::Import) == 2,
        spec_interpret(0, contents) matches Some(Ok(m)) ==> m is Custom,
        spec_interpret(1, contents) matches Some(Ok(m)) ==> m is Type,
        spec_interpret(2, contents) matches Some(Ok(m)) ==> m is Import,
        spec_interpret(0, contents) is Some && spec_interpret(1, contents) is Some && spec_interpret(2, contents) is Some,
{
}

impl ModuleSectionId {
    /// Converts from a byte, returning `None` if it is not a known section *id*.
    pub fn new(tag: u8) -> (r: Option<Self>)
        ensures
            r == spec_section_id(tag),
    {
        if tag == 0 {
            Some(ModuleSectionId::Custom)
        } else if tag == 1 {
            Some(ModuleSectionId::Type)
        } else if tag == 2 {
            Some(ModuleSectionId::Import)
        } else {
            None
        }
    }

    /// Converts from a byte, failing with the byte if it is not a known section *id*.
    pub fn try_from_byte(tag: u8) -> (r: Result<Self, InvalidTag>)
        ensures
            match spec_section_id(tag) {
                Some(id) => r == Ok::<ModuleSectionId, InvalidTag>(id),
                None => r == Err::<ModuleSectionId, InvalidTag>(InvalidTag::ModuleSectionId(tag)),
            },
    {
        match Self::new(tag) {
            Some(id) => Ok(id),
            None => Err(InvalidTag::ModuleSectionId(tag)),
        }
    }

    /// Gets the byte that encodes this section *id*.
    pub fn to_byte(self) -> (r: u8)
        ensures
            r == spec_section_id_byte(self),
    {
        match self {
            ModuleSectionId::Custom => 0,
            ModuleSectionId::Type => 1,
            ModuleSectionId::Import => 2,
        }
    }
}

/// Reading a section *id* back from its byte gives the same *id*.
pub proof fn lemma_section_id_roundtrip(id: ModuleSectionId, b: u8)
    ensures
        spec_section_id(spec_section_id_byte(id)) == Some(id),
        spec_section_id(b) matches Some(i) ==> spec_section_id_byte(i) == b,
{
}

/// Represents a well-known WebAssembly module *section* or a [`CustomSection`].
#[derive(Clone, Copy, Debug)]
#[non_exhaustive]
pub enum ModuleSection<'a> {
    /// A *custom section*, which can appear anywhere within a module.
    Custom(CustomSection<'a>),
    /// The *type section*.
    Type(TypeSec<'a>),
    /// The *import section*.
    Import(ImportSec<'a>),
}

/// The meaning of a [`ModuleSection`].
pub enum ModuleSectionView {
    Custom { name: Seq<char>, contents: Seq<u8> },
    Type { count: u32, contents: Seq<u8> },
    Import { count: u32, contents: Seq<u8> },
}

impl<'a> View for ModuleSection<'a> {
    type V = ModuleSectionView;

    open spec fn view(&self) -> ModuleSectionView {
        match self {
            ModuleSection::Custom(c) => ModuleSectionView::Custom { name: c@.0, contents: c@.1 },
            ModuleSection::Type(t) => ModuleSectionView::Type { count: t@.0, contents: t@.1 },
            ModuleSection::Import(i) => ModuleSectionView::Import { count: i@.0, contents: i@.1 },
        }
    }
}

/// The *id* of a section.
pub open spec fn spec_module_section_id(m: ModuleSectionView) -> ModuleSectionId {
    match m {
        ModuleSectionView::Custom { .. } => ModuleSectionId::Custom,
        ModuleSectionView::Type { .. } => ModuleSectionId::Type,
        ModuleSectionView::Import { .. } => ModuleSectionId::Import,
    }
}

/// What the contents of a section with the *id* byte `id` mean: `None` if the *id* is not a known
/// one, otherwise the section or the error in its contents.
pub open spec fn spec_interpret(id: u8, contents: Seq<u8>) -> Option<Result<ModuleSectionView, (nat, ErrorCause)>> {
    if id == 0 {
        Some(match spec_custom_section(contents) {
            Ok((name, rest)) => Ok(ModuleSectionView::Custom { name, contents: rest }),
            Err(e) => Err(e),
        })
    } else if id == 1 {
        Some(match spec_type_sec(contents) {
            Ok((count, rest)) => Ok(ModuleSectionView::Type { count, contents: rest }),
            Err(e) => Err(e),
        })
    } else if id == 2 {
        Some(match spec_import_sec(contents) {
            Ok((count, rest)) => Ok(ModuleSectionView::Import { count, contents: rest }),
            Err(e) => Err(e),
        })
    } else {
        None
    }
}

impl<'a> ModuleSection<'a> {
    /// Gets the *id* for the section.
    pub fn id(&self) -> (r: ModuleSectionId)
        ensures
            r == spec_module_section_id(self@),
    {
        match self {
            ModuleSection::Custom(_) => ModuleSectionId::Custom,
            ModuleSection::Type(_) => ModuleSectionId::Type,
            ModuleSection::Import(_) => ModuleSectionId::Import,
        }
    }

    /// Attempts to interpret the contents of a WebAssembly module [`Section`]: `Err(section)` if
    /// the section is neither a known module section nor a custom section, `Ok(Err(_))` if it is
    /// one but could not be parsed.
    pub fn interpret_section<'b, E: ErrorSource<'a>>(section: &'b Section<'a>) -> (res: Result<Result<ModuleSection<'a>, E>, &'b Section<'a>>)
        ensures
            match spec_interpret(section.id, section.contents@) {
                None => res == Err::<Result<ModuleSection<'a>, E>, &'b Section<'a>>(section),
                Some(expected) => res matches Ok(r) && agrees_value(section.contents@, r, expected),
            },
    {
        let id: u8 = section.id;
        if id == 0 {
            Ok(match CustomSection::parse(section.contents) {
                Ok(c) => Ok(ModuleSection::Custom(c)),
                Err(e) => Err(e),
            })
        } else if id == 1 {
            Ok(match TypeSec::parse(section.contents) {
                Ok(t) => Ok(ModuleSection::Type(t)),
                Err(e) => Err(e),
            })
        } else if id == 2 {
            Ok(match ImportSec::parse(section.contents) {
                Ok(i) => Ok(ModuleSection::Import(i)),
                Err(e) => Err(e),
            })
        } else {
            Err(section)
        }
    }
}

} // verus!
