//! The contents of [custom sections] within a WebAssembly module.
//!
//! [custom sections]: https://webassembly.github.io/spec/core/binary/modules.html#custom-section

use vstd::prelude::*;
use vstd::utf8::{decode_utf8, valid_utf8};

use crate::error::{agrees_value, group_skip, ErrorCause, ErrorSource};
use crate::section::Section;
use crate::leb128::unsigned_encoding;
use crate::values::{lemma_name_layout, name, spec_name};

verus! {

broadcast use group_skip;

/// The byte *id* of custom sections in a WebAssembly module.
pub const CUSTOM_SECTION_ID: u8 = 0;

/// Represents a [*custom section*] within a WebAssembly module.
///
/// [*custom section*]: https://webassembly.github.io/spec/core/appendix/custom.html
#[derive(Clone, Copy, Debug, PartialEq, Eq)]
pub struct CustomSection<'a> {
    /// The name of the custom section.
    pub name: &'a str,
    /// The contents of the custom section that follow its name.
    pub contents: &'a [u8],
}

impl<'a> View for CustomSection<'a> {
    type V = (Seq<char>, Seq<u8>);

    /// The name, and the contents that follow it.
    open spec fn view(&self) -> (Seq<char>, Seq<u8>) {
        (self.name@, self.contents@)
    }
}

/// The meaning of [`CustomSection::parse`]: a name, then the rest of the contents.
pub open spec fn spec_custom_section(s: Seq<u8>) -> Result<(Seq<char>, Seq<u8>), (nat, crate::error::ErrorCause)> {
    match spec_name(s) {
        Err(e) => Err(e),
        Ok((n, name)) => Ok((name, s.skip(n as int))),
    }
}

/// A custom section's contents are its name, then any bytes: reading contents written that way
/// gives back the name's text and exactly the bytes after the name.
pub proof fn lemma_custom_section_layout(name: Seq<u8>, rest: Seq<u8>)
    requires
        name.len() <= u32::MAX,
        valid_utf8(name),
    ensures
        spec_custom_section(unsigned_encoding(name.len()) + name + rest) == Ok::<(Seq<char>, Seq<u8>), (nat, crate::error::ErrorCause)>(
            (decode_utf8(name), rest)),
{
    let t = unsigned_encoding(name.len()) + name + rest;
    lemma_name_layout(name, rest);
    assert(t.skip((unsigned_encoding(name.len()).len() + name.len()) as int) =~= rest);
}

impl<'a> CustomSection<'a> {
    /// Parses a custom section from a [`Section`]'s contents.
    pub fn parse<E: ErrorSource<'a>>(input: &'a [u8]) -> (res: Result<CustomSection<'a>, E>)
        ensures
            agrees_value(input@, res, spec_custom_section(input@)),
    {
        match name(input) {
            Ok((contents, name)) => Ok(CustomSection { name, contents }),
            Err(e) => Err(E::append_with_cause(input, ErrorCause::CustomSectionName, e)),
        }
    }

    /// Attempts to interpret the contents of a WebAssembly module [`Section`] as a
    /// [`CustomSection`]: `Err(section)` if the section is not a custom section (its *id* is not
    /// `0`), otherwise the result of parsing its contents.
    pub fn interpret_section<'b, E: ErrorSource<'a>>(section: &'b Section<'a>) -> (res: Result<Result<CustomSection<'a>, E>, &'b Section<'a>>)
        ensures
            section.id == CUSTOM_SECTION_ID ==> (res matches Ok(r) && agrees_value(section.contents@, r, spec_custom_section(section.contents@))),
            section.id != CUSTOM_SECTION_ID ==> res == Err::<Result<CustomSection<'a>, E>, &'b Section<'a>>(section),
    {
        if section.id == CUSTOM_SECTION_ID {
            Ok(Self::parse(section.contents))
        } else {
            Err(section)
        }
    }
}

} // verus!
