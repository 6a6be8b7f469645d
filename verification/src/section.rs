//! Parsing of WebAssembly [sections]: an *id* byte, a *LEB128* encoded length, and that many
//! bytes of contents.
//!
//! A sequence of sections is a common structure in the WebAssembly binary format, used not only
//! in modules, but also in some custom sections.
//!
//! [sections]: https://webassembly.github.io/spec/core/binary/modules.html#sections

use vstd::prelude::*;

use crate::input::AsInput;

use crate::error::{agrees, group_skip, shift, ErrorCause, ErrorSource, LengthMismatch, Outcome, Parsed};
use crate::leb128::{leb128_u32, lemma_leb128_round_trips, spec_leb128_u32, unsigned_encoding};
use crate::values::saturate_u32;

verus! {

broadcast use group_skip;

/// Represents a [WebAssembly section](https://webassembly.github.io/spec/core/binary/modules.html#sections).
#[derive(Clone, Copy, Debug, PartialEq, Eq, Hash)]
pub struct Section<'a> {
    /// The *id* for this section.
    pub id: u8,
    /// The contents of the section.
    pub contents: &'a [u8],
}

impl<'a> View for Section<'a> {
    type V = (u8, Seq<u8>);

    /// The id and the contents.
    open spec fn view(&self) -> (u8, Seq<u8>) {
        (self.id, self.contents@)
    }
}

/// The meaning of [`Section::parse`].
pub open spec fn spec_section(s: Seq<u8>) -> Outcome<(u8, Seq<u8>)> {
    if s.len() == 0 {
        Err((0, ErrorCause::SectionId))
    } else {
        match shift(1, spec_leb128_u32(s.skip(1))) {
            Err(e) => Err(e),
            Ok((n, len)) => if n + len <= s.len() {
                Ok(((n + len) as nat, (s[0], s.subrange(n as int, n + len))))
            } else {
                Err((n, ErrorCause::SectionContents(LengthMismatch {
                    expected: len,
                    actual: saturate_u32((s.len() - n) as nat),
                })))
            },
        }
    }
}

/// A section is its *id* byte, then the length of its contents as a *LEB128* `u32`, then exactly
/// that many bytes of contents: reading one written that way, whatever follows it, gives back the
/// *id* and the contents, and reads exactly those bytes.
pub proof fn lemma_section_layout(id: u8, contents: Seq<u8>, rest: Seq<u8>)
    requires
        contents.len() <= u32::MAX,
    ensures
        spec_section(seq![id] + unsigned_encoding(contents.len()) + contents + rest) == Outcome::<(u8, Seq<u8>)>::Ok(
            ((1 + unsigned_encoding(contents.len()).len() + contents.len()) as nat, (id, contents))),
{
    let e = unsigned_encoding(contents.len());
    let t = seq![id] + e + contents + rest;
    lemma_leb128_round_trips(contents + rest, contents.len() as u32, 0, 0, 0);
    assert(t.skip(1) =~= e + (contents + rest));
    assert(t[0] == id);
    let n = 1 + e.len();
    assert(t.subrange(n as int, (n + contents.len()) as int) =~= contents);
}

/// A parsed section takes at least two bytes: its id and its length.
pub proof fn lemma_section_progress(s: Seq<u8>)
    ensures
        spec_section(s) matches Ok((n, _)) ==> 2 <= n <= s.len(),
{
    if s.len() > 0 {
        crate::leb128::lemma_unsigned_bounds(s.skip(1), 32);
    }
}

impl<'a> Section<'a> {
    /// Parses a [`Section`] from the given `input`, giving back the input that follows its
    /// contents.
    pub fn parse<E: ErrorSource<'a>>(input: &'a [u8]) -> (res: Parsed<'a, Section<'a>, E>)
        ensures
            agrees(input@, res, spec_section(input@)),
    {
        if input.len() == 0 {
            return Err(E::from_error_cause(input, ErrorCause::SectionId));
        }
        let id: u8 = input[0];
        let (_, after_id) = input.split_at(1);
        let (rest, length) = match leb128_u32(after_id) {
            Ok(x) => x,
            Err(e) => return Err(E::append_with_cause(after_id, ErrorCause::SectionLength, e)),
        };
        let ghost n: int = input@.len() - rest@.len();
        assert(rest@ == input@.skip(n));
        if (length as usize) <= rest.len() {
            let (contents, after) = rest.split_at(length as usize);
            assert(contents@ == input@.subrange(n, n + length));
            Ok((after, Section { id, contents }))
        } else {
            let actual: u32 = if rest.len() <= u32::MAX as usize { rest.len() as u32 } else { u32::MAX };
            Err(E::from_error_cause(rest, ErrorCause::SectionContents(LengthMismatch { expected: length, actual })))
        }
    }

    /// Creates a new [`Section`] with the given *id* and `contents`.
    pub fn new(id: u8, contents: &'a [u8]) -> (r: Self)
        ensures
            r.id == id && r.contents == contents,
    {
        Self { id, contents }
    }
}

/// The meaning of parsing sections until the input runs out: the sections read, or the first
/// error.
pub open spec fn spec_sections(s: Seq<u8>) -> Result<Seq<(u8, Seq<u8>)>, (nat, ErrorCause)>
    decreases s.len(),
{
    if s.len() == 0 {
        Ok(Seq::empty())
    } else {
        match spec_section(s) {
            Err(e) => Err(e),
            Ok((n, sec)) => if 0 < n <= s.len() {
                match spec_sections(s.skip(n as int)) {
                    Ok(rest) => Ok(seq![sec] + rest),
                    Err((at, cause)) => Err((n + at, cause)),
                }
            } else {
                Ok(seq![sec])
            },
        }
    }
}

/// Every section takes at least two bytes, so an input holds at most half as many sections as it
/// has bytes, rounded up.
pub proof fn lemma_sections_count(s: Seq<u8>)
    ensures
        spec_sections(s) matches Ok(secs) ==> secs.len() <= (s.len() + 1) / 2,
    decreases s.len(),
{
    if s.len() > 0 {
        lemma_section_progress(s);
        if let Ok((n, _)) = spec_section(s) {
            lemma_sections_count(s.skip(n as int));
        }
    }
}

/// Parses a sequence of WebAssembly [`Section`]s.
///
/// Each call to [`Sequence::next`] yields both the remaining input before the [`Section`] was
/// parsed and the [`Section`] itself.
#[derive(Clone, Copy, Debug)]
pub struct Sequence<'a> {
    input: &'a [u8],
}

impl<'a> View for Sequence<'a> {
    type V = Seq<u8>;

    /// The input that is yet to be parsed.
    closed spec fn view(&self) -> Seq<u8> {
        self.input@
    }
}

/// What [`Sequence::next`] yields from the remaining input `s`, with the remaining input after:
/// nothing at the end of the input, otherwise the next section or the error, after which the
/// remaining input is empty.
pub open spec fn spec_next_section(s: Seq<u8>) -> Option<(Outcome<(u8, Seq<u8>)>, Seq<u8>)> {
    if s.len() == 0 {
        None
    } else {
        match spec_section(s) {
            Ok((n, sec)) => Some((Ok((n, sec)), s.skip(n as int))),
            Err(e) => Some((Err(e), Seq::empty())),
        }
    }
}

/// An error is the last item of a sequence of sections: after a failure, no input remains, so
/// the next call yields nothing.
pub proof fn lemma_error_ends_sequence(s: Seq<u8>)
    ensures
        spec_next_section(s) matches Some((Err(_), after)) ==> spec_next_section(after) is None,
{
}

impl<'a> Sequence<'a> {
    /// Creates a new [`Sequence`] from the entirety of the given `input`.
    pub fn new(input: &'a [u8]) -> (r: Self)
        ensures
            r@ == input@,
    {
        Self { input }
    }

    /// Parses the next section: `None` once the input is used up; after an error, the remaining
    /// input is empty, so parsing stops.
    pub fn next<E: ErrorSource<'a>>(&mut self) -> (r: Option<Result<(&'a [u8], Section<'a>), E>>)
        ensures
            match spec_next_section(old(self)@) {
                None => r is None && final(self)@ == old(self)@,
                Some((o, after)) => final(self)@ == after && match r {
                    Some(Ok((start, section))) => start@ == old(self)@ && (o matches Ok((_, v)) && section@ == v),
                    Some(Err(e)) => (o matches Err((at, cause)) && crate::error::error_at(old(self)@, e, at, cause)),
                    None => false,
                },
            },
    {
        if self.input.len() == 0 {
            return None;
        }
        let start = self.input;
        match Section::parse(self.input) {
            Ok((remaining, section)) => {
                self.input = remaining;
                Some(Ok((start, section)))
            },
            Err(e) => {
                let (empty, _) = self.input.split_at(0);
                self.input = empty;
                Some(Err(e))
            },
        }
    }

    /// Returns an estimate of the remaining number of sections: at least one while input remains,
    /// with no upper bound given.
    pub fn size_hint(&self) -> (r: (usize, Option<usize>))
        ensures
            r.0 == (if self@.len() == 0 { 0usize } else { 1usize }),
            r.1 is None,
    {
        (if self.input.len() == 0 { 0 } else { 1 }, None)
    }

    /// Parses all of the remaining [`Section`]s, failing with the first error.
    #[verifier::spinoff_prover]
    #[verifier::rlimit(40)]
    pub fn finish<E: ErrorSource<'a>>(self) -> (r: Result<(), E>)
        ensures
            match spec_sections(self@) {
                Ok(_) => r is Ok,
                Err((at, cause)) => r matches Err(e) && crate::error::error_at(self@, e, at, cause),
            },
    {
        let ghost original = self@;
        let mut this = Sequence { input: self.input };
        loop
            invariant
                original == self@,
                this@.len() <= original.len(),
                this@ == original.skip(original.len() - this@.len()),
                match spec_sections(this@) {
                    Ok(_) => spec_sections(original) is Ok,
                    Err((at, cause)) => spec_sections(original) == Err::<Seq<(u8, Seq<u8>)>, (nat, ErrorCause)>(
                        ((original.len() - this@.len() + at) as nat, cause)),
                },
            decreases this@.len(),
        {
            let ghost before = this@;
            proof {
                lemma_section_progress(before);
            }
            match this.next() {
                None => return Ok(()),
                Some(Ok(_)) => {},
                Some(Err(e)) => return Err(e),
            }
        }
    }
}

impl<'a> AsInput<'a> for Sequence<'a> {
    /// The input that is yet to be parsed.
    open spec fn input_bytes(&self) -> Seq<u8> {
        self@
    }

    fn as_input(&self) -> (r: &'a [u8]) {
        self.input
    }
}

/// Represents a sequence of WebAssembly [`Section`]s, each parsed on demand.
#[derive(Clone, Copy, Debug, Default)]
pub struct SectionSequence<'a> {
    input: &'a [u8],
}

impl<'a> View for SectionSequence<'a> {
    type V = Seq<u8>;

    /// The input that is yet to be parsed.
    closed spec fn view(&self) -> Seq<u8> {
        self.input@
    }
}

impl<'a> From<&'a [u8]> for SectionSequence<'a> {
    fn from(input: &'a [u8]) -> (r: Self)
        ensures
            r@ == input@,
    {
        SectionSequence { input }
    }
}

impl<'a> vstd::std_specs::convert::FromSpecImpl<&'a [u8]> for SectionSequence<'a> {
    open spec fn obeys_from_spec() -> bool {
        true
    }

    closed spec fn from_spec(v: &'a [u8]) -> Self {
        SectionSequence { input: v }
    }
}

impl<'a> SectionSequence<'a> {
    /// Parses the next section: `None` once the input is used up; after an error, the remaining
    /// input is empty, so parsing stops.
    pub fn next<E: ErrorSource<'a>>(&mut self) -> (r: Option<Result<Section<'a>, E>>)
        ensures
            match spec_next_section(old(self)@) {
                None => r is None && final(self)@ == old(self)@,
                Some((o, after)) => final(self)@ == after && match r {
                    Some(Ok(section)) => (o matches Ok((_, v)) && section@ == v),
                    Some(Err(e)) => (o matches Err((at, cause)) && crate::error::error_at(old(self)@, e, at, cause)),
                    None => false,
                },
            },
    {
        if self.input.len() == 0 {
            return None;
        }
        match Section::parse(self.input) {
            Ok((remaining, section)) => {
                self.input = remaining;
                Some(Ok(section))
            },
            Err(e) => {
                let (empty, _) = self.input.split_at(0);
                self.input = empty;
                Some(Err(e))
            },
        }
    }
}

impl<'a> SectionSequence<'a> {
    /// Returns bounds on the remaining number of sections: at least one while input remains, and
    /// at most half the remaining bytes, rounded up, since each section takes at least two bytes.
    pub fn size_hint(&self) -> (r: (usize, Option<usize>))
        ensures
            r.0 == (if self@.len() == 0 { 0usize } else { 1usize }),
            r.1 == Some(((self@.len() + 1) / 2) as usize),
    {
        let n: usize = self.input.len();
        (if n == 0 { 0 } else { 1 }, Some(n / 2 + n % 2))
    }
}

impl<'a> AsInput<'a> for SectionSequence<'a> {
    open spec fn input_bytes(&self) -> Seq<u8> {
        self@
    }

    fn as_input(&self) -> (r: &'a [u8]) {
        self.input
    }
}

} // verus!
