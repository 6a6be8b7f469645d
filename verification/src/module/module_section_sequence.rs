//! The sequence of sections in a module, checked to be in the order the binary format requires.

use vstd::prelude::*;

use crate::error::{error_at, ErrorCause, ErrorSource};
use crate::module::import_sec::ImportSec;
use crate::module::module_section::{
    spec_interpret, spec_module_section_id, ModuleSection, ModuleSectionId, ModuleSectionView,
};
use crate::module::type_sec::TypeSec;
use crate::ordering::{spec_check, OrderTracker, OrderingError, Ranked};
use crate::section::{lemma_section_progress, spec_next_section, spec_section, Section, Sequence};

verus! {

/// Defines the ordering of non-custom sections within a WebAssembly module.
#[derive(Clone, Copy, Debug, PartialEq, Eq, PartialOrd, Ord, Hash)]
#[non_exhaustive]
pub enum ModuleSectionOrder {
    Type,
    Import,
    Func,
    Table,
    Mem,
    Tag,
    Global,
    Export,
    Start,
    Elem,
    DataCount,
    Code,
    Data,
}

/// The position of each section in a module.
pub open spec fn spec_section_rank(o: ModuleSectionOrder) -> u32 {
    match o {
        ModuleSectionOrder::Type => 0,
        ModuleSectionOrder::Import => 1,
        ModuleSectionOrder::Func => 2,
        ModuleSectionOrder::Table => 3,
        ModuleSectionOrder::Mem => 4,
        ModuleSectionOrder::Tag => 5,
        ModuleSectionOrder::Global => 6,
        ModuleSectionOrder::Export => 7,
        ModuleSectionOrder::Start => 8,
        ModuleSectionOrder::Elem => 9,
        ModuleSectionOrder::DataCount => 10,
        ModuleSectionOrder::Code => 11,
        ModuleSectionOrder::Data => 12,
    }
}

impl Ranked for ModuleSectionOrder {
    open spec fn spec_rank(&self) -> int {
        spec_section_rank(*self) as int
    }

    fn precedes(&self, other: &Self) -> (r: bool) {
        self.position() < other.position()
    }

    fn ties(&self, other: &Self) -> (r: bool) {
        self.position() == other.position()
    }
}

impl ModuleSectionOrder {
    /// Gets the position of the section in the order of a module.
    pub fn position(&self) -> (r: u32)
        ensures
            r == spec_section_rank(*self),
    {
        match self {
            ModuleSectionOrder::Type => 0,
            ModuleSectionOrder::Import => 1,
            ModuleSectionOrder::Func => 2,
            ModuleSectionOrder::Table => 3,
            ModuleSectionOrder::Mem => 4,
            ModuleSectionOrder::Tag => 5,
            ModuleSectionOrder::Global => 6,
            ModuleSectionOrder::Export => 7,
            ModuleSectionOrder::Start => 8,
            ModuleSectionOrder::Elem => 9,
            ModuleSectionOrder::DataCount => 10,
            ModuleSectionOrder::Code => 11,
            ModuleSectionOrder::Data => 12,
        }
    }
}

/// The known non-custom sections of a module come in the order the binary format lays down:
/// type, import, function, table, memory, tag, global, export, start, element, data count, code
/// and data. Each one's position is below the next one's, so each may follow all those listed
/// before it and none listed after it. Custom sections take no place in that order; the type
/// and import sections take theirs.
pub proof fn lemma_section_order()
    ensures
        spec_section_order(ModuleSectionId::Custom) is None,
        spec_section_order(ModuleSectionId::Type) == Some(ModuleSectionOrder::Type),
        spec_section_order(ModuleSectionId::Import) == Some(ModuleSectionOrder::Import),
        spec_section_rank(ModuleSectionOrder::Type) < spec_section_rank(ModuleSectionOrder::Import),
        spec_section_rank(ModuleSectionOrder::Import) < spec_section_rank(ModuleSectionOrder::Func),
        spec_section_rank(ModuleSectionOrder::Func) < spec_section_rank(ModuleSectionOrder::Table),
        spec_section_rank(ModuleSectionOrder::Table) < spec_section_rank(ModuleSectionOrder::Mem),
        spec_section_rank(ModuleSectionOrder::Mem) < spec_section_rank(ModuleSectionOrder::Tag),
        spec_section_rank(ModuleSectionOrder::Tag) < spec_section_rank(ModuleSectionOrder::Global),
        spec_section_rank(ModuleSectionOrder::Global) < spec_section_rank(ModuleSectionOrder::Export),
        spec_section_rank(ModuleSectionOrder::Export) < spec_section_rank(ModuleSectionOrder::Start),
        spec_section_rank(ModuleSectionOrder::Start) < spec_section_rank(ModuleSectionOrder::Elem),
        spec_section_rank(ModuleSectionOrder::Elem) < spec_section_rank(ModuleSectionOrder::DataCount),
        spec_section_rank(ModuleSectionOrder::DataCount) < spec_section_rank(ModuleSectionOrder::Code),
        spec_section_rank(ModuleSectionOrder::Code) < spec_section_rank(ModuleSectionOrder::Data),
        forall|a: ModuleSectionOrder, b: ModuleSectionOrder| #![trigger spec_check(Some(a), b)]
            spec_section_rank(a) < spec_section_rank(b) ==> spec_check(Some(a), b) == Ok::<
                Option<ModuleSectionOrder>, OrderingError<ModuleSectionOrder>>(Some(b)),
{
}

/// Two sections with the same position are the same section.
pub proof fn lemma_section_rank_injective(a: ModuleSectionOrder, b: ModuleSectionOrder)
    ensures
        spec_section_rank(a) == spec_section_rank(b) ==> a == b,
{
}

/// Where a section-level failure is reported: at an offset of the section's contents, or at the
/// start of the section.
pub enum SectionErr {
    InContents(nat, ErrorCause),
    AtStart(ErrorCause),
}

/// The position in the order of sections of a known section; `None` for custom sections, which
/// may appear anywhere.
pub open spec fn spec_section_order(id: ModuleSectionId) -> Option<ModuleSectionOrder> {
    match id {
        ModuleSectionId::Custom => None,
        ModuleSectionId::Type => Some(ModuleSectionOrder::Type),
        ModuleSectionId::Import => Some(ModuleSectionOrder::Import),
    }
}

impl ModuleSectionOrder {
    /// Gets the position in the order of sections of a known section; `None` for custom sections.
    pub fn from_section_id(id: ModuleSectionId) -> (r: Option<Self>)
        ensures
            r == spec_section_order(id),
    {
        match id {
            ModuleSectionId::Custom => None,
            ModuleSectionId::Type => Some(ModuleSectionOrder::Type),
            ModuleSectionId::Import => Some(ModuleSectionOrder::Import),
        }
    }
}

/// The meaning of reading a section with *id* byte `id` and `contents` when `previous` is the last
/// known section read so far: the section if it is a known one (`None` otherwise) together with
/// the new last known section, or the failure.
pub open spec fn spec_unknown_section(id: u8, contents: Seq<u8>, previous: Option<ModuleSectionOrder>)
    -> Result<(Option<ModuleSectionView>, Option<ModuleSectionOrder>), SectionErr>
{
    match spec_interpret(id, contents) {
        None => Ok((None, previous)),
        Some(Err((at, cause))) => Err(SectionErr::InContents(at, cause)),
        Some(Ok(m)) => match spec_section_order(spec_module_section_id(m)) {
            None => Ok((Some(m), previous)),
            Some(o) => match spec_check(previous, o) {
                Ok(p) => Ok((Some(m), p)),
                Err(oe) => Err(SectionErr::AtStart(ErrorCause::ModuleSectionOrder(oe))),
            },
        },
    }
}

/// Represents either a [`ModuleSection`] or a section with an unknown *id*.
#[derive(Clone, Copy, Debug)]
pub struct UnknownModuleSection<'a> {
    remaining: &'a [u8],
    section: Section<'a>,
    known: Option<ModuleSection<'a>>,
    ordering: OrderTracker<ModuleSectionOrder>,
}

impl<'a> UnknownModuleSection<'a> {
    /// The input starting with the section.
    pub closed spec fn spec_remaining(&self) -> Seq<u8> {
        self.remaining@
    }

    /// The section.
    pub closed spec fn spec_section(&self) -> (u8, Seq<u8>) {
        self.section@
    }

    /// The section read as a known module section, if it is one.
    pub closed spec fn spec_known(&self) -> Option<ModuleSectionView> {
        match self.known {
            Some(m) => Some(m@),
            None => None,
        }
    }

    /// The last known section read before this one.
    pub closed spec fn spec_ordering(&self) -> Option<ModuleSectionOrder> {
        self.ordering@
    }

    /// Reads a section, checking the order of known sections against `ordering`, which records
    /// the section if it is in order.
    fn new<E: ErrorSource<'a>>(remaining: &'a [u8], section: Section<'a>, ordering: &mut OrderTracker<ModuleSectionOrder>) -> (r: Result<Self, E>)
        ensures
            match spec_unknown_section(section.id, section.contents@, old(ordering)@) {
                Ok((known, p)) => r matches Ok(u) && u.spec_known() == known && final(ordering)@ == p
                    && u.spec_remaining() == remaining@ && u.spec_section() == section@
                    && u.spec_ordering() == old(ordering)@,
                Err(SectionErr::InContents(at, cause)) => (r matches Err(e) && error_at(section.contents@, e, at, cause))
                    && final(ordering)@ == old(ordering)@,
                Err(SectionErr::AtStart(cause)) => (r matches Err(e) && error_at(remaining@, e, 0, cause))
                    && final(ordering)@ == old(ordering)@,
            },
    {
        let saved_ordering = *ordering;
        let known = match ModuleSection::interpret_section(&section) {
            Ok(result) => {
                let module_section = match result {
                    Ok(m) => m,
                    Err(e) => return Err(e),
                };
                match ModuleSectionOrder::from_section_id(module_section.id()) {
                    Some(next) => match ordering.check(next) {
                        Ok(()) => {},
                        Err(e) => {
                            proof {
                                assert(remaining@.skip(0) =~= remaining@);
                            }
                            return Err(E::from_error_cause(remaining, ErrorCause::ModuleSectionOrder(e)));
                        },
                    },
                    None => {},
                }
                Some(module_section)
            },
            Err(_) => None,
        };
        Ok(UnknownModuleSection { remaining, section, known, ordering: saved_ordering })
    }

    /// The remaining input, starting with the *id* of this module section.
    pub fn remaining_input(&self) -> (r: &'a [u8])
        ensures
            r@ == self.spec_remaining(),
    {
        self.remaining
    }

    /// Gets the section.
    pub fn section(&self) -> (r: Section<'a>)
        ensures
            r@ == self.spec_section(),
    {
        self.section
    }

    /// Interprets the [`Section`] as a [`ModuleSection`]; `None` if the section was neither a
    /// known module section nor a custom section.
    pub fn to_module_section(&self) -> (r: Option<ModuleSection<'a>>)
        ensures
            match r {
                Some(m) => self.spec_known() == Some(m@),
                None => self.spec_known() is None,
            },
    {
        self.known
    }

    /// The ordering of known sections when this module section was parsed; its previous item is
    /// the last known section read before this one.
    pub fn ordering(&self) -> (r: OrderTracker<ModuleSectionOrder>)
        ensures
            r@ == self.spec_ordering(),
    {
        self.ordering
    }
}

/// What [`ModuleSectionSequence::next`] yields from the remaining input `s` when `previous` is
/// the last known section read: nothing at the end of the input, otherwise the section read
/// (with the remaining input and the last known section after it) or the failure.
pub enum NextModuleSection {
    End,
    Read { known: Option<ModuleSectionView>, id: u8, contents: Seq<u8>, rest: Seq<u8>, previous: Option<ModuleSectionOrder> },
    /// A failure at an offset of the remaining input, with the input that remains after it.
    FailedAt(nat, ErrorCause, Seq<u8>),
    /// A failure at an offset of the contents of the section, with the input that remains after
    /// it.
    FailedInContents(Seq<u8>, nat, ErrorCause, Seq<u8>),
}

/// The meaning of [`ModuleSectionSequence::next`].
pub open spec fn spec_next_module_section(s: Seq<u8>, previous: Option<ModuleSectionOrder>) -> NextModuleSection {
    match spec_next_section(s) {
        None => NextModuleSection::End,
        Some((Err((at, cause)), rest)) => NextModuleSection::FailedAt(at, cause, rest),
        Some((Ok((_, (id, contents))), rest)) => match spec_unknown_section(id, contents, previous) {
            Ok((known, p)) => NextModuleSection::Read { known, id, contents, rest, previous: p },
            Err(SectionErr::InContents(at, cause)) => NextModuleSection::FailedInContents(contents, at, cause, Seq::empty()),
            Err(SectionErr::AtStart(cause)) => NextModuleSection::FailedAt(0, cause, Seq::empty()),
        },
    }
}

/// Parses the sequence of sections that follow the preamble within a WebAssembly module, checking
/// that known non-custom sections come in the order given by [`ModuleSectionOrder`].
#[derive(Clone, Copy, Debug)]
pub struct ModuleSectionSequence<'a> {
    sections: Sequence<'a>,
    ordering: OrderTracker<ModuleSectionOrder>,
}

impl<'a> View for ModuleSectionSequence<'a> {
    type V = (Seq<u8>, Option<ModuleSectionOrder>);

    /// The input that is yet to be parsed, and the last known section read.
    closed spec fn view(&self) -> (Seq<u8>, Option<ModuleSectionOrder>) {
        (self.sections@, self.ordering@)
    }
}

impl<'a> ModuleSectionSequence<'a> {
    /// Creates a sequence over the sections in `input`, with no section read yet.
    pub fn new(input: &'a [u8]) -> (r: Self)
        ensures
            r@ == (input@, None::<ModuleSectionOrder>),
    {
        ModuleSectionSequence { sections: Sequence::new(input), ordering: OrderTracker::new() }
    }

    /// Gets the current ordering of known sections.
    pub fn ordering(&self) -> (r: OrderTracker<ModuleSectionOrder>)
        ensures
            r@ == self@.1,
    {
        self.ordering
    }

    /// Parses the next section: `None` once the input is used up. After an error, no input
    /// remains, so the error is the last item.
    pub fn next<E: ErrorSource<'a>>(&mut self) -> (r: Option<Result<UnknownModuleSection<'a>, E>>)
        ensures
            match spec_next_module_section(old(self)@.0, old(self)@.1) {
                NextModuleSection::End => r is None && final(self)@ == old(self)@,
                NextModuleSection::Read { known, id, contents, rest, previous } => r matches Some(Ok(u))
                    && u.spec_known() == known && u.spec_section() == (id, contents)
                    && u.spec_remaining() == old(self)@.0 && u.spec_ordering() == old(self)@.1
                    && final(self)@ == (rest, previous),
                NextModuleSection::FailedAt(at, cause, rest) => (r matches Some(Err(e))
                    && error_at(old(self)@.0, e, at, cause)) && final(self)@ == (rest, old(self)@.1),
                NextModuleSection::FailedInContents(contents, at, cause, rest) => (r matches Some(Err(e))
                    && error_at(contents, e, at, cause)) && final(self)@ == (rest, old(self)@.1),
            },
    {
        match self.sections.next() {
            None => None,
            Some(Err(e)) => Some(Err(e)),
            Some(Ok((remaining, section))) => {
                let r = UnknownModuleSection::new(remaining, section, &mut self.ordering);
                if r.is_err() {
                    let (empty, _) = remaining.split_at(0);
                    self.sections = Sequence::new(empty);
                }
                Some(r)
            },
        }
    }
}

/// An error is the last item of a sequence of module sections: after a failure, no input remains,
/// so the next call yields nothing.
pub proof fn lemma_error_is_last(s: Seq<u8>, previous: Option<ModuleSectionOrder>, later: Option<ModuleSectionOrder>)
    ensures
        spec_next_module_section(s, previous) matches NextModuleSection::FailedAt(_, _, rest)
            ==> spec_next_module_section(rest, later) is End,
        spec_next_module_section(s, previous) matches NextModuleSection::FailedInContents(_, _, _, rest)
            ==> spec_next_module_section(rest, later) is End,
{
}

} // verus!
