//! A module in the WebAssembly binary format: the preamble, then a sequence of sections.

use vstd::prelude::*;

use crate::error::{group_skip, ErrorCause, ErrorSource, InvalidTag};
use crate::module::custom::CustomSection;
use crate::module::import_sec::ImportSec;
use crate::module::module_section::{spec_interpret, spec_module_section_id, ModuleSection, ModuleSectionView};
use crate::module::module_section_sequence::{
    spec_next_module_section, spec_section_order, spec_unknown_section, ModuleSectionOrder, ModuleSectionSequence,
    NextModuleSection, SectionErr, UnknownModuleSection,
};
use crate::module::preamble::{self, spec_preamble};
use crate::module::type_sec::TypeSec;
use crate::ordering::{all_after, strictly_ascending, Ranked};
use crate::section::{lemma_section_progress, spec_section, Section};

verus! {

broadcast use group_skip;

/// Represents a module in the [WebAssembly binary format], holding the known sections that were
/// read; a section that is absent is empty.
///
/// [WebAssembly binary format]: https://webassembly.github.io/spec/core/binary/modules.html#binary-module
#[derive(Clone, Copy, Debug)]
#[non_exhaustive]
pub struct Module<'a> {
    pub type_sec: TypeSec<'a>,
    pub import_sec: ImportSec<'a>,
}

impl<'a> View for Module<'a> {
    type V = ((u32, Seq<u8>), (u32, Seq<u8>));

    /// The type section and the import section.
    open spec fn view(&self) -> ((u32, Seq<u8>), (u32, Seq<u8>)) {
        (self.type_sec@, self.import_sec@)
    }
}

/// A module with no sections.
pub open spec fn spec_empty_module() -> ((u32, Seq<u8>), (u32, Seq<u8>)) {
    ((0, Seq::empty()), (0, Seq::empty()))
}

impl<'a> Default for Module<'a> {
    /// A module with no sections.
    fn default() -> (r: Self)
        ensures
            r@ == spec_empty_module(),
    {
        Module { type_sec: TypeSec::default(), import_sec: ImportSec::default() }
    }
}

/// Records a known section in a module: the last type section and the last import section read
/// are kept, and custom sections are skipped.
pub open spec fn spec_record(acc: ((u32, Seq<u8>), (u32, Seq<u8>)), m: ModuleSectionView) -> ((u32, Seq<u8>), (u32, Seq<u8>)) {
    match m {
        ModuleSectionView::Custom { .. } => acc,
        ModuleSectionView::Type { count, contents } => ((count, contents), acc.1),
        ModuleSectionView::Import { count, contents } => (acc.0, (count, contents)),
    }
}

/// Moves a range that describes the input after `k` bytes to one that describes the whole input.
pub open spec fn shift_range<V>(k: nat, r: Result<V, (nat, nat, ErrorCause)>) -> Result<V, (nat, nat, ErrorCause)> {
    match r {
        Ok(v) => Ok(v),
        Err((a, b, c)) => Err((k + a, k + b, c)),
    }
}

/// The meaning of reading the sections in `s` into the module `acc` when `previous` is the last
/// known section read: the module, or the error with the range of input it reports. A section
/// with an unknown *id* is skipped when `skip_unknown` holds, and is an error otherwise.
pub open spec fn spec_module_sections(
    s: Seq<u8>,
    skip_unknown: bool,
    previous: Option<ModuleSectionOrder>,
    acc: ((u32, Seq<u8>), (u32, Seq<u8>)),
) -> Result<((u32, Seq<u8>), (u32, Seq<u8>)), (nat, nat, ErrorCause)>
    decreases s.len(),
{
    if s.len() == 0 {
        Ok(acc)
    } else {
        match spec_section(s) {
            Err((at, cause)) => Err((at, s.len(), cause)),
            Ok((n, (id, contents))) => if 2 <= n <= s.len() {
                match spec_unknown_section(id, contents, previous) {
                    Err(SectionErr::InContents(at, cause)) => Err(((n - contents.len() + at) as nat, n, cause)),
                    Err(SectionErr::AtStart(cause)) => Err((0, s.len(), cause)),
                    Ok((None, p)) => if skip_unknown {
                        shift_range(n, spec_module_sections(s.skip(n as int), skip_unknown, p, acc))
                    } else {
                        Err((0, s.len(), ErrorCause::InvalidTag(InvalidTag::ModuleSectionId(id))))
                    },
                    Ok((Some(m), p)) => shift_range(n, spec_module_sections(s.skip(n as int), skip_unknown, p, spec_record(acc, m))),
                }
            } else {
                Ok(acc)
            },
        }
    }
}

/// The positions in the order of sections of the known non-custom sections in `s`, in the
/// order they appear, up to the first section that could not be read.
pub open spec fn spec_section_orders(s: Seq<u8>) -> Seq<ModuleSectionOrder>
    decreases s.len(),
{
    if s.len() == 0 {
        Seq::empty()
    } else {
        match spec_section(s) {
            Err(_) => Seq::empty(),
            Ok((n, (id, contents))) => if 2 <= n <= s.len() {
                let rest = spec_section_orders(s.skip(n as int));
                match spec_interpret(id, contents) {
                    Some(Ok(m)) => match spec_section_order(spec_module_section_id(m)) {
                        Some(o) => seq![o] + rest,
                        None => rest,
                    },
                    _ => rest,
                }
            } else {
                Seq::empty()
            },
        }
    }
}

/// The sections of a module read from `s`, in order, as they are handed on: for each, the input
/// that starts with it, its *id* and contents, the known section it is (`None` for an unknown
/// *id*), and the last known non-custom section read before it and once it is read. The list
/// stops before the first section that could not be read or is out of order, and, unless
/// `skip_unknown`, before the first section with an unknown *id*.
pub open spec fn spec_sections_read(s: Seq<u8>, skip_unknown: bool, previous: Option<ModuleSectionOrder>) -> Seq<
    (Seq<u8>, (u8, Seq<u8>), Option<ModuleSectionView>, Option<ModuleSectionOrder>, Option<ModuleSectionOrder>),
>
    decreases s.len(),
{
    if s.len() == 0 {
        Seq::empty()
    } else {
        match spec_section(s) {
            Err(_) => Seq::empty(),
            Ok((n, (id, contents))) => if 2 <= n <= s.len() {
                match spec_unknown_section(id, contents, previous) {
                    Err(_) => Seq::empty(),
                    Ok((known, p)) => if known is None && !skip_unknown {
                        Seq::empty()
                    } else {
                        seq![(s, (id, contents), known, previous, p)] + spec_sections_read(s.skip(n as int), skip_unknown, p)
                    },
                }
            } else {
                Seq::empty()
            },
        }
    }
}

/// The last known non-custom section among the sections `reads` (items of
/// [`spec_sections_read`]), or `previous` if there is none among them.
pub open spec fn spec_last_known_order(previous: Option<ModuleSectionOrder>, reads: Seq<(Seq<u8>, (u8, Seq<u8>), Option<ModuleSectionView>, Option<ModuleSectionOrder>, Option<ModuleSectionOrder>)>) -> Option<ModuleSectionOrder>
    decreases reads.len(),
{
    if reads.len() == 0 {
        previous
    } else {
        let p = match reads[0].2 {
            Some(m) => match spec_section_order(spec_module_section_id(m)) {
                Some(o) => Some(o),
                None => previous,
            },
            None => previous,
        };
        spec_last_known_order(p, reads.drop_first())
    }
}

/// Each section read from the sections of a module carries, as the last known non-custom section
/// read before it, the last such section among the sections read before it (or the one from
/// before the first section, if there is none among them); once it is read, that becomes the
/// last among the sections up to and including it.
pub proof fn lemma_sections_read_previous(s: Seq<u8>, skip_unknown: bool, previous: Option<ModuleSectionOrder>)
    ensures
        forall|k: int| 0 <= k < spec_sections_read(s, skip_unknown, previous).len()
            ==> #[trigger] spec_sections_read(s, skip_unknown, previous)[k].3
                == spec_last_known_order(previous, spec_sections_read(s, skip_unknown, previous).take(k)),
        forall|k: int| 0 <= k < spec_sections_read(s, skip_unknown, previous).len()
            ==> #[trigger] spec_sections_read(s, skip_unknown, previous)[k].4
                == spec_last_known_order(previous, spec_sections_read(s, skip_unknown, previous).take(k + 1)),
    decreases s.len(),
{
    let reads = spec_sections_read(s, skip_unknown, previous);
    if reads.len() > 0 {
        let (n, (id, contents)) = spec_section(s)->Ok_0;
        let item = reads[0];
        let p = item.4;
        let rest = spec_sections_read(s.skip(n as int), skip_unknown, p);
        lemma_sections_read_previous(s.skip(n as int), skip_unknown, p);
        assert(reads == seq![item] + rest);
        assert(item.3 == previous);
        assert(spec_last_known_order(previous, seq![item]) == spec_last_known_order(p, Seq::<(Seq<u8>, (u8, Seq<u8>), Option<ModuleSectionView>, Option<ModuleSectionOrder>, Option<ModuleSectionOrder>)>::empty())) by {
            assert(seq![item].drop_first() =~= Seq::<(Seq<u8>, (u8, Seq<u8>), Option<ModuleSectionView>, Option<ModuleSectionOrder>, Option<ModuleSectionOrder>)>::empty());
        }
        assert forall|k: int| 0 <= k < reads.len() implies #[trigger] reads[k].3
            == spec_last_known_order(previous, reads.take(k)) by {
            if k == 0 {
                assert(reads.take(0) =~= Seq::<(Seq<u8>, (u8, Seq<u8>), Option<ModuleSectionView>, Option<ModuleSectionOrder>, Option<ModuleSectionOrder>)>::empty());
            } else {
                assert(reads[k] == rest[k - 1]);
                assert(reads.take(k).drop_first() =~= rest.take(k - 1));
            }
        }
        assert forall|k: int| 0 <= k < reads.len() implies #[trigger] reads[k].4
            == spec_last_known_order(previous, reads.take(k + 1)) by {
            assert(reads.take(k + 1).drop_first() =~= rest.take(k));
            if k == 0 {
                assert(rest.take(0) =~= Seq::<(Seq<u8>, (u8, Seq<u8>), Option<ModuleSectionView>, Option<ModuleSectionOrder>, Option<ModuleSectionOrder>)>::empty());
            } else {
                assert(reads[k] == rest[k - 1]);
            }
        }
    }
}

/// `f` was handed a known section whose meaning is `known`, with `previous`, and accepted it.
pub open spec fn spec_known_taken<'a, F, E>(f: F, known: ModuleSectionView, previous: Option<ModuleSectionOrder>) -> bool
    where
        F: FnMut(ModuleSection<'a>, Option<ModuleSectionOrder>) -> Result<(), E>,
{
    exists|m: ModuleSection<'a>, r: Result<(), E>| m@ == known && r is Ok && #[trigger] call_ensures(f, (m, previous), r)
}

/// `g` was handed the input `remaining` that starts with a section of an unknown *id*, that
/// section, and `previous`, and accepted them.
pub open spec fn spec_unknown_taken<'a, G, E>(
    g: G,
    remaining: Seq<u8>,
    section: (u8, Seq<u8>),
    previous: Option<ModuleSectionOrder>,
) -> bool
    where
        G: FnMut(&'a [u8], Section<'a>, Option<ModuleSectionOrder>) -> Result<(), E>,
{
    exists|i: &'a [u8], u: Section<'a>, r: Result<(), E>|
        i@ == remaining && u@ == section && r is Ok && #[trigger] call_ensures(g, (i, u, previous), r)
}

/// The section `read` (an item of [`spec_sections_read`]) was handed to `f` if it is known, or
/// to `g` otherwise, with the last known non-custom section once it is read, and accepted.
pub open spec fn spec_read_taken<'a, F, G, E>(
    f: F,
    g: G,
    read: (Seq<u8>, (u8, Seq<u8>), Option<ModuleSectionView>, Option<ModuleSectionOrder>, Option<ModuleSectionOrder>),
) -> bool
    where
        F: FnMut(ModuleSection<'a>, Option<ModuleSectionOrder>) -> Result<(), E>,
        G: FnMut(&'a [u8], Section<'a>, Option<ModuleSectionOrder>) -> Result<(), E>,
{
    match read.2 {
        Some(m) => spec_known_taken(f, m, read.4),
        None => spec_unknown_taken(g, read.0, read.1, read.4),
    }
}

/// The known section `read` (an item of [`spec_sections_read`]) was handed to `f`, with the last
/// known non-custom section once it is read, and accepted.
pub open spec fn spec_known_read_taken<'a, F, E>(f: F, read: (Seq<u8>, (u8, Seq<u8>), Option<ModuleSectionView>, Option<ModuleSectionOrder>, Option<ModuleSectionOrder>)) -> bool
    where
        F: FnMut(ModuleSection<'a>, Option<ModuleSectionOrder>) -> Result<(), E>,
{
    read.2 matches Some(m) && spec_known_taken(f, m, read.4)
}

/// The section `read` (an item of [`spec_sections_read`]) was handed to `f` as an
/// [`UnknownModuleSection`], and accepted.
pub open spec fn spec_unknown_module_section_taken<'a, F, E>(f: F, read: (Seq<u8>, (u8, Seq<u8>), Option<ModuleSectionView>, Option<ModuleSectionOrder>, Option<ModuleSectionOrder>)) -> bool
    where
        F: FnMut(UnknownModuleSection<'a>) -> Result<(), E>,
{
    exists|u: UnknownModuleSection<'a>, r: Result<(), E>|
        u.spec_remaining() == read.0 && u.spec_section() == read.1 && u.spec_known() == read.2
            && u.spec_ordering() == read.3 && r is Ok && #[trigger] call_ensures(f, (u,), r)
}

/// The known section `read` (an item of [`spec_sections_read`]) was handed to `f`, and accepted.
pub open spec fn spec_module_section_taken<'a, F, E>(f: F, read: (Seq<u8>, (u8, Seq<u8>), Option<ModuleSectionView>, Option<ModuleSectionOrder>, Option<ModuleSectionOrder>)) -> bool
    where
        F: FnMut(ModuleSection<'a>) -> Result<(), E>,
{
    read.2 matches Some(known) && exists|m: ModuleSection<'a>, r: Result<(), E>|
        m@ == known && r is Ok && #[trigger] call_ensures(f, (m,), r)
}

/// If the section `read` (an item of [`spec_sections_read`]) is a custom section, it was handed
/// to `f`, and accepted.
pub open spec fn spec_custom_section_taken<'a, F, E>(f: F, read: (Seq<u8>, (u8, Seq<u8>), Option<ModuleSectionView>, Option<ModuleSectionOrder>, Option<ModuleSectionOrder>)) -> bool
    where
        F: FnMut(CustomSection<'a>) -> Result<(), E>,
{
    read.2 matches Some(ModuleSectionView::Custom { name, contents }) ==> exists|c: CustomSection<'a>, r: Result<(), E>|
        c@ == (name, contents) && r is Ok && #[trigger] call_ensures(f, (c,), r)
}

/// A module is only accepted when its known non-custom sections appear in strictly ascending
/// order, each after the last known section read before them: reading the sections in `s`
/// succeeds only if their positions in the order of sections ascend from `previous`.
pub proof fn lemma_module_sections_ascending(
    s: Seq<u8>,
    skip_unknown: bool,
    previous: Option<ModuleSectionOrder>,
    acc: ((u32, Seq<u8>), (u32, Seq<u8>)),
)
    ensures
        spec_module_sections(s, skip_unknown, previous, acc) is Ok ==> strictly_ascending(spec_section_orders(s))
            && all_after(previous, spec_section_orders(s)),
    decreases s.len(),
{
    if s.len() > 0 {
        if let Ok((n, (id, contents))) = spec_section(s) {
            if 2 <= n <= s.len() {
                let rest = s.skip(n as int);
                let orders = spec_section_orders(rest);
                if let Ok((None, p)) = spec_unknown_section(id, contents, previous) {
                    lemma_module_sections_ascending(rest, skip_unknown, p, acc);
                }
                if let Ok((Some(m), p)) = spec_unknown_section(id, contents, previous) {
                    lemma_module_sections_ascending(rest, skip_unknown, p, spec_record(acc, m));
                    if let Some(o) = spec_section_order(spec_module_section_id(m)) {
                        let all = seq![o] + orders;
                        if spec_module_sections(s, skip_unknown, previous, acc) is Ok {
                            assert(p == Some(o));
                            assert forall|i: int, j: int| 0 <= i < j < all.len() implies all[i].spec_rank()
                                < all[j].spec_rank() by {
                                if i > 0 {
                                    assert(all[i] == orders[i - 1] && all[j] == orders[j - 1]);
                                } else {
                                    assert(all[j] == orders[j - 1]);
                                }
                            }
                            if let Some(q) = previous {
                                assert forall|i: int| 0 <= i < all.len() implies q.spec_rank()
                                    < #[trigger] all[i].spec_rank() by {
                                    if i > 0 {
                                        assert(all[i] == orders[i - 1]);
                                    }
                                }
                            }
                        }
                    }
                }
            }
        }
    }
}

/// The meaning of [`Module::parse`]: the preamble, then the sections.
pub open spec fn spec_module(s: Seq<u8>) -> Result<((u32, Seq<u8>), (u32, Seq<u8>)), (nat, nat, ErrorCause)> {
    match spec_preamble(s) {
        Err((at, cause)) => Err((at, s.len(), cause)),
        Ok((n, _)) => shift_range(n, spec_module_sections(s.skip(n as int), false, None, spec_empty_module())),
    }
}

/// `e` reports `cause` for the bytes of `input` from `a` up to `b`.
pub open spec fn error_in<'a, E: ErrorSource<'a>>(input: Seq<u8>, e: E, a: nat, b: nat, cause: ErrorCause) -> bool {
    a <= b <= input.len() && e.spec_input() == input.subrange(a as int, b as int) && e.spec_cause() == cause
}

proof fn lemma_subrange_of_skip(s: Seq<u8>, c: int, a: int, b: int)
    requires
        0 <= c <= s.len(),
        0 <= a <= b <= s.len() - c,
    ensures
        s.skip(c).subrange(a, b) == s.subrange(c + a, c + b),
{
    assert(s.skip(c).subrange(a, b) =~= s.subrange(c + a, c + b));
}

proof fn lemma_skip_of_subrange(s: Seq<u8>, a: int, b: int, at: int)
    requires
        0 <= a <= b <= s.len(),
        0 <= at <= b - a,
    ensures
        s.subrange(a, b).skip(at) == s.subrange(a + at, b),
{
    assert(s.subrange(a, b).skip(at) =~= s.subrange(a + at, b));
}

/// Parses the WebAssembly module preamble, then returns a [`ModuleSectionSequence`] for parsing
/// the module's sections.
pub fn parse_binary_sections<'a, E: ErrorSource<'a>>(input: &'a [u8]) -> (r: Result<ModuleSectionSequence<'a>, E>)
    ensures
        match spec_preamble(input@) {
            Ok((n, _)) => r matches Ok(seq) && seq@ == (input@.skip(n as int), None::<ModuleSectionOrder>),
            Err((at, cause)) => r matches Err(e) && crate::error::error_at(input@, e, at, cause),
        },
{
    match preamble::parse(input) {
        Ok((rest, ())) => Ok(ModuleSectionSequence::new(rest)),
        Err(e) => Err(e),
    }
}

impl<'a> Module<'a> {
    /// Creates a [`Module`] from its sections, keeping the type and import sections and skipping
    /// custom sections.
    ///
    /// Fails if a section could not be parsed, if known sections are out of order, or if a
    /// section with an unknown *id* is encountered.
    #[verifier::spinoff_prover]
    #[verifier::rlimit(40)]
    pub fn from_sections<E: ErrorSource<'a>>(sections: ModuleSectionSequence<'a>) -> (r: Result<Module<'a>, E>)
        ensures
            match spec_module_sections(sections@.0, false, sections@.1, spec_empty_module()) {
                Ok(v) => r matches Ok(m) && m@ == v,
                Err((a, b, cause)) => r matches Err(e) && error_in(sections@.0, e, a, b, cause),
            },
    {
        let ghost original = sections@;
        let mut rest = sections;
        let mut module = Module::default();
        loop
            invariant
                original == sections@,
                rest@.0.len() <= original.0.len(),
                rest@.0 == original.0.skip(original.0.len() - rest@.0.len()),
                spec_module_sections(original.0, false, original.1, spec_empty_module()) == shift_range(
                    (original.0.len() - rest@.0.len()) as nat,
                    spec_module_sections(rest@.0, false, rest@.1, module@),
                ),
            decreases rest@.0.len(),
        {
            let ghost s = rest@.0;
            let ghost k: int = original.0.len() - s.len();
            let ghost prev = rest@.1;
            proof {
                lemma_section_progress(s);
            }
            match rest.next() {
                None => return Ok(module),
                Some(Err(e)) => {
                    proof {
                        match spec_next_module_section(s, prev) {
                            NextModuleSection::FailedAt(at, cause, _) => {
                                lemma_subrange_of_skip(original.0, k, at as int, s.len() as int);
                            },
                            NextModuleSection::FailedInContents(contents, at, cause, _) => {
                                let n = spec_section(s)->Ok_0.0;
                                lemma_skip_of_subrange(s, n - contents.len(), n as int, at as int);
                                lemma_subrange_of_skip(original.0, k, n - contents.len() + at, n as int);
                            },
                            _ => {},
                        }
                    }
                    return Err(e);
                },
                Some(Ok(u)) => {
                    match u.to_module_section() {
                        None => {
                            let section = u.section();
                            let remaining = u.remaining_input();
                            proof {
                                assert(remaining@.skip(0) =~= remaining@);
                                lemma_subrange_of_skip(original.0, k, 0, s.len() as int);
                            }
                            return Err(E::from_error_cause(remaining, ErrorCause::InvalidTag(InvalidTag::ModuleSectionId(section.id))));
                        },
                        Some(m) => {
                            match m {
                                ModuleSection::Custom(_) => {},
                                ModuleSection::Type(t) => module.type_sec = t,
                                ModuleSection::Import(i) => module.import_sec = i,
                            }
                        },
                    }
                },
            }
        }
    }

    /// Creates a [`Module`] from its `sections`, while also passing *each* section, including
    /// those with an unknown *id*, to the given closure.
    ///
    /// Fails if a section could not be parsed, if known sections are out of order, or with the
    /// first error that the closure returns.
    #[verifier::spinoff_prover]
    #[verifier::rlimit(40)]
    pub fn from_sections_with_unknown<F, E: ErrorSource<'a>>(sections: ModuleSectionSequence<'a>, f: F) -> (r: Result<Module<'a>, E>)
        where
            F: FnMut(UnknownModuleSection<'a>) -> Result<(), E>,
        requires
            forall|u: UnknownModuleSection<'a>| call_requires(f, (u,)),
        ensures
            r matches Ok(m) ==> spec_module_sections(sections@.0, true, sections@.1, spec_empty_module()) == Ok::<
                ((u32, Seq<u8>), (u32, Seq<u8>)), (nat, nat, ErrorCause)>(m@),
            spec_module_sections(sections@.0, true, sections@.1, spec_empty_module()) matches Err((a, b, cause)) ==> (
                r matches Err(e) && (error_in(sections@.0, e, a, b, cause) || exists|u: UnknownModuleSection<'a>|
                call_ensures(f, (u,), Err::<(), E>(e)))),
            (forall|u: UnknownModuleSection<'a>, res: Result<(), E>| call_ensures(f, (u,), res) ==> res is Ok)
                && spec_module_sections(sections@.0, true, sections@.1, spec_empty_module()) is Ok ==> r is Ok,
            r is Ok ==> forall|k: int| 0 <= k < spec_sections_read(sections@.0, true, sections@.1).len()
                ==> #[trigger] spec_unknown_module_section_taken(f, spec_sections_read(sections@.0, true, sections@.1)[k]),
            sections@.0.len() == 0 ==> r is Ok,
    {
        let ghost original = sections@;
        let ghost f0 = f;
        let mut handler = f;
        let mut rest = sections;
        let mut module = Module::default();
        let ghost mut done: Seq<(Seq<u8>, (u8, Seq<u8>), Option<ModuleSectionView>, Option<ModuleSectionOrder>, Option<ModuleSectionOrder>)> = Seq::empty();
        assert(original.0.skip(0) =~= original.0);
        loop
            invariant
                spec_sections_read(original.0, true, original.1) == done + spec_sections_read(rest@.0, true, rest@.1),
                forall|k: int| 0 <= k < done.len() ==> #[trigger] spec_unknown_module_section_taken(f, done[k]),
                original == sections@,
                handler == f0,
                f0 == f,
                forall|u: UnknownModuleSection<'a>| call_requires(handler, (u,)),
                rest@.0.len() <= original.0.len(),
                rest@.0 == original.0.skip(original.0.len() - rest@.0.len()),
                spec_module_sections(original.0, true, original.1, spec_empty_module()) == shift_range(
                    (original.0.len() - rest@.0.len()) as nat,
                    spec_module_sections(rest@.0, true, rest@.1, module@),
                ),
            decreases rest@.0.len(),
        {
            let ghost s = rest@.0;
            let ghost k: int = original.0.len() - s.len();
            let ghost prev = rest@.1;
            proof {
                lemma_section_progress(s);
            }
            match rest.next() {
                None => return Ok(module),
                Some(Err(e)) => {
                    proof {
                        match spec_next_module_section(s, prev) {
                            NextModuleSection::FailedAt(at, cause, _) => {
                                lemma_subrange_of_skip(original.0, k, at as int, s.len() as int);
                            },
                            NextModuleSection::FailedInContents(contents, at, cause, _) => {
                                let n = spec_section(s)->Ok_0.0;
                                lemma_skip_of_subrange(s, n - contents.len(), n as int, at as int);
                                lemma_subrange_of_skip(original.0, k, n - contents.len() + at, n as int);
                            },
                            _ => {},
                        }
                    }
                    return Err(e);
                },
                Some(Ok(u)) => {
                    let ghost item = (s, u.spec_section(), u.spec_known(), prev, rest@.1);
                    proof {
                        let n = spec_section(s)->Ok_0.0;
                        assert(spec_sections_read(s, true, prev) == seq![item] + spec_sections_read(s.skip(n as int), true, rest@.1));
                        assert(done + spec_sections_read(s, true, prev) == done.push(item) + spec_sections_read(rest@.0, true, rest@.1));
                    }
                    match u.to_module_section() {
                        None => {},
                        Some(m) => {
                            match m {
                                ModuleSection::Custom(_) => {},
                                ModuleSection::Type(t) => module.type_sec = t,
                                ModuleSection::Import(i) => module.import_sec = i,
                            }
                        },
                    }
                    let ghost gu = u;
                    let answer = handler(u);
                    match answer {
                        Ok(()) => {
                            proof {
                                assert(call_ensures(f, (gu,), answer));
                                assert(spec_unknown_module_section_taken(f, item));
                                done = done.push(item);
                            }
                        },
                        Err(e) => {
                            assert(call_ensures(f, (gu,), Err::<(), E>(e)));
                            return Err(e);
                        },
                    }
                },
            }
        }
    }

    /// Creates a [`Module`] from its `sections`, while also passing *each* [`ModuleSection`] to
    /// the given closure.
    ///
    /// Fails if a section could not be parsed, if known sections are out of order, if a section
    /// with an unknown *id* is encountered, or with the first error that the closure returns.
    #[verifier::spinoff_prover]
    #[verifier::rlimit(40)]
    pub fn from_sections_with<F, E: ErrorSource<'a>>(sections: ModuleSectionSequence<'a>, f: F) -> (r: Result<Module<'a>, E>)
        where
            F: FnMut(ModuleSection<'a>) -> Result<(), E>,
        requires
            forall|u: ModuleSection<'a>| call_requires(f, (u,)),
        ensures
            r matches Ok(m) ==> spec_module_sections(sections@.0, false, sections@.1, spec_empty_module()) == Ok::<
                ((u32, Seq<u8>), (u32, Seq<u8>)), (nat, nat, ErrorCause)>(m@),
            spec_module_sections(sections@.0, false, sections@.1, spec_empty_module()) matches Err((a, b, cause)) ==> (
                r matches Err(e) && (error_in(sections@.0, e, a, b, cause) || exists|u: ModuleSection<'a>|
                call_ensures(f, (u,), Err::<(), E>(e)))),
            (forall|u: ModuleSection<'a>, res: Result<(), E>| call_ensures(f, (u,), res) ==> res is Ok)
                && spec_module_sections(sections@.0, false, sections@.1, spec_empty_module()) is Ok ==> r is Ok,
            r is Ok ==> forall|k: int| 0 <= k < spec_sections_read(sections@.0, false, sections@.1).len()
                ==> #[trigger] spec_module_section_taken(f, spec_sections_read(sections@.0, false, sections@.1)[k]),
            sections@.0.len() == 0 ==> r is Ok,
    {
        let ghost original = sections@;
        let ghost f0 = f;
        let mut handler = f;
        let mut rest = sections;
        let mut module = Module::default();
        let ghost mut done: Seq<(Seq<u8>, (u8, Seq<u8>), Option<ModuleSectionView>, Option<ModuleSectionOrder>, Option<ModuleSectionOrder>)> = Seq::empty();
        assert(original.0.skip(0) =~= original.0);
        loop
            invariant
                spec_sections_read(original.0, false, original.1) == done + spec_sections_read(rest@.0, false, rest@.1),
                forall|k: int| 0 <= k < done.len() ==> #[trigger] spec_module_section_taken(f, done[k]),
                original == sections@,
                handler == f0,
                f0 == f,
                forall|u: ModuleSection<'a>| call_requires(handler, (u,)),
                rest@.0.len() <= original.0.len(),
                rest@.0 == original.0.skip(original.0.len() - rest@.0.len()),
                spec_module_sections(original.0, false, original.1, spec_empty_module()) == shift_range(
                    (original.0.len() - rest@.0.len()) as nat,
                    spec_module_sections(rest@.0, false, rest@.1, module@),
                ),
            decreases rest@.0.len(),
        {
            let ghost s = rest@.0;
            let ghost k: int = original.0.len() - s.len();
            let ghost prev = rest@.1;
            proof {
                lemma_section_progress(s);
            }
            match rest.next() {
                None => return Ok(module),
                Some(Err(e)) => {
                    proof {
                        match spec_next_module_section(s, prev) {
                            NextModuleSection::FailedAt(at, cause, _) => {
                                lemma_subrange_of_skip(original.0, k, at as int, s.len() as int);
                            },
                            NextModuleSection::FailedInContents(contents, at, cause, _) => {
                                let n = spec_section(s)->Ok_0.0;
                                lemma_skip_of_subrange(s, n - contents.len(), n as int, at as int);
                                lemma_subrange_of_skip(original.0, k, n - contents.len() + at, n as int);
                            },
                            _ => {},
                        }
                    }
                    return Err(e);
                },
                Some(Ok(u)) => {
                    let ghost item = (s, u.spec_section(), u.spec_known(), prev, rest@.1);
                    match u.to_module_section() {
                        None => {
                            let section = u.section();
                            let remaining = u.remaining_input();
                            proof {
                                assert(remaining@.skip(0) =~= remaining@);
                                lemma_subrange_of_skip(original.0, k, 0, s.len() as int);
                            }
                            return Err(E::from_error_cause(remaining, ErrorCause::InvalidTag(InvalidTag::ModuleSectionId(section.id))));
                        },
                        Some(m) => {
                            match m {
                                ModuleSection::Custom(_) => {},
                                ModuleSection::Type(t) => module.type_sec = t,
                                ModuleSection::Import(i) => module.import_sec = i,
                            }
                            let ghost gm = m;
                            proof {
                                let n = spec_section(s)->Ok_0.0;
                                assert(spec_sections_read(s, false, prev) == seq![item] + spec_sections_read(s.skip(n as int), false, rest@.1));
                                assert(done + spec_sections_read(s, false, prev) == done.push(item) + spec_sections_read(rest@.0, false, rest@.1));
                            }
                            let answer = handler(m);
                            match answer {
                                Ok(()) => {
                                    proof {
                                        assert(call_ensures(f, (gm,), answer));
                                        assert(spec_module_section_taken(f, item));
                                        done = done.push(item);
                                    }
                                },
                                Err(e) => {
                                    assert(call_ensures(f, (gm,), Err::<(), E>(e)));
                                    return Err(e);
                                },
                            }
                        },
                    }
                },
            }
        }
    }

    /// Creates a [`Module`] from its `sections`, passing *each* encountered [`CustomSection`] to
    /// the given closure.
    ///
    /// Fails if a section could not be parsed, if known sections are out of order, if a section
    /// with an unknown *id* is encountered, or with the first error that the closure returns.
    #[verifier::spinoff_prover]
    #[verifier::rlimit(40)]
    pub fn from_sections_with_custom<F, E: ErrorSource<'a>>(sections: ModuleSectionSequence<'a>, f: F) -> (r: Result<Module<'a>, E>)
        where
            F: FnMut(CustomSection<'a>) -> Result<(), E>,
        requires
            forall|u: CustomSection<'a>| call_requires(f, (u,)),
        ensures
            r matches Ok(m) ==> spec_module_sections(sections@.0, false, sections@.1, spec_empty_module()) == Ok::<
                ((u32, Seq<u8>), (u32, Seq<u8>)), (nat, nat, ErrorCause)>(m@),
            spec_module_sections(sections@.0, false, sections@.1, spec_empty_module()) matches Err((a, b, cause)) ==> (
                r matches Err(e) && (error_in(sections@.0, e, a, b, cause) || exists|u: CustomSection<'a>|
                call_ensures(f, (u,), Err::<(), E>(e)))),
            (forall|u: CustomSection<'a>, res: Result<(), E>| call_ensures(f, (u,), res) ==> res is Ok)
                && spec_module_sections(sections@.0, false, sections@.1, spec_empty_module()) is Ok ==> r is Ok,
            r is Ok ==> forall|k: int| 0 <= k < spec_sections_read(sections@.0, false, sections@.1).len()
                ==> #[trigger] spec_custom_section_taken(f, spec_sections_read(sections@.0, false, sections@.1)[k]),
            sections@.0.len() == 0 ==> r is Ok,
    {
        let ghost original = sections@;
        let ghost f0 = f;
        let mut handler = f;
        let mut rest = sections;
        let mut module = Module::default();
        let ghost mut done: Seq<(Seq<u8>, (u8, Seq<u8>), Option<ModuleSectionView>, Option<ModuleSectionOrder>, Option<ModuleSectionOrder>)> = Seq::empty();
        assert(original.0.skip(0) =~= original.0);
        loop
            invariant
                spec_sections_read(original.0, false, original.1) == done + spec_sections_read(rest@.0, false, rest@.1),
                forall|k: int| 0 <= k < done.len() ==> #[trigger] spec_custom_section_taken(f, done[k]),
                original == sections@,
                handler == f0,
                f0 == f,
                forall|u: CustomSection<'a>| call_requires(handler, (u,)),
                rest@.0.len() <= original.0.len(),
                rest@.0 == original.0.skip(original.0.len() - rest@.0.len()),
                spec_module_sections(original.0, false, original.1, spec_empty_module()) == shift_range(
                    (original.0.len() - rest@.0.len()) as nat,
                    spec_module_sections(rest@.0, false, rest@.1, module@),
                ),
            decreases rest@.0.len(),
        {
            let ghost s = rest@.0;
            let ghost k: int = original.0.len() - s.len();
            let ghost prev = rest@.1;
            proof {
                lemma_section_progress(s);
            }
            match rest.next() {
                None => return Ok(module),
                Some(Err(e)) => {
                    proof {
                        match spec_next_module_section(s, prev) {
                            NextModuleSection::FailedAt(at, cause, _) => {
                                lemma_subrange_of_skip(original.0, k, at as int, s.len() as int);
                            },
                            NextModuleSection::FailedInContents(contents, at, cause, _) => {
                                let n = spec_section(s)->Ok_0.0;
                                lemma_skip_of_subrange(s, n - contents.len(), n as int, at as int);
                                lemma_subrange_of_skip(original.0, k, n - contents.len() + at, n as int);
                            },
                            _ => {},
                        }
                    }
                    return Err(e);
                },
                Some(Ok(u)) => {
                    let ghost item = (s, u.spec_section(), u.spec_known(), prev, rest@.1);
                    match u.to_module_section() {
                        None => {
                            let section = u.section();
                            let remaining = u.remaining_input();
                            proof {
                                assert(remaining@.skip(0) =~= remaining@);
                                lemma_subrange_of_skip(original.0, k, 0, s.len() as int);
                            }
                            return Err(E::from_error_cause(remaining, ErrorCause::InvalidTag(InvalidTag::ModuleSectionId(section.id))));
                        },
                        Some(m) => {
                            proof {
                                let n = spec_section(s)->Ok_0.0;
                                assert(spec_sections_read(s, false, prev) == seq![item] + spec_sections_read(s.skip(n as int), false, rest@.1));
                                assert(done + spec_sections_read(s, false, prev) == done.push(item) + spec_sections_read(rest@.0, false, rest@.1));
                            }
                            match m {
                                ModuleSection::Custom(c) => {
                                    let ghost gc = c;
                                    let answer = handler(c);
                                    match answer {
                                        Ok(()) => {
                                            proof {
                                                assert(call_ensures(f, (gc,), answer));
                                                assert(spec_custom_section_taken(f, item));
                                                done = done.push(item);
                                            }
                                        },
                                        Err(e) => {
                                            assert(call_ensures(f, (gc,), Err::<(), E>(e)));
                                            return Err(e);
                                        },
                                    }
                                },
                                ModuleSection::Type(t) => {
                                    module.type_sec = t;
                                    proof {
                                        done = done.push(item);
                                    }
                                },
                                ModuleSection::Import(i) => {
                                    module.import_sec = i;
                                    proof {
                                        done = done.push(item);
                                    }
                                },
                            }
                        },
                    }
                },
            }
        }
    }

    /// Parses a module from its encoding in the WebAssembly `binary` format, skipping custom
    /// sections.
    pub fn parse<E: ErrorSource<'a>>(binary: &'a [u8]) -> (r: Result<Module<'a>, E>)
        ensures
            match spec_module(binary@) {
                Ok(v) => r matches Ok(m) && m@ == v,
                Err((a, b, cause)) => r matches Err(e) && error_in(binary@, e, a, b, cause),
            },
    {
        let sections = match parse_binary_sections(binary) {
            Ok(s) => s,
            Err(e) => return Err(e),
        };
        let ghost n: int = binary@.len() - sections@.0.len();
        let r = Self::from_sections(sections);
        proof {
            if r is Err {
                let (a, b, cause) = spec_module_sections(sections@.0, false, None, spec_empty_module())->Err_0;
                lemma_subrange_of_skip(binary@, n, a as int, b as int);
            }
        }
        r
    }
}

/// Parses the sequence of module sections that follow the preamble within a WebAssembly module,
/// passing each known section to `f` and each section with an unknown *id* to `g`, together with
/// the last known non-custom section read so far.
///
/// Fails if a section could not be parsed, if known non-custom sections are out of order, or
/// with the first error that a closure returns.
#[verifier::spinoff_prover]
#[verifier::rlimit(40)]
pub fn module_section_sequence_with_unknown<'a, F, G, E: ErrorSource<'a>>(input: &'a [u8], f: F, g: G) -> (r: Result<(), E>)
    where
        F: FnMut(ModuleSection<'a>, Option<ModuleSectionOrder>) -> Result<(), E>,
        G: FnMut(&'a [u8], Section<'a>, Option<ModuleSectionOrder>) -> Result<(), E>,
    requires
        forall|m: ModuleSection<'a>, p: Option<ModuleSectionOrder>| call_requires(f, (m, p)),
        forall|i: &'a [u8], u: Section<'a>, p: Option<ModuleSectionOrder>| call_requires(g, (i, u, p)),
    ensures
        r is Ok ==> spec_module_sections(input@, true, None, spec_empty_module()) is Ok,
        spec_module_sections(input@, true, None, spec_empty_module()) matches Err((a, b, cause)) ==> (
            r matches Err(e) && (error_in(input@, e, a, b, cause)
            || (exists|m: ModuleSection<'a>, p: Option<ModuleSectionOrder>| call_ensures(f, (m, p), Err::<(), E>(e)))
            || (exists|i: &'a [u8], u: Section<'a>, p: Option<ModuleSectionOrder>| call_ensures(g, (i, u, p), Err::<(), E>(e))))),
        (forall|m: ModuleSection<'a>, p: Option<ModuleSectionOrder>, res: Result<(), E>| call_ensures(f, (m, p), res) ==> res is Ok)
            && (forall|i: &'a [u8], u: Section<'a>, p: Option<ModuleSectionOrder>, res: Result<(), E>| call_ensures(g, (i, u, p), res) ==> res is Ok)
            && spec_module_sections(input@, true, None, spec_empty_module()) is Ok ==> r is Ok,
        r is Ok ==> forall|k: int| 0 <= k < spec_sections_read(input@, true, None).len()
            ==> #[trigger] spec_read_taken(f, g, spec_sections_read(input@, true, None)[k]),
        input@.len() == 0 ==> r is Ok,
{
    let ghost f0 = f;
    let ghost g0 = g;
    let mut known_handler = f;
    let mut unknown_handler = g;
    let mut rest = ModuleSectionSequence::new(input);
    let ghost mut acc = spec_empty_module();
    let ghost mut done: Seq<(Seq<u8>, (u8, Seq<u8>), Option<ModuleSectionView>, Option<ModuleSectionOrder>, Option<ModuleSectionOrder>)> = Seq::empty();
    assert(input@.skip(0) =~= input@);
    loop
        invariant
            spec_sections_read(input@, true, None) == done + spec_sections_read(rest@.0, true, rest@.1),
            forall|k: int| 0 <= k < done.len() ==> #[trigger] spec_read_taken(f, g, done[k]),
            known_handler == f0,
            f0 == f,
            unknown_handler == g0,
            g0 == g,
            forall|m: ModuleSection<'a>, p: Option<ModuleSectionOrder>| call_requires(known_handler, (m, p)),
            forall|i: &'a [u8], u: Section<'a>, p: Option<ModuleSectionOrder>| call_requires(unknown_handler, (i, u, p)),
            rest@.0.len() <= input@.len(),
            rest@.0 == input@.skip(input@.len() - rest@.0.len()),
            spec_module_sections(input@, true, None, spec_empty_module()) == shift_range(
                (input@.len() - rest@.0.len()) as nat,
                spec_module_sections(rest@.0, true, rest@.1, acc),
            ),
        decreases rest@.0.len(),
    {
        let ghost s = rest@.0;
        let ghost k: int = input@.len() - s.len();
        let ghost prev = rest@.1;
        proof {
            lemma_section_progress(s);
        }
        match rest.next() {
            None => return Ok(()),
            Some(Err(e)) => {
                proof {
                    match spec_next_module_section(s, prev) {
                        NextModuleSection::FailedAt(at, cause, _) => {
                            lemma_subrange_of_skip(input@, k, at as int, s.len() as int);
                        },
                        NextModuleSection::FailedInContents(contents, at, cause, _) => {
                            let n = spec_section(s)->Ok_0.0;
                            lemma_skip_of_subrange(s, n - contents.len(), n as int, at as int);
                            lemma_subrange_of_skip(input@, k, n - contents.len() + at, n as int);
                        },
                        _ => {},
                    }
                }
                return Err(e);
            },
            Some(Ok(u)) => {
                let previous: Option<ModuleSectionOrder> = match rest.ordering().previous() {
                    Some(p) => Some(*p),
                    None => None,
                };
                let ghost item = (s, u.spec_section(), u.spec_known(), prev, rest@.1);
                proof {
                    let n = spec_section(s)->Ok_0.0;
                    assert(spec_sections_read(s, true, prev) == seq![item] + spec_sections_read(s.skip(n as int), true, rest@.1));
                    assert(done + spec_sections_read(s, true, prev) == done.push(item) + spec_sections_read(rest@.0, true, rest@.1));
                }
                match u.to_module_section() {
                    Some(m) => {
                        proof {
                            acc = spec_record(acc, m@);
                        }
                        let ghost gm = m;
                        let answer = known_handler(m, previous);
                        match answer {
                            Ok(()) => {
                                proof {
                                    assert(previous == item.4);
                                    assert(call_ensures(f, (gm, previous), answer));
                                    assert(spec_known_taken(f, gm@, previous));
                                    assert(spec_read_taken(f, g, item));
                                    done = done.push(item);
                                }
                            },
                            Err(e) => {
                                assert(call_ensures(f, (gm, previous), Err::<(), E>(e)));
                                return Err(e);
                            },
                        }
                    },
                    None => {
                        let remaining = u.remaining_input();
                        let section = u.section();
                        let answer = unknown_handler(remaining, section, previous);
                        match answer {
                            Ok(()) => {
                                proof {
                                    assert(previous == item.4);
                                    assert(call_ensures(g, (remaining, section, previous), answer));
                                    assert(spec_unknown_taken(g, remaining@, section@, previous));
                                    assert(spec_read_taken(f, g, item));
                                    done = done.push(item);
                                }
                            },
                            Err(e) => {
                                assert(call_ensures(g, (remaining, section, previous), Err::<(), E>(e)));
                                return Err(e);
                            },
                        }
                    },
                }
            },
        }
    }
}

/// Parses the sequence of module sections that follow the preamble within a WebAssembly module,
/// passing each known section to `f`, together with the last known non-custom section read so
/// far.
///
/// Fails if a section could not be parsed, if known non-custom sections are out of order, if a
/// section with an unknown *id* is encountered, or with the first error that `f` returns.
#[verifier::spinoff_prover]
#[verifier::rlimit(40)]
pub fn module_section_sequence<'a, F, E: ErrorSource<'a>>(input: &'a [u8], f: F) -> (r: Result<(), E>)
    where
        F: FnMut(ModuleSection<'a>, Option<ModuleSectionOrder>) -> Result<(), E>,
    requires
        forall|m: ModuleSection<'a>, p: Option<ModuleSectionOrder>| call_requires(f, (m, p)),
    ensures
        r is Ok ==> spec_module_sections(input@, false, None, spec_empty_module()) is Ok,
        spec_module_sections(input@, false, None, spec_empty_module()) matches Err((a, b, cause)) ==> (
            r matches Err(e) && (error_in(input@, e, a, b, cause)
            || (exists|m: ModuleSection<'a>, p: Option<ModuleSectionOrder>| call_ensures(f, (m, p), Err::<(), E>(e))))),
        (forall|m: ModuleSection<'a>, p: Option<ModuleSectionOrder>, res: Result<(), E>| call_ensures(f, (m, p), res) ==> res is Ok)
            && spec_module_sections(input@, false, None, spec_empty_module()) is Ok ==> r is Ok,
        r is Ok ==> forall|k: int| 0 <= k < spec_sections_read(input@, false, None).len()
            ==> #[trigger] spec_known_read_taken(f, spec_sections_read(input@, false, None)[k]),
        input@.len() == 0 ==> r is Ok,
{
    let ghost f0 = f;
    let mut known_handler = f;
    let mut rest = ModuleSectionSequence::new(input);
    let ghost mut acc = spec_empty_module();
    let ghost mut done: Seq<(Seq<u8>, (u8, Seq<u8>), Option<ModuleSectionView>, Option<ModuleSectionOrder>, Option<ModuleSectionOrder>)> = Seq::empty();
    assert(input@.skip(0) =~= input@);
    loop
        invariant
            spec_sections_read(input@, false, None) == done + spec_sections_read(rest@.0, false, rest@.1),
            forall|k: int| 0 <= k < done.len() ==> #[trigger] spec_known_read_taken(f, done[k]),
            known_handler == f0,
            f0 == f,
            forall|m: ModuleSection<'a>, p: Option<ModuleSectionOrder>| call_requires(known_handler, (m, p)),
            rest@.0.len() <= input@.len(),
            rest@.0 == input@.skip(input@.len() - rest@.0.len()),
            spec_module_sections(input@, false, None, spec_empty_module()) == shift_range(
                (input@.len() - rest@.0.len()) as nat,
                spec_module_sections(rest@.0, false, rest@.1, acc),
            ),
        decreases rest@.0.len(),
    {
        let ghost s = rest@.0;
        let ghost k: int = input@.len() - s.len();
        let ghost prev = rest@.1;
        proof {
            lemma_section_progress(s);
        }
        match rest.next() {
            None => return Ok(()),
            Some(Err(e)) => {
                proof {
                    match spec_next_module_section(s, prev) {
                        NextModuleSection::FailedAt(at, cause, _) => {
                            lemma_subrange_of_skip(input@, k, at as int, s.len() as int);
                        },
                        NextModuleSection::FailedInContents(contents, at, cause, _) => {
                            let n = spec_section(s)->Ok_0.0;
                            lemma_skip_of_subrange(s, n - contents.len(), n as int, at as int);
                            lemma_subrange_of_skip(input@, k, n - contents.len() + at, n as int);
                        },
                        _ => {},
                    }
                }
                return Err(e);
            },
            Some(Ok(u)) => {
                let previous: Option<ModuleSectionOrder> = match rest.ordering().previous() {
                    Some(p) => Some(*p),
                    None => None,
                };
                let ghost item = (s, u.spec_section(), u.spec_known(), prev, rest@.1);
                match u.to_module_section() {
                    Some(m) => {
                        proof {
                            acc = spec_record(acc, m@);
                            let n = spec_section(s)->Ok_0.0;
                            assert(spec_sections_read(s, false, prev) == seq![item] + spec_sections_read(s.skip(n as int), false, rest@.1));
                            assert(done + spec_sections_read(s, false, prev) == done.push(item) + spec_sections_read(rest@.0, false, rest@.1));
                        }
                        let ghost gm = m;
                        let answer = known_handler(m, previous);
                        match answer {
                            Ok(()) => {
                                proof {
                                    assert(previous == item.4);
                                    assert(call_ensures(f, (gm, previous), answer));
                                    assert(spec_known_read_taken(f, item));
                                    done = done.push(item);
                                }
                            },
                            Err(e) => {
                                assert(call_ensures(f, (gm, previous), Err::<(), E>(e)));
                                return Err(e);
                            },
                        }
                    },
                    None => {
                        let section = u.section();
                        let remaining = u.remaining_input();
                        proof {
                            assert(remaining@.skip(0) =~= remaining@);
                            lemma_subrange_of_skip(input@, k, 0, s.len() as int);
                        }
                        return Err(E::from_error_cause(remaining, ErrorCause::InvalidTag(InvalidTag::ModuleSectionId(section.id))));
                    },
                }
            },
        }
    }
}

} // verus!
