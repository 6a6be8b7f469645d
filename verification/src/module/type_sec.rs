//! The [*type section*] of a WebAssembly module.
//!
//! [*type section*]: https://webassembly.github.io/spec/core/binary/modules.html#type-section

use vstd::prelude::*;

use crate::input::AsInput;
use crate::storage::Vector;

use crate::error::{agrees_value, error_at, group_skip, lemma_repeat_err, spec_repeat, ErrorCause, ErrorKind, ErrorSource, InvalidVector};
use crate::types::{spec_func_type, FuncType};
use crate::leb128::{lemma_leb128_round_trips, unsigned_encoding};
use crate::values::{spec_vector_length, vector_length};

verus! {

broadcast use group_skip;

/// Represents the *type section* of a WebAssembly module: the number of function types it
/// announces, and the bytes that encode them.
#[derive(Clone, Copy, Debug)]
pub struct TypeSec<'a> {
    count: u32,
    types: &'a [u8],
}

impl<'a> View for TypeSec<'a> {
    type V = (u32, Seq<u8>);

    /// The number of function types announced, and the bytes that encode them.
    closed spec fn view(&self) -> (u32, Seq<u8>) {
        (self.count, self.types@)
    }
}

/// The meaning of [`TypeSec::parse`]: a vector length, then the encoded function types.
pub open spec fn spec_type_sec(s: Seq<u8>) -> Result<(u32, Seq<u8>), (nat, ErrorCause)> {
    match spec_vector_length(s) {
        Err(e) => Err(e),
        Ok((n, count)) => Ok((count, s.skip(n as int))),
    }
}

/// The meaning of [`TypeSec::parse_all_contents`]: `count` function types that take up all of
/// `s`.
pub open spec fn spec_type_sec_contents(count: u32, s: Seq<u8>) -> Result<Seq<(Seq<crate::types::ValType>, Seq<crate::types::ValType>)>, (nat, ErrorCause)> {
    match spec_repeat(s, count as nat, |t: Seq<u8>| spec_func_type(t)) {
        Err(e) => Err(e),
        Ok((n, types)) => if n == s.len() {
            Ok(types)
        } else {
            Err((n, ErrorCause::Nom(ErrorKind::Eof)))
        },
    }
}

/// A type section's contents are the number of function types as a *LEB128* `u32`, then the
/// function types: reading contents written that way gives back the count and exactly the bytes
/// after it.
pub proof fn lemma_type_sec_layout(count: u32, rest: Seq<u8>)
    ensures
        spec_type_sec(unsigned_encoding(count as nat) + rest) == Ok::<(u32, Seq<u8>), (nat, ErrorCause)>((count, rest)),
{
    let e = unsigned_encoding(count as nat);
    lemma_leb128_round_trips(rest, count, 0, 0, 0);
    assert((e + rest).skip(e.len() as int) =~= rest);
}

impl<'a> TypeSec<'a> {
    /// Parses a *type section* from a section's contents.
    pub fn parse<E: ErrorSource<'a>>(contents: &'a [u8]) -> (res: Result<TypeSec<'a>, E>)
        ensures
            agrees_value(contents@, res, spec_type_sec(contents@)),
    {
        match vector_length(contents) {
            Ok((types, count)) => Ok(TypeSec { count, types }),
            Err(e) => Err(E::append_with_cause(contents, ErrorCause::Vector(InvalidVector::Length), e)),
        }
    }

    /// The expected number of function types within the section.
    pub fn count(&self) -> (r: usize)
        ensures
            r == self@.0,
    {
        self.count as usize
    }

    /// Parses all of the contents of the *type section*, which must be exactly the announced
    /// number of function types, appending each parsed [`FuncType`] to the end of `destination`.
    ///
    /// The function types parsed before a failure stay appended.
    #[verifier::spinoff_prover]
    #[verifier::rlimit(40)]
    pub fn parse_all_contents_with<V: Vector<Item = FuncType>, E: ErrorSource<'a>>(&self, destination: &mut V) -> (res: Result<(), E>)
        ensures
            final(destination).items().len() >= old(destination).items().len(),
            final(destination).items().subrange(0, old(destination).items().len() as int) == old(destination).items(),
            match spec_type_sec_contents(self@.0, self@.1) {
                Ok(types) => res is Ok && final(destination).items().len() == old(destination).items().len() + types.len()
                    && forall|i: int| 0 <= i < types.len() ==> #[trigger] final(destination).items()[
                        old(destination).items().len() + i]@ == types[i],
                Err((at, cause)) => res matches Err(e) && error_at(self@.1, e, at, cause),
            },
    {
        let ghost s = self.types@;
        let ghost f = |t: Seq<u8>| spec_func_type(t);
        let ghost start = destination.items();
        let count: u32 = self.count;
        destination.reserve(count as usize);
        let mut rest: &'a [u8] = self.types;
        let mut i: u32 = 0;
        while i < count
            invariant
                i <= count,
                count == self@.0,
                s == self@.1,
                f == (|t: Seq<u8>| spec_func_type(t)),
                start == old(destination).items(),
                rest@.len() <= s.len(),
                rest@ == s.skip(s.len() - rest@.len()),
                destination.items().len() >= start.len(),
                destination.items().subrange(0, start.len() as int) == start,
                spec_repeat(s, i as nat, f) matches Ok((n, fts)) && n == s.len() - rest@.len()
                    && destination.items().len() == start.len() + fts.len()
                    && forall|j: int| 0 <= j < fts.len() ==> #[trigger] destination.items()[start.len() + j]@ == fts[j],
            decreases count - i,
        {
            let ghost prev = spec_repeat(s, i as nat, f)->Ok_0.1;
            let ghost before = destination.items();
            match FuncType::parse(rest) {
                Ok((next, t)) => {
                    let ghost tv = t@;
                    destination.push(t);
                    rest = next;
                    proof {
                        let now = spec_repeat(s, (i + 1) as nat, f)->Ok_0.1;
                        assert(now == prev.push(tv));
                        assert(destination.items().subrange(0, start.len() as int) =~= start) by {
                            assert forall|j: int| 0 <= j < start.len() implies destination.items()[j] == start[j] by {
                                assert(before.subrange(0, start.len() as int)[j] == start[j]);
                            }
                        }
                        assert forall|j: int| 0 <= j < now.len() implies #[trigger] destination.items()[start.len() + j]@
                            == now[j] by {
                            if j < prev.len() {
                                assert(destination.items()[start.len() + j] == before[start.len() + j]);
                            }
                        }
                    }
                },
                Err(e) => {
                    proof {
                        lemma_repeat_err(s, (i + 1) as nat, count as nat, f);
                    }
                    return Err(e);
                },
            }
            i = i + 1;
        }
        if rest.len() == 0 {
            Ok(())
        } else {
            Err(E::from_error_cause(rest, ErrorCause::Nom(ErrorKind::Eof)))
        }
    }

    /// Parses all of the contents of the *type section*, which must be exactly the announced
    /// number of function types.
    pub fn parse_all_contents<E: ErrorSource<'a>>(&self) -> (res: Result<Vec<FuncType>, E>)
        ensures
            match spec_type_sec_contents(self@.0, self@.1) {
                Ok(types) => res matches Ok(v) && v@.len() == types.len()
                    && forall|i: int| 0 <= i < types.len() ==> #[trigger] v@[i]@ == types[i],
                Err((at, cause)) => res matches Err(e) && error_at(self@.1, e, at, cause),
            },
    {
        let mut types: Vec<FuncType> = Vec::new();
        match self.parse_all_contents_with(&mut types) {
            Ok(()) => {
                proof {
                    if let Ok(fts) = spec_type_sec_contents(self@.0, self@.1) {
                        assert forall|i: int| 0 <= i < fts.len() implies #[trigger] types@[i]@ == fts[i] by {
                            assert(types@[0 + i] == types@[i]);
                        }
                    }
                }
                Ok(types)
            },
            Err(e) => Err(e),
        }
    }
}

impl<'a> AsInput<'a> for TypeSec<'a> {
    /// The bytes that encode the function types.
    open spec fn input_bytes(&self) -> Seq<u8> {
        self@.1
    }

    fn as_input(&self) -> (r: &'a [u8]) {
        self.types
    }
}

impl<'a> Default for TypeSec<'a> {
    /// A section that announces no items.
    fn default() -> (r: Self)
        ensures
            r@ == (0u32, Seq::<u8>::empty()),
    {
        let types: &'a [u8] = &[];
        assert(types@ =~= Seq::<u8>::empty());
        TypeSec { count: 0, types }
    }
}

} // verus!
