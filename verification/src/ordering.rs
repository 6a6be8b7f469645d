//! The [`OrderTracker<T>`] struct checks that items arrive in strictly ascending order.

use vstd::prelude::*;

verus! {

/// Items that carry a position in a fixed order: an item comes after another when its rank is
/// larger, and two items of equal rank are duplicates of each other.
pub trait Ranked: Copy {
    /// The position of the item.
    spec fn spec_rank(&self) -> int;

    /// Whether the item comes strictly before `other`.
    fn precedes(&self, other: &Self) -> (r: bool)
        ensures
            r == (self.spec_rank() < other.spec_rank()),
    ;

    /// Whether the item has the same position as `other`.
    fn ties(&self, other: &Self) -> (r: bool)
        ensures
            r == (self.spec_rank() == other.spec_rank()),
    ;
}

/// A `u8` is ordered by its value.
impl Ranked for u8 {
    open spec fn spec_rank(&self) -> int {
        *self as int
    }

    fn precedes(&self, other: &Self) -> (r: bool) {
        *self < *other
    }

    fn ties(&self, other: &Self) -> (r: bool) {
        *self == *other
    }
}

/// A `u16` is ordered by its value.
impl Ranked for u16 {
    open spec fn spec_rank(&self) -> int {
        *self as int
    }

    fn precedes(&self, other: &Self) -> (r: bool) {
        *self < *other
    }

    fn ties(&self, other: &Self) -> (r: bool) {
        *self == *other
    }
}

/// A `u32` is ordered by its value.
impl Ranked for u32 {
    open spec fn spec_rank(&self) -> int {
        *self as int
    }

    fn precedes(&self, other: &Self) -> (r: bool) {
        *self < *other
    }

    fn ties(&self, other: &Self) -> (r: bool) {
        *self == *other
    }
}

/// A `u64` is ordered by its value.
impl Ranked for u64 {
    open spec fn spec_rank(&self) -> int {
        *self as int
    }

    fn precedes(&self, other: &Self) -> (r: bool) {
        *self < *other
    }

    fn ties(&self, other: &Self) -> (r: bool) {
        *self == *other
    }
}

/// A `u128` is ordered by its value.
impl Ranked for u128 {
    open spec fn spec_rank(&self) -> int {
        *self as int
    }

    fn precedes(&self, other: &Self) -> (r: bool) {
        *self < *other
    }

    fn ties(&self, other: &Self) -> (r: bool) {
        *self == *other
    }
}

/// A `usize` is ordered by its value.
impl Ranked for usize {
    open spec fn spec_rank(&self) -> int {
        *self as int
    }

    fn precedes(&self, other: &Self) -> (r: bool) {
        *self < *other
    }

    fn ties(&self, other: &Self) -> (r: bool) {
        *self == *other
    }
}

/// A `i8` is ordered by its value.
impl Ranked for i8 {
    open spec fn spec_rank(&self) -> int {
        *self as int
    }

    fn precedes(&self, other: &Self) -> (r: bool) {
        *self < *other
    }

    fn ties(&self, other: &Self) -> (r: bool) {
        *self == *other
    }
}

/// A `i16` is ordered by its value.
impl Ranked for i16 {
    open spec fn spec_rank(&self) -> int {
        *self as int
    }

    fn precedes(&self, other: &Self) -> (r: bool) {
        *self < *other
    }

    fn ties(&self, other: &Self) -> (r: bool) {
        *self == *other
    }
}

/// A `i32` is ordered by its value.
impl Ranked for i32 {
    open spec fn spec_rank(&self) -> int {
        *self as int
    }

    fn precedes(&self, other: &Self) -> (r: bool) {
        *self < *other
    }

    fn ties(&self, other: &Self) -> (r: bool) {
        *self == *other
    }
}

/// A `i64` is ordered by its value.
impl Ranked for i64 {
    open spec fn spec_rank(&self) -> int {
        *self as int
    }

    fn precedes(&self, other: &Self) -> (r: bool) {
        *self < *other
    }

    fn ties(&self, other: &Self) -> (r: bool) {
        *self == *other
    }
}

/// A `i128` is ordered by its value.
impl Ranked for i128 {
    open spec fn spec_rank(&self) -> int {
        *self as int
    }

    fn precedes(&self, other: &Self) -> (r: bool) {
        *self < *other
    }

    fn ties(&self, other: &Self) -> (r: bool) {
        *self == *other
    }
}

/// A `isize` is ordered by its value.
impl Ranked for isize {
    open spec fn spec_rank(&self) -> int {
        *self as int
    }

    fn precedes(&self, other: &Self) -> (r: bool) {
        *self < *other
    }

    fn ties(&self, other: &Self) -> (r: bool) {
        *self == *other
    }
}

/// Integers are checked in ascending numeric order: after an accepted `a`, a larger `b` is
/// accepted, an equal one is a duplicate, and a smaller one is out of order.
pub proof fn lemma_integers_ascend(a: u32, b: u32, c: i64, d: i64)
    ensures
        spec_check(Some(a), b) == (if a < b {
            Ok::<Option<u32>, OrderingError<u32>>(Some(b))
        } else if a == b {
            Err(OrderingError::Duplicate(b))
        } else {
            Err(OrderingError::OutOfOrder { next: b, previous: a })
        }),
        spec_check(Some(c), d) == (if c < d {
            Ok::<Option<i64>, OrderingError<i64>>(Some(d))
        } else if c == d {
            Err(OrderingError::Duplicate(d))
        } else {
            Err(OrderingError::OutOfOrder { next: d, previous: c })
        }),
{
}

/// Error when the items processed by an [`OrderTracker<T>`] are not in the correct order.
#[derive(Clone, Copy, Debug, PartialEq, Eq)]
#[non_exhaustive]
pub enum OrderingError<T: Copy> {
    /// A duplicate item was encountered.
    Duplicate(T),
    /// An item was not in the correct order.
    OutOfOrder { next: T, previous: T },
}

/// Helper struct to ensure that items are in **ascending** order.
#[derive(Clone, Copy, Debug)]
pub struct OrderTracker<T: Ranked> {
    previous: Option<T>,
}

impl<T: Ranked> View for OrderTracker<T> {
    type V = Option<T>;

    /// The item last accepted by [`OrderTracker::check`], if any.
    closed spec fn view(&self) -> Option<T> {
        self.previous
    }
}

/// What [`OrderTracker::check`] does with `next` when `previous` was the last accepted item: the
/// new last accepted item, or the error.
pub open spec fn spec_check<T: Ranked>(previous: Option<T>, next: T) -> Result<Option<T>, OrderingError<T>> {
    match previous {
        Some(p) => if next.spec_rank() == p.spec_rank() {
            Err(OrderingError::Duplicate(next))
        } else if next.spec_rank() < p.spec_rank() {
            Err(OrderingError::OutOfOrder { next, previous: p })
        } else {
            Ok(Some(next))
        },
        None => Ok(Some(next)),
    }
}

/// Runs [`spec_check`] over `items` in turn, starting from `previous`.
pub open spec fn spec_check_all<T: Ranked>(previous: Option<T>, items: Seq<T>) -> Result<Option<T>, OrderingError<T>>
    decreases items.len(),
{
    if items.len() == 0 {
        Ok(previous)
    } else {
        match spec_check(previous, items[0]) {
            Ok(p) => spec_check_all(p, items.drop_first()),
            Err(e) => Err(e),
        }
    }
}

/// The ranks of `items` strictly increase.
pub open spec fn strictly_ascending<T: Ranked>(items: Seq<T>) -> bool {
    forall|i: int, j: int| 0 <= i < j < items.len() ==> items[i].spec_rank() < items[j].spec_rank()
}

/// Every item comes after `previous`.
pub open spec fn all_after<T: Ranked>(previous: Option<T>, items: Seq<T>) -> bool {
    previous matches Some(p) ==> forall|i: int| 0 <= i < items.len() ==> p.spec_rank() < items[i].spec_rank()
}

/// A sequence of items passes the checks in turn exactly when the items are in strictly
/// ascending order after the previously accepted item; the last item is then the one recorded.
pub proof fn lemma_check_all_ascending<T: Ranked>(previous: Option<T>, items: Seq<T>)
    ensures
        spec_check_all(previous, items) is Ok <==> (strictly_ascending(items) && all_after(previous, items)),
        spec_check_all(previous, items) is Ok && items.len() > 0 ==> spec_check_all(previous, items)
            == Ok::<Option<T>, OrderingError<T>>(Some(items.last())),
    decreases items.len(),
{
    if items.len() > 0 {
        let rest = items.drop_first();
        lemma_check_all_ascending(Some(items[0]), rest);
        if spec_check(previous, items[0]) is Ok {
            assert(strictly_ascending(items) && all_after(previous, items) <==> strictly_ascending(rest)
                && all_after(Some(items[0]), rest)) by {
                if strictly_ascending(rest) && all_after(Some(items[0]), rest) {
                    assert forall|i: int, j: int| 0 <= i < j < items.len() implies items[i].spec_rank()
                        < items[j].spec_rank() by {
                        if i > 0 {
                            assert(items[i] == rest[i - 1] && items[j] == rest[j - 1]);
                        } else {
                            assert(items[j] == rest[j - 1]);
                        }
                    }
                }
                if strictly_ascending(items) && all_after(previous, items) {
                    assert forall|i: int, j: int| 0 <= i < j < rest.len() implies rest[i].spec_rank()
                        < rest[j].spec_rank() by {
                        assert(rest[i] == items[i + 1] && rest[j] == items[j + 1]);
                    }
                    assert forall|i: int| 0 <= i < rest.len() implies items[0].spec_rank()
                        < rest[i].spec_rank() by {
                        assert(rest[i] == items[i + 1]);
                    }
                }
            }
            if rest.len() > 0 {
                assert(rest.last() == items.last());
            }
        } else {
            assert(!all_after(previous, items) || !strictly_ascending(items)) by {
                if let Some(p) = previous {
                    assert(items[0].spec_rank() <= p.spec_rank());
                }
            }
        }
    }
}

/// The last accepted item after [`OrderTracker::check`] is called with `next` when `previous`
/// was the last accepted item: `next` if it is accepted, `previous` otherwise.
pub open spec fn spec_after_check<T: Ranked>(previous: Option<T>, next: T) -> Option<T> {
    match spec_check(previous, next) {
        Ok(p) => p,
        Err(_) => previous,
    }
}

/// The last accepted item after [`OrderTracker::check`] is called with each of `items` in turn,
/// starting from `previous`; refused items leave it as it was.
pub open spec fn spec_check_run<T: Ranked>(previous: Option<T>, items: Seq<T>) -> Option<T>
    decreases items.len(),
{
    if items.len() == 0 {
        previous
    } else {
        spec_check_run(spec_after_check(previous, items[0]), items.drop_first())
    }
}

/// The items that [`OrderTracker::check`] accepts when it is called with each of `items` in turn,
/// starting from `previous`, in call order.
pub open spec fn spec_accepted<T: Ranked>(previous: Option<T>, items: Seq<T>) -> Seq<T>
    decreases items.len(),
{
    if items.len() == 0 {
        Seq::empty()
    } else {
        let first = if spec_check(previous, items[0]) is Ok { seq![items[0]] } else { Seq::empty() };
        first + spec_accepted(spec_after_check(previous, items[0]), items.drop_first())
    }
}

/// Whatever items [`OrderTracker::check`] is called with, and whichever of them it refuses, the
/// items it accepts come in strictly ascending order, each after the item accepted before the
/// calls; and the item it records last is the last one it accepted (or the one from before the
/// calls, if it accepted none).
pub proof fn lemma_check_run<T: Ranked>(previous: Option<T>, items: Seq<T>)
    ensures
        strictly_ascending(spec_accepted(previous, items)),
        all_after(previous, spec_accepted(previous, items)),
        spec_check_run(previous, items) == (if spec_accepted(previous, items).len() == 0 {
            previous
        } else {
            Some(spec_accepted(previous, items).last())
        }),
    decreases items.len(),
{
    if items.len() > 0 {
        let x = items[0];
        let rest = items.drop_first();
        let q = spec_after_check(previous, x);
        lemma_check_run(q, rest);
        let tail = spec_accepted(q, rest);
        let all = spec_accepted(previous, items);
        if spec_check(previous, x) is Ok {
            assert(q == Some(x));
            assert(all == seq![x] + tail);
            assert forall|i: int, j: int| 0 <= i < j < all.len() implies all[i].spec_rank() < all[j].spec_rank() by {
                assert(all[j] == tail[j - 1]);
                if i > 0 {
                    assert(all[i] == tail[i - 1]);
                }
            }
            if let Some(p) = previous {
                assert forall|i: int| 0 <= i < all.len() implies p.spec_rank() < all[i].spec_rank() by {
                    if i > 0 {
                        assert(all[i] == tail[i - 1]);
                    }
                }
            }
            if tail.len() > 0 {
                assert(all.last() == tail.last());
            }
        } else {
            assert(q == previous);
            assert(all =~= tail);
        }
    }
}

impl<T: Ranked> OrderTracker<T> {
    /// Constructs a new [`OrderTracker<T>`] that has not yet accepted any item.
    pub fn new() -> (res: Self)
        ensures
            res@ == None::<T>,
    {
        Self { previous: None }
    }

    /// Gets the previous value accepted by [`check()`](OrderTracker::check).
    pub fn previous(&self) -> (res: Option<&T>)
        ensures
            res == match self@ {
                Some(p) => Some(&p),
                None => None::<&T>,
            },
    {
        match &self.previous {
            Some(p) => Some(p),
            None => None,
        }
    }

    /// Checks that the `next` item is in the correct order, recording it if it is.
    pub fn check(&mut self, next: T) -> (res: Result<(), OrderingError<T>>)
        ensures
            match spec_check(old(self)@, next) {
                Ok(p) => res is Ok && final(self)@ == p,
                Err(e) => res == Err::<(), OrderingError<T>>(e) && final(self)@ == old(self)@,
            },
    {
        match self.previous {
            Some(previous) => {
                if next.ties(&previous) {
                    Err(OrderingError::Duplicate(next))
                } else if next.precedes(&previous) {
                    Err(OrderingError::OutOfOrder { next, previous })
                } else {
                    self.previous = Some(next);
                    Ok(())
                }
            },
            None => {
                self.previous = Some(next);
                Ok(())
            },
        }
    }
}

impl<T: Ranked> Default for OrderTracker<T> {
    fn default() -> (res: Self)
        ensures
            res@ == None::<T>,
    {
        Self::new()
    }
}

} // verus!
