//! Traits for heap allocated storage used when parsing complex WebAssembly structures, and their
//! implementations over the standard library's global allocator.

use vstd::prelude::*;

verus! {

/// Trait for heap allocated arrays that can be resized.
pub trait Vector: Sized {
    /// The item that the vector contains.
    type Item;

    /// The items that the vector holds, in order.
    spec fn items(&self) -> Seq<Self::Item>;

    /// Appends an item to the end of the vector.
    fn push(&mut self, item: Self::Item)
        ensures
            final(self).items() == old(self).items().push(item),
    ;

    /// Pops an item from the end of the vector, returning `None` if the vector is empty.
    fn pop(&mut self) -> (r: Option<Self::Item>)
        ensures
            old(self).items().len() == 0 ==> r is None && final(self).items() == old(self).items(),
            old(self).items().len() > 0 ==> r == Some(old(self).items().last())
                && final(self).items() == old(self).items().drop_last(),
    ;

    /// Drops all of the items in the vector.
    fn clear(&mut self)
        ensures
            final(self).items() == Seq::<Self::Item>::empty(),
    ;

    /// Reserves space for appending at least `additional` items to the end of the vector.
    fn reserve(&mut self, additional: usize)
        ensures
            final(self).items() == old(self).items(),
    ;
}

impl<T> Vector for Vec<T> {
    type Item = T;

    open spec fn items(&self) -> Seq<T> {
        self@
    }

    fn push(&mut self, item: T) {
        Vec::push(self, item);
    }

    fn pop(&mut self) -> (r: Option<T>) {
        let r = Vec::pop(self);
        proof {
            if old(self)@.len() > 0 {
                assert(old(self)@.drop_last() =~= old(self)@.subrange(0, old(self)@.len() - 1));
            }
        }
        r
    }

    fn clear(&mut self) {
        Vec::clear(self);
    }

    fn reserve(&mut self, additional: usize) {
        Vec::reserve(self, additional);
    }
}

/// Trait that provides vectors allocated on a heap.
pub trait Heap {
    /// Returns an empty [`Vector`].
    fn vector<T>(&self) -> (r: Vec<T>)
        ensures
            r@ == Seq::<T>::empty(),
    ;

    /// Allocates a new empty [`Vector`] with sufficient space to contain `capacity` elements.
    fn vector_with_capacity<T>(&self, capacity: usize) -> (r: Vec<T>)
        ensures
            r@ == Seq::<T>::empty(),
    ;
}

/// A [`Heap`] implementation that defers to the Rust standard library's global allocator.
#[derive(Clone, Copy, Debug, Default, PartialEq, Eq)]
pub struct DefaultHeap;

impl Heap for DefaultHeap {
    fn vector<T>(&self) -> (r: Vec<T>) {
        Vec::new()
    }

    fn vector_with_capacity<T>(&self, capacity: usize) -> (r: Vec<T>) {
        Vec::with_capacity(capacity)
    }
}

} // verus!
