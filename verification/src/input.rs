//! Types and traits for processing parser input.

use vstd::prelude::*;

verus! {

/// Trait for obtaining parser input.
pub trait AsInput<'a> {
    /// The bytes that [`AsInput::as_input`] hands out.
    spec fn input_bytes(&self) -> Seq<u8>;

    /// Gets the underlying input to the parser.
    fn as_input(&self) -> (r: &'a [u8])
        ensures
            r@ == self.input_bytes(),
    ;
}

impl<'a> AsInput<'a> for &'a [u8] {
    open spec fn input_bytes(&self) -> Seq<u8> {
        (*self)@
    }

    fn as_input(&self) -> (r: &'a [u8]) {
        *self
    }
}

} // verus!
