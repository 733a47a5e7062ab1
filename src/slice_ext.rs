//! Splitting byte slices, shared or mutable, at a checked position.

use vstd::prelude::*;

verus! {

/// Some extension for `&[u8]`
pub trait SliceExt {
    /// The bytes that `self` holds.
    spec fn bytes(&self) -> Seq<u8>;

    /// Splits the first `len` bytes off from the front of `self`
    fn split_off(&self, len: usize) -> (r: (&Self, &Self))
        requires
            len <= self.bytes().len(),
        ensures
            r.0.bytes() == self.bytes().subrange(0, len as int),
            r.1.bytes() == self.bytes().subrange(len as int, self.bytes().len() as int),
    ;
}

impl SliceExt for [u8] {
    open spec fn bytes(&self) -> Seq<u8> {
        self@
    }

    fn split_off(&self, len: usize) -> (r: (&[u8], &[u8])) {
        self.split_at(len)
    }
}

/// Some extension for `&mut[u8]`
pub trait MutSliceExt {
    /// The bytes that `self` holds.
    spec fn bytes_mut(&self) -> Seq<u8>;

    /// Splits the first `len` bytes off from the front of `self` and returns `(front, remaining)`
    fn split_off_mut(&mut self, len: usize) -> (r: (&mut Self, &mut Self))
        requires
            len <= old(self).bytes_mut().len(),
        ensures
            r.0.bytes_mut() == old(self).bytes_mut().subrange(0, len as int),
            r.1.bytes_mut() == old(self).bytes_mut().subrange(len as int, old(self).bytes_mut().len() as int),
            final(self).bytes_mut() == final(r.0).bytes_mut() + final(r.1).bytes_mut(),
    ;
}

impl MutSliceExt for [u8] {
    open spec fn bytes_mut(&self) -> Seq<u8> {
        self@
    }

    fn split_off_mut(&mut self, len: usize) -> (r: (&mut [u8], &mut [u8])) {
        self.split_at_mut(len)
    }
}

} // verus!
