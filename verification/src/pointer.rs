//! Vector reads through scalar pointers.
//!
//! A [`ScalarPtr`] is an address into a borrowed run of scalars: a base
//! buffer plus an element offset.  It carries no length of its own to check
//! at run time; instead every read demands, as a verified precondition, that
//! the addressed run still holds a full vector of scalars.  No alignment is
//! required of the address — this is the unaligned read path.

use vstd::prelude::*;

use crate::arch::Generic;
use crate::vector::Vector;
use crate::width::{Native, NativeWidth, Width, W1, W2, W4, W8};

verus! {

/// An address of a scalar within a borrowed buffer.
///
/// The view of a pointer is the run of scalars from the addressed element to
/// the end of its buffer.
pub struct ScalarPtr<'a, T> {
    buf: &'a [T],
    at: usize,
}

impl<'a, T> Clone for ScalarPtr<'a, T> {
    fn clone(&self) -> (r: Self)
        ensures
            r == *self,
    {
        proof {
            use_type_invariant(self);
        }
        ScalarPtr { buf: self.buf, at: self.at }
    }
}

impl<'a, T> Copy for ScalarPtr<'a, T> {

}

impl<'a, T> View for ScalarPtr<'a, T> {
    type V = Seq<T>;

    closed spec fn view(&self) -> Seq<T> {
        self.buf@.skip(self.at as int)
    }
}

impl<'a, T> ScalarPtr<'a, T> {
    #[verifier::type_invariant]
    spec fn inv(&self) -> bool {
        self.at <= self.buf@.len()
    }
}

impl<'a, T: Copy> ScalarPtr<'a, T> {
    /// The address of element `at` of `buf`.
    pub fn new(buf: &'a [T], at: usize) -> (p: Self)
        requires
            at <= buf@.len(),
        ensures
            p@ == buf@.skip(at as int),
    {
        ScalarPtr { buf, at }
    }

    /// The address `n` elements past this one.
    pub fn offset(self, n: usize) -> (p: Self)
        requires
            n <= self@.len(),
        ensures
            p@ == self@.skip(n as int),
    {
        proof {
            use_type_invariant(&self);
        }
        let len = self.buf.len();
        assert(self.at + n <= len);
        let p = ScalarPtr { buf: self.buf, at: self.at + n };
        proof {
            assert(p@ =~= self@.skip(n as int));
        }
        p
    }

    /// The scalar `i` elements past the addressed one.
    pub fn scalar(&self, i: usize) -> (x: T)
        requires
            i < self@.len(),
        ensures
            x == self@[i as int],
    {
        proof {
            use_type_invariant(self);
        }
        let len = self.buf.len();
        assert(self.at + i < len);
        *vstd::slice::slice_index_get(self.buf, self.at + i)
    }
}

/// A scalar address supporting the vector read of one width.
pub trait PointerSized<T: Copy, W: Width>: Copy + View<V = Seq<T>> {
    /// Read a vector from the addressed scalars.  The precondition is the
    /// whole safety story: at least one vector of scalars must remain at the
    /// address.
    fn vector_read(self, token: Generic) -> (v: Vector<T, W>)
        requires
            self@.len() >= W::spec_lanes(),
        ensures
            v.wf(),
            v@ == self@.subrange(0, W::spec_lanes() as int),
    ;
}

impl<'a, T: Copy, W: Width> PointerSized<T, W> for ScalarPtr<'a, T> {
    fn vector_read(self, token: Generic) -> (v: Vector<T, W>) {
        proof {
            use_type_invariant(&self);
        }
        let v = Vector::read_at(token, self.buf, self.at);
        proof {
            assert(v@ =~= self@.subrange(0, W::spec_lanes() as int));
        }
        v
    }
}

/// A scalar address supporting the vector reads of every width.
pub trait Pointer<T>: PointerSized<T, W1> + PointerSized<T, W2> + PointerSized<
    T,
    W4,
> + PointerSized<T, W8> + PointerSized<T, NativeWidth<T>> where T: Copy + Native {
    /// Read a vector with 1 lane from the addressed scalars.
    fn vector_read1(self, token: Generic) -> (v: Vector<T, W1>)
        requires
            self@.len() >= 1,
        ensures
            v.wf(),
            v@ == self@.subrange(0, 1),
    {
        <Self as PointerSized<T, W1>>::vector_read(self, token)
    }

    /// Read a vector with 2 lanes from the addressed scalars.
    fn vector_read2(self, token: Generic) -> (v: Vector<T, W2>)
        requires
            self@.len() >= 2,
        ensures
            v.wf(),
            v@ == self@.subrange(0, 2),
    {
        <Self as PointerSized<T, W2>>::vector_read(self, token)
    }

    /// Read a vector with 4 lanes from the addressed scalars.
    fn vector_read4(self, token: Generic) -> (v: Vector<T, W4>)
        requires
            self@.len() >= 4,
        ensures
            v.wf(),
            v@ == self@.subrange(0, 4),
    {
        <Self as PointerSized<T, W4>>::vector_read(self, token)
    }

    /// Read a vector with 8 lanes from the addressed scalars.
    fn vector_read8(self, token: Generic) -> (v: Vector<T, W8>)
        requires
            self@.len() >= 8,
        ensures
            v.wf(),
            v@ == self@.subrange(0, 8),
    {
        <Self as PointerSized<T, W8>>::vector_read(self, token)
    }

    /// Read a vector with the native number of lanes from the addressed
    /// scalars.
    fn vector_read_native(self, token: Generic) -> (v: Vector<T, NativeWidth<T>>)
        requires
            self@.len() >= NativeWidth::<T>::spec_lanes(),
        ensures
            v.wf(),
            v@ == self@.subrange(0, NativeWidth::<T>::spec_lanes() as int),
    {
        <Self as PointerSized<T, NativeWidth<T>>>::vector_read(self, token)
    }
}

impl<'a, T: Copy + Native> Pointer<T> for ScalarPtr<'a, T> {

}

} // verus!
