//! The portable vector value and its memory contract.
//!
//! A [`Vector`] holds exactly one lane per unit of its width marker and is a
//! plain value: copying it copies lanes, never memory it was read from.  All
//! constructors pin the lane contents to the scalars they were gathered
//! from, and [`Vector::write_to`] pins exactly which scalars a write-back
//! touches, so a consumer can reason about vector code entirely through
//! sequences of scalars.

use vstd::prelude::*;

use crate::arch::Generic;
use crate::width::Width;
use core::marker::PhantomData;

verus! {

/// The scalars of `s` with the window `w` written over offset `at`.
pub open spec fn overwrite<T>(s: Seq<T>, at: int, w: Seq<T>) -> Seq<T> {
    s.take(at) + w + s.skip(at + w.len())
}

/// Writing a window back over the very scalars it was read from leaves the
/// memory unchanged.
pub proof fn lemma_overwrite_round_trip<T>(s: Seq<T>, at: int, w: Seq<T>)
    requires
        0 <= at,
        at + w.len() <= s.len(),
        w == s.subrange(at, at + w.len()),
    ensures
        overwrite(s, at, w) == s,
{
    assert(overwrite(s, at, w) =~= s);
}

/// A write-back changes exactly its window: afterwards the window holds the
/// written scalars and every offset outside it is unchanged.
pub proof fn lemma_overwrite_effect<T>(s: Seq<T>, at: int, w: Seq<T>)
    requires
        0 <= at,
        at + w.len() <= s.len(),
    ensures
        overwrite(s, at, w).subrange(at, at + w.len()) == w,
        forall|j: int|
            0 <= j < s.len() && !(at <= j < at + w.len()) ==> overwrite(s, at, w)[j] == s[j],
        overwrite(s, at, w).len() == s.len(),
{
    assert(overwrite(s, at, w).subrange(at, at + w.len()) =~= w);
}

/// An overwrite within bounds keeps the length of the memory.
pub proof fn lemma_overwrite_len<T>(s: Seq<T>, at: int, w: Seq<T>)
    requires
        0 <= at,
        at + w.len() <= s.len(),
    ensures
        overwrite(s, at, w).len() == s.len(),
{
}

/// A fixed-width vector of scalars.
///
/// The width marker `W` fixes the lane count at compile time;
/// [`Vector::wf`] ties the run-time representation to it.
pub struct Vector<T, W> {
    lanes: Vec<T>,
    width: PhantomData<W>,
}

impl<T, W> View for Vector<T, W> {
    type V = Seq<T>;

    closed spec fn view(&self) -> Seq<T> {
        self.lanes@
    }
}

impl<T: Copy, W: Width> Vector<T, W> {
    /// A vector is well formed when it holds exactly one scalar per lane of
    /// its width marker.
    pub open spec fn wf(&self) -> bool {
        self@.len() == W::spec_lanes()
    }

    /// The lane count of this vector type.
    pub fn width() -> (n: usize)
        ensures
            n == W::spec_lanes(),
            1 <= n <= 8,
    {
        W::lanes()
    }

    /// A vector with every lane holding the scalar type's default value.
    ///
    /// Which scalar that is belongs to the scalar type; the contract pins
    /// that all lanes hold the same one.  [`Vector::splat`] pins the exact
    /// lane contents when the caller supplies the scalar itself.
    pub fn zeroed(token: Generic) -> (v: Self) where T: Default
        ensures
            v.wf(),
            forall|i: int, j: int| 0 <= i < v@.len() && 0 <= j < v@.len() ==> v@[i] == v@[j],
    {
        let x = T::default();
        Self::splat(token, x)
    }

    /// A vector with every lane equal to `x`.
    pub fn splat(_token: Generic, x: T) -> (v: Self)
        ensures
            v.wf(),
            forall|i: int| 0 <= i < v@.len() ==> v@[i] == x,
    {
        let w = W::lanes();
        let mut lanes: Vec<T> = Vec::new();
        let mut i: usize = 0;
        while i < w
            invariant
                i <= w,
                lanes@.len() == i,
                forall|j: int| 0 <= j < i ==> lanes@[j] == x,
            decreases w - i,
        {
            lanes.push(x);
            i += 1;
        }
        Vector { lanes, width: PhantomData }
    }

    /// Gather one vector of scalars from `s`, starting at offset `at`.
    ///
    /// This is the single primitive every read path of the crate funnels
    /// through; the precondition is exactly the bound that keeps the access
    /// inside the buffer.
    pub fn read_at(_token: Generic, s: &[T], at: usize) -> (v: Self)
        requires
            at + W::spec_lanes() <= s@.len(),
        ensures
            v.wf(),
            v@ == s@.subrange(at as int, at + W::spec_lanes()),
    {
        let w = W::lanes();
        let n = s.len();
        let mut lanes: Vec<T> = Vec::new();
        let mut i: usize = 0;
        while i < w
            invariant
                i <= w,
                w == W::spec_lanes(),
                at + w <= n,
                n == s@.len(),
                lanes@ == s@.subrange(at as int, at + i),
            decreases w - i,
        {
            lanes.push(*vstd::slice::slice_index_get(s, at + i));
            i += 1;
            proof {
                assert(lanes@ =~= s@.subrange(at as int, at + i));
            }
        }
        Vector { lanes, width: PhantomData }
    }

    /// Read a vector from the front of a slice, without a run-time length
    /// check.  The length precondition is discharged statically, so a
    /// violated bound cannot reach this function.
    pub fn read_unchecked(token: Generic, s: &[T]) -> (v: Self)
        requires
            s@.len() >= W::spec_lanes(),
        ensures
            v.wf(),
            v@ == s@.subrange(0, W::spec_lanes() as int),
    {
        Self::read_at(token, s, 0)
    }

    /// Read a vector from the front of a slice.
    ///
    /// Shares its contract with [`Vector::read_unchecked`]: both demand the
    /// length bound as a verified precondition, so neither can fault at run
    /// time.  The two entry points let call sites record whether the bound
    /// was established locally or inherited from an enclosing proof.
    pub fn read(token: Generic, s: &[T]) -> (v: Self)
        requires
            s@.len() >= W::spec_lanes(),
        ensures
            v.wf(),
            v@ == s@.subrange(0, W::spec_lanes() as int),
    {
        Self::read_at(token, s, 0)
    }

    /// The scalar held in lane `i`.
    pub fn lane(&self, i: usize) -> (x: T)
        requires
            self.wf(),
            i < W::spec_lanes(),
        ensures
            x == self@[i as int],
    {
        self.lanes[i]
    }

    /// Replace the scalar held in lane `i`.
    pub fn set_lane(&mut self, i: usize, x: T)
        requires
            old(self).wf(),
            i < W::spec_lanes(),
        ensures
            final(self).wf(),
            final(self)@ == old(self)@.update(i as int, x),
    {
        self.lanes[i] = x;
    }

    /// Write every lane back into `data`, starting at offset `at`.  Exactly
    /// the scalars of the window are touched; the rest of the buffer is
    /// unchanged.
    pub fn write_to(&self, data: &mut Vec<T>, at: usize)
        requires
            self.wf(),
            at + W::spec_lanes() <= old(data)@.len(),
        ensures
            final(data)@ == overwrite(old(data)@, at as int, self@),
            final(data)@.len() == old(data)@.len(),
    {
        let w = W::lanes();
        let n = data.len();
        let mut i: usize = 0;
        while i < w
            invariant
                i <= w,
                w == W::spec_lanes(),
                self.wf(),
                at + w <= n,
                n == old(data)@.len(),
                data@.len() == old(data)@.len(),
                forall|j: int|
                    0 <= j < data@.len() && !(at <= j < at + i) ==> data@[j] == old(data)@[j],
                forall|j: int| at <= j < at + i ==> data@[j] == self@[j - at],
            decreases w - i,
        {
            let x = self.lane(i);
            data[at + i] = x;
            i += 1;
        }
        proof {
            assert(data@ =~= overwrite(old(data)@, at as int, self@));
        }
    }
}

/// The scalars of a run of vectors, in order.
pub open spec fn concat_of<T, W>(vs: Seq<Vector<T, W>>) -> Seq<T>
    decreases vs.len(),
{
    if vs.len() == 0 {
        Seq::empty()
    } else {
        concat_of(vs.drop_last()) + vs.last()@
    }
}

/// Appending a vector appends its scalars.
pub proof fn lemma_concat_of_push<T, W>(vs: Seq<Vector<T, W>>, v: Vector<T, W>)
    ensures
        concat_of(vs.push(v)) == concat_of(vs) + v@,
{
    assert(vs.push(v).drop_last() =~= vs);
    assert(vs.push(v).last() == v);
}

/// The checked and the unchecked read agree: whenever the length
/// precondition holds, any vector a checked read returns and any vector an
/// unchecked read returns from the same scalars hold identical contents.
pub proof fn lemma_checked_unchecked_agree<T, W: Width>(s: Seq<T>, a: Vector<T, W>, b: Vector<T, W>)
    requires
        W::spec_lanes() <= s.len(),
        a@ == s.subrange(0, W::spec_lanes() as int),
        b@ == s.subrange(0, W::spec_lanes() as int),
    ensures
        a@ == b@,
{
}

/// Reading is idempotent: two reads of the same window of the same scalars,
/// with no intervening write, yield bitwise-identical vectors, whichever
/// read path produced each.
pub proof fn lemma_read_idempotent<T, W: Width>(s: Seq<T>, at: int, a: Vector<T, W>, b: Vector<T, W>)
    requires
        0 <= at,
        at + W::spec_lanes() <= s.len(),
        a@ == s.subrange(at, at + W::spec_lanes()),
        b@ == s.subrange(at, at + W::spec_lanes()),
    ensures
        a@ == b@,
{
}

} // verus!
