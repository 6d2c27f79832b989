//! Vector-typed views of scalar slices.
//!
//! A slice of scalars can be bridged to vectors in three ways: reading one
//! vector from its front ([`Slice::read`]), partitioning it into an
//! unaligned prefix, a run of whole vectors and an unaligned suffix
//! ([`Slice::align`]), and sliding a vector-sized window across every scalar
//! offset ([`Overlapping`] and [`OverlappingMut`]).  Mutation of a window is
//! mediated by [`RefMut`], a guard holding a vector temporary that is
//! flushed back over its source scalars by [`OverlappingMut::commit`].

use vstd::prelude::*;

use vstd::arithmetic::div_mod::lemma_fundamental_div_mod_converse_div;

use crate::arch::{Generic, Token};
use crate::vector::{concat_of, lemma_concat_of_push, overwrite, Vector};
use crate::width::{Native, NativeWidth, Width, W1, W2, W4, W8};
use core::marker::PhantomData;

verus! {

/// The partition of the scalars `s` at element offset `head`: `prefix` holds
/// the scalars before `head`, `body` as many whole vectors as fit from
/// `head` on, and `suffix` the remainder.  Concatenating the three runs
/// reproduces `s` exactly.
pub open spec fn partitioned<T: Copy, W: Width>(
    s: Seq<T>,
    head: int,
    prefix: Seq<T>,
    body: Seq<Vector<T, W>>,
    suffix: Seq<T>,
) -> bool
    recommends
        0 <= head <= s.len(),
{
    &&& prefix == s.subrange(0, head)
    &&& body.len() == (s.len() - head) / (W::spec_lanes() as int)
    &&& (forall|i: int|
        0 <= i < body.len() ==> (#[trigger] body[i]).wf() && body[i]@ == s.subrange(
            head + i * (W::spec_lanes() as int),
            head + (i + 1) * (W::spec_lanes() as int),
        ))
    &&& suffix == s.skip(head + body.len() * (W::spec_lanes() as int))
    &&& suffix.len() < W::spec_lanes()
    &&& prefix + concat_of(body) + suffix == s
    &&& prefix.len() + body.len() * W::spec_lanes() + suffix.len() == s.len()
}

/// Partition the scalars of `s` at element offset `head` into an unaligned
/// prefix, as many whole vectors as fit, and the unaligned remainder.
///
/// The offset is explicit so that callers — and tests — can exercise any
/// synthetic placement of the vector run; [`Slice::align`] fixes it to the
/// front of the slice.
pub fn align_at<T: Copy, W: Width>(token: Generic, s: &[T], head: usize) -> (r: (
    Vec<T>,
    Vec<Vector<T, W>>,
    Vec<T>,
))
    requires
        head <= s@.len(),
    ensures
        partitioned(s@, head as int, r.0@, r.1@, r.2@),
{
    let w = W::lanes();
    let n = s.len();
    let mut prefix: Vec<T> = Vec::new();
    let mut i: usize = 0;
    while i < head
        invariant
            i <= head,
            head <= n,
            n == s@.len(),
            prefix@ == s@.subrange(0, i as int),
        decreases head - i,
    {
        prefix.push(*vstd::slice::slice_index_get(s, i));
        i += 1;
        proof {
            assert(prefix@ =~= s@.subrange(0, i as int));
        }
    }
    let mut body: Vec<Vector<T, W>> = Vec::new();
    let mut pos: usize = head;
    while n - pos >= w
        invariant
            w == W::spec_lanes(),
            1 <= w,
            head <= pos <= n,
            n == s@.len(),
            pos == head + body@.len() * w,
            forall|k: int|
                0 <= k < body@.len() ==> (#[trigger] body@[k]).wf() && body@[k]@ == s@.subrange(
                    head + k * (w as int),
                    head + (k + 1) * (w as int),
                ),
            concat_of(body@) == s@.subrange(head as int, pos as int),
        decreases n - pos,
    {
        let v = Vector::<T, W>::read_at(token, s, pos);
        proof {
            let len = body@.len() as int;
            lemma_concat_of_push(body@, v);
            assert((len + 1) * w == len * w + w) by (nonlinear_arith);
            assert(s@.subrange(head as int, pos as int) + s@.subrange(pos as int, pos + w) =~= s@
                .subrange(head as int, pos + w));
        }
        body.push(v);
        pos += w;
    }
    let mut suffix: Vec<T> = Vec::new();
    let mut j: usize = pos;
    while j < n
        invariant
            pos <= j <= n,
            n == s@.len(),
            suffix@ == s@.subrange(pos as int, j as int),
        decreases n - j,
    {
        suffix.push(*vstd::slice::slice_index_get(s, j));
        j += 1;
        proof {
            assert(suffix@ =~= s@.subrange(pos as int, j as int));
        }
    }
    proof {
        let li = body@.len() as int;
        let wi = w as int;
        lemma_fundamental_div_mod_converse_div(n - head, wi, li, n - pos);
        assert(suffix@ =~= s@.skip(head + li * wi));
        assert(prefix@ + concat_of(body@) + suffix@ =~= s@);
    }
    (prefix, body, suffix)
}

/// Rebuild one scalar buffer from a partition, concatenating the prefix, the
/// scalars of every vector of the body in order, and the suffix.  This is
/// the write-back path for a partition whose vectors were mutated in place.
pub fn recombine<T: Copy, W: Width>(
    prefix: &Vec<T>,
    body: &Vec<Vector<T, W>>,
    suffix: &Vec<T>,
) -> (r: Vec<T>)
    requires
        forall|i: int| 0 <= i < body@.len() ==> (#[trigger] body@[i]).wf(),
    ensures
        r@ == prefix@ + concat_of(body@) + suffix@,
{
    let w = W::lanes();
    let mut r: Vec<T> = Vec::new();
    let mut i: usize = 0;
    let np = prefix.len();
    while i < np
        invariant
            i <= np,
            np == prefix@.len(),
            r@ == prefix@.subrange(0, i as int),
        decreases np - i,
    {
        r.push(prefix[i]);
        i += 1;
        proof {
            assert(r@ =~= prefix@.subrange(0, i as int));
        }
    }
    proof {
        assert(prefix@.subrange(0, np as int) =~= prefix@);
    }
    let nb = body.len();
    let mut k: usize = 0;
    while k < nb
        invariant
            k <= nb,
            w == W::spec_lanes(),
            nb == body@.len(),
            forall|m: int| 0 <= m < body@.len() ==> (#[trigger] body@[m]).wf(),
            r@ == prefix@ + concat_of(body@.take(k as int)),
        decreases nb - k,
    {
        let mut l: usize = 0;
        while l < w
            invariant
                l <= w,
                k < nb,
                w == W::spec_lanes(),
                nb == body@.len(),
                forall|m: int| 0 <= m < body@.len() ==> (#[trigger] body@[m]).wf(),
                r@ == prefix@ + concat_of(body@.take(k as int)) + body@[k as int]@.subrange(
                    0,
                    l as int,
                ),
            decreases w - l,
        {
            r.push(body[k].lane(l));
            l += 1;
            proof {
                assert(r@ =~= prefix@ + concat_of(body@.take(k as int)) + body@[k as int]@
                    .subrange(0, l as int));
            }
        }
        k += 1;
        proof {
            let ki = k as int;
            assert(body@.take(ki).drop_last() =~= body@.take(ki - 1));
            assert(body@[ki - 1]@.subrange(0, w as int) =~= body@[ki - 1]@);
            assert(r@ =~= prefix@ + concat_of(body@.take(ki)));
        }
    }
    proof {
        assert(body@.take(nb as int) =~= body@);
    }
    let ns = suffix.len();
    let mut t: usize = 0;
    while t < ns
        invariant
            t <= ns,
            ns == suffix@.len(),
            r@ == prefix@ + concat_of(body@) + suffix@.subrange(0, t as int),
        decreases ns - t,
    {
        r.push(suffix[t]);
        t += 1;
        proof {
            assert(r@ =~= prefix@ + concat_of(body@) + suffix@.subrange(0, t as int));
        }
    }
    proof {
        assert(prefix@ + concat_of(body@) + suffix@.subrange(0, ns as int) =~= prefix@ + concat_of(
            body@,
        ) + suffix@);
    }
    r
}

/// A slice of scalars bridged to vectors of one width.
pub trait Slice<T: Copy, W: Width>: View<V = Seq<T>> {
    /// Read a vector from the front of the slice, without a run-time length
    /// check.  The length precondition is discharged statically, so a
    /// violated bound cannot reach this function.
    fn read_unchecked(&self, token: Generic) -> (v: Vector<T, W>)
        requires
            self@.len() >= W::spec_lanes(),
        ensures
            v.wf(),
            v@ == self@.subrange(0, W::spec_lanes() as int),
    ;

    /// Read a vector from the front of the slice.  Shares its contract with
    /// [`Slice::read_unchecked`]; see [`Vector::read`].
    fn read(&self, token: Generic) -> (v: Vector<T, W>)
        requires
            self@.len() >= W::spec_lanes(),
        ensures
            v.wf(),
            v@ == self@.subrange(0, W::spec_lanes() as int),
    ;

    /// Partition the slice into an (empty) unaligned prefix, a run of whole
    /// vectors, and the unaligned remainder.  The portable vector imposes no
    /// address alignment, so the vector run always starts at the first
    /// scalar; [`align_at`] exposes the partition at any other offset.
    fn align(&self, token: Generic) -> (r: (Vec<T>, Vec<Vector<T, W>>, Vec<T>))
        ensures
            partitioned(self@, 0, r.0@, r.1@, r.2@),
    ;

    /// A sliding window of vectors over the slice, one window at every
    /// scalar offset.
    fn overlapping<'s>(&'s self, token: Generic) -> (o: Overlapping<'s, T, W>)
        requires
            self@.len() >= W::spec_lanes(),
        ensures
            o.wf(),
            o.scalars() == self@,
    ;
}

impl<T: Copy, W: Width> Slice<T, W> for [T] {
    fn read_unchecked(&self, token: Generic) -> (v: Vector<T, W>) {
        Vector::read_unchecked(token, self)
    }

    fn read(&self, token: Generic) -> (v: Vector<T, W>) {
        Vector::read(token, self)
    }

    fn align(&self, token: Generic) -> (r: (Vec<T>, Vec<Vector<T, W>>, Vec<T>)) {
        align_at::<T, W>(token, self, 0)
    }

    fn overlapping<'s>(&'s self, token: Generic) -> (o: Overlapping<'s, T, W>) {
        Overlapping::new(token, self)
    }
}

/// A sliding read-only window of vectors over a borrowed slice of scalars.
///
/// Window `i` covers scalar offsets `i .. i + lanes`, so a window starts at
/// every scalar offset, not only at width-aligned ones.
pub struct Overlapping<'a, T, W> {
    slice: &'a [T],
    width: PhantomData<W>,
}

impl<'a, T: Copy, W: Width> Overlapping<'a, T, W> {
    /// The scalars the view slides over.
    pub closed spec fn scalars(&self) -> Seq<T> {
        self.slice@
    }

    /// The view is well formed when at least one window exists.
    pub open spec fn wf(&self) -> bool {
        self.scalars().len() >= W::spec_lanes()
    }

    /// The number of window positions.
    pub open spec fn spec_len(&self) -> int {
        self.scalars().len() - W::spec_lanes() + 1
    }

    /// The scalars of window `i`.
    pub open spec fn window(&self, i: int) -> Seq<T> {
        self.scalars().subrange(i, i + W::spec_lanes())
    }

    /// A sliding window over `slice`.  At least one full window must fit.
    pub fn new(_token: Generic, slice: &'a [T]) -> (o: Self)
        requires
            slice@.len() >= W::spec_lanes(),
        ensures
            o.wf(),
            o.scalars() == slice@,
    {
        Overlapping { slice, width: PhantomData }
    }

    /// The number of window positions, equal to
    /// `scalars().len() - lanes + 1`.
    pub fn len(&self) -> (n: usize)
        requires
            self.wf(),
        ensures
            n == self.spec_len(),
    {
        self.slice.len() - W::lanes() + 1
    }

    /// The vector at window `index`, or `None` past the last window.
    pub fn get(&self, index: usize) -> (r: Option<Vector<T, W>>)
        requires
            self.wf(),
        ensures
            match r {
                Some(v) => index < self.spec_len() && v.wf() && v@ == self.window(index as int),
                None => index >= self.spec_len(),
            },
    {
        if index < self.len() {
            Some(self.get_unchecked(index))
        } else {
            None
        }
    }

    /// The vector at window `index`, without the bounds test of
    /// [`Overlapping::get`]; the index bound is a verified precondition.
    pub fn get_unchecked(&self, index: usize) -> (v: Vector<T, W>)
        requires
            self.wf(),
            index < self.spec_len(),
        ensures
            v.wf(),
            v@ == self.window(index as int),
    {
        Vector::read_at(Generic::new_unchecked(), self.slice, index)
    }
}

/// A scoped write-back guard over one window of scalars.
///
/// The guard is armed by loading a vector from its source window; while it
/// lives, the vector temporary can be read and mutated like a local value.
/// Its one obligation is the flush: [`OverlappingMut::commit`] consumes the
/// guard and writes the temporary back over the window it was loaded from,
/// so a guard can be flushed at most once, and its mutations are never
/// applied piecemeal.
pub struct RefMut<T, W> {
    temp: Vector<T, W>,
    at: usize,
}

impl<T, W> View for RefMut<T, W> {
    type V = Seq<T>;

    closed spec fn view(&self) -> Seq<T> {
        self.temp@
    }
}

impl<T: Copy, W: Width> RefMut<T, W> {
    /// The scalar offset of the window the guard writes back to.
    pub closed spec fn spec_offset(&self) -> int {
        self.at as int
    }

    /// The guard is well formed when its temporary holds one full vector.
    pub open spec fn wf(&self) -> bool {
        self@.len() == W::spec_lanes()
    }

    /// Arm a guard by loading the vector at scalar offset `at` of `source`.
    pub fn new(token: Generic, source: &[T], at: usize) -> (g: Self)
        requires
            at + W::spec_lanes() <= source@.len(),
        ensures
            g.wf(),
            g.spec_offset() == at,
            g@ == source@.subrange(at as int, at + W::spec_lanes()),
    {
        RefMut { temp: Vector::read_at(token, source, at), at }
    }

    /// The write-back offset as a run-time value.
    pub fn offset(&self) -> (n: usize)
        ensures
            n == self.spec_offset(),
    {
        self.at
    }

    /// The vector temporary the guard holds.
    pub fn vector(&self) -> (v: &Vector<T, W>)
        ensures
            v@ == self@,
    {
        &self.temp
    }

    /// Replace the whole vector temporary.
    pub fn set(&mut self, v: Vector<T, W>)
        requires
            v.wf(),
        ensures
            final(self).wf(),
            final(self)@ == v@,
            final(self).spec_offset() == old(self).spec_offset(),
    {
        self.temp = v;
    }

    /// Replace one lane of the vector temporary.
    pub fn set_lane(&mut self, i: usize, x: T)
        requires
            old(self).wf(),
            i < W::spec_lanes(),
        ensures
            final(self).wf(),
            final(self)@ == old(self)@.update(i as int, x),
            final(self).spec_offset() == old(self).spec_offset(),
    {
        self.temp.set_lane(i, x);
    }
}

/// A sliding window of vectors over an owned buffer of scalars, with
/// write-back.
///
/// Indexing mirrors [`Overlapping`]; in addition, [`OverlappingMut::get_mut`]
/// arms a [`RefMut`] guard over a window and [`OverlappingMut::commit`]
/// flushes a guard's vector back over the scalars of its window.
pub struct OverlappingMut<T, W> {
    data: Vec<T>,
    width: PhantomData<W>,
}

impl<T: Copy, W: Width> OverlappingMut<T, W> {
    /// The scalars the view slides over.
    pub closed spec fn scalars(&self) -> Seq<T> {
        self.data@
    }

    /// The view is well formed when at least one window exists.
    pub open spec fn wf(&self) -> bool {
        self.scalars().len() >= W::spec_lanes()
    }

    /// The number of window positions.
    pub open spec fn spec_len(&self) -> int {
        self.scalars().len() - W::spec_lanes() + 1
    }

    /// The scalars of window `i`.
    pub open spec fn window(&self, i: int) -> Seq<T> {
        self.scalars().subrange(i, i + W::spec_lanes())
    }

    /// A mutable sliding window over `data`.  At least one full window must
    /// fit.
    pub fn new(_token: Generic, data: Vec<T>) -> (o: Self)
        requires
            data@.len() >= W::spec_lanes(),
        ensures
            o.wf(),
            o.scalars() == data@,
    {
        OverlappingMut { data, width: PhantomData }
    }

    /// The number of window positions, equal to
    /// `scalars().len() - lanes + 1`.
    pub fn len(&self) -> (n: usize)
        requires
            self.wf(),
        ensures
            n == self.spec_len(),
    {
        self.data.len() - W::lanes() + 1
    }

    /// The scalars of the view, as a slice.
    pub fn as_slice(&self) -> (s: &[T])
        ensures
            s@ == self.scalars(),
    {
        self.data.as_slice()
    }

    /// Give the scalar buffer back, with every committed write-back applied.
    pub fn into_vec(self) -> (v: Vec<T>)
        ensures
            v@ == self.scalars(),
    {
        self.data
    }

    /// The vector at window `index`, or `None` past the last window.
    pub fn get(&self, index: usize) -> (r: Option<Vector<T, W>>)
        requires
            self.wf(),
        ensures
            match r {
                Some(v) => index < self.spec_len() && v.wf() && v@ == self.window(index as int),
                None => index >= self.spec_len(),
            },
    {
        if index < self.len() {
            Some(self.get_unchecked(index))
        } else {
            None
        }
    }

    /// The vector at window `index`, without the bounds test of
    /// [`OverlappingMut::get`]; the index bound is a verified precondition.
    pub fn get_unchecked(&self, index: usize) -> (v: Vector<T, W>)
        requires
            self.wf(),
            index < self.spec_len(),
        ensures
            v.wf(),
            v@ == self.window(index as int),
    {
        Vector::read_at(Generic::new_unchecked(), self.data.as_slice(), index)
    }

    /// A write-back guard over window `index`, or `None` past the last
    /// window.
    pub fn get_mut(&self, index: usize) -> (r: Option<RefMut<T, W>>)
        requires
            self.wf(),
        ensures
            match r {
                Some(g) => {
                    &&& index < self.spec_len()
                    &&& g.wf()
                    &&& g.spec_offset() == index
                    &&& g@ == self.window(index as int)
                },
                None => index >= self.spec_len(),
            },
    {
        if index < self.len() {
            Some(self.get_unchecked_mut(index))
        } else {
            None
        }
    }

    /// A write-back guard over window `index`, without the bounds test of
    /// [`OverlappingMut::get_mut`]; the index bound is a verified
    /// precondition.
    pub fn get_unchecked_mut(&self, index: usize) -> (g: RefMut<T, W>)
        requires
            self.wf(),
            index < self.spec_len(),
        ensures
            g.wf(),
            g.spec_offset() == index,
            g@ == self.window(index as int),
    {
        RefMut::new(Generic::new_unchecked(), self.data.as_slice(), index)
    }

    /// Flush a guard: write its vector temporary back over the window it
    /// was armed at.  Exactly the scalars of that window change; consuming
    /// the guard makes a second flush of the same guard impossible.
    pub fn commit(&mut self, guard: RefMut<T, W>)
        requires
            old(self).wf(),
            guard.wf(),
            guard.spec_offset() + W::spec_lanes() <= old(self).scalars().len(),
        ensures
            final(self).wf(),
            final(self).scalars() == overwrite(
                old(self).scalars(),
                guard.spec_offset(),
                guard@,
            ),
    {
        let at = guard.offset();
        guard.vector().write_to(&mut self.data, at);
        proof {
            crate::vector::lemma_overwrite_len(old(self).scalars(), guard.spec_offset(), guard@);
        }
    }
}

/// Committing a guard that was never mutated is a round trip: the flush
/// writes back the very scalars the guard was loaded from, so the memory is
/// unchanged.  Together with [`OverlappingMut::commit`]'s postcondition —
/// the flushed memory is the old memory with the guard's vector written over
/// its window — this pins both halves of the write-back story.
pub proof fn lemma_commit_round_trip<T: Copy, W: Width>(o: OverlappingMut<T, W>, g: RefMut<T, W>)
    requires
        o.wf(),
        g.wf(),
        0 <= g.spec_offset(),
        g.spec_offset() + W::spec_lanes() <= o.scalars().len(),
        g@ == o.window(g.spec_offset()),
    ensures
        overwrite(o.scalars(), g.spec_offset(), g@) == o.scalars(),
{
    crate::vector::lemma_overwrite_round_trip(o.scalars(), g.spec_offset(), g@);
}

/// A slice of scalars bridged to vectors of every supported width.
///
/// Each fixed width has a method family of its own, so a kernel can select
/// a lane count without spelling out the marker type; the `native` family
/// uses the width that [`Native`] resolves for the scalar type.
pub trait SliceExt<T>: Slice<T, W1> + Slice<T, W2> + Slice<T, W4> + Slice<T, W8> + Slice<
    T,
    NativeWidth<T>,
> where T: Copy + Native {
    /// Read a vector with 1 lane from the front of the slice, without a
    /// run-time length check.
    fn read_unchecked1(&self, token: Generic) -> (v: Vector<T, W1>)
        requires
            self@.len() >= 1,
        ensures
            v.wf(),
            v@ == self@.subrange(0, 1),
    {
        <Self as Slice<T, W1>>::read_unchecked(self, token)
    }

    /// Read a vector with 1 lane from the front of the slice.
    fn read1(&self, token: Generic) -> (v: Vector<T, W1>)
        requires
            self@.len() >= 1,
        ensures
            v.wf(),
            v@ == self@.subrange(0, 1),
    {
        <Self as Slice<T, W1>>::read(self, token)
    }

    /// Partition the slice for vectors with 1 lane; see [`Slice::align`].
    fn align1(&self, token: Generic) -> (r: (Vec<T>, Vec<Vector<T, W1>>, Vec<T>))
        ensures
            partitioned(self@, 0, r.0@, r.1@, r.2@),
    {
        <Self as Slice<T, W1>>::align(self, token)
    }

    /// Sliding windows of vectors with 1 lane; see [`Slice::overlapping`].
    fn overlapping1<'s>(&'s self, token: Generic) -> (o: Overlapping<'s, T, W1>)
        requires
            self@.len() >= 1,
        ensures
            o.wf(),
            o.scalars() == self@,
    {
        <Self as Slice<T, W1>>::overlapping(self, token)
    }

    /// Read a vector with 2 lanes from the front of the slice, without a
    /// run-time length check.
    fn read_unchecked2(&self, token: Generic) -> (v: Vector<T, W2>)
        requires
            self@.len() >= 2,
        ensures
            v.wf(),
            v@ == self@.subrange(0, 2),
    {
        <Self as Slice<T, W2>>::read_unchecked(self, token)
    }

    /// Read a vector with 2 lanes from the front of the slice.
    fn read2(&self, token: Generic) -> (v: Vector<T, W2>)
        requires
            self@.len() >= 2,
        ensures
            v.wf(),
            v@ == self@.subrange(0, 2),
    {
        <Self as Slice<T, W2>>::read(self, token)
    }

    /// Partition the slice for vectors with 2 lanes; see [`Slice::align`].
    fn align2(&self, token: Generic) -> (r: (Vec<T>, Vec<Vector<T, W2>>, Vec<T>))
        ensures
            partitioned(self@, 0, r.0@, r.1@, r.2@),
    {
        <Self as Slice<T, W2>>::align(self, token)
    }

    /// Sliding windows of vectors with 2 lanes; see [`Slice::overlapping`].
    fn overlapping2<'s>(&'s self, token: Generic) -> (o: Overlapping<'s, T, W2>)
        requires
            self@.len() >= 2,
        ensures
            o.wf(),
            o.scalars() == self@,
    {
        <Self as Slice<T, W2>>::overlapping(self, token)
    }

    /// Read a vector with 4 lanes from the front of the slice, without a
    /// run-time length check.
    fn read_unchecked4(&self, token: Generic) -> (v: Vector<T, W4>)
        requires
            self@.len() >= 4,
        ensures
            v.wf(),
            v@ == self@.subrange(0, 4),
    {
        <Self as Slice<T, W4>>::read_unchecked(self, token)
    }

    /// Read a vector with 4 lanes from the front of the slice.
    fn read4(&self, token: Generic) -> (v: Vector<T, W4>)
        requires
            self@.len() >= 4,
        ensures
            v.wf(),
            v@ == self@.subrange(0, 4),
    {
        <Self as Slice<T, W4>>::read(self, token)
    }

    /// Partition the slice for vectors with 4 lanes; see [`Slice::align`].
    fn align4(&self, token: Generic) -> (r: (Vec<T>, Vec<Vector<T, W4>>, Vec<T>))
        ensures
            partitioned(self@, 0, r.0@, r.1@, r.2@),
    {
        <Self as Slice<T, W4>>::align(self, token)
    }

    /// Sliding windows of vectors with 4 lanes; see [`Slice::overlapping`].
    fn overlapping4<'s>(&'s self, token: Generic) -> (o: Overlapping<'s, T, W4>)
        requires
            self@.len() >= 4,
        ensures
            o.wf(),
            o.scalars() == self@,
    {
        <Self as Slice<T, W4>>::overlapping(self, token)
    }

    /// Read a vector with 8 lanes from the front of the slice, without a
    /// run-time length check.
    fn read_unchecked8(&self, token: Generic) -> (v: Vector<T, W8>)
        requires
            self@.len() >= 8,
        ensures
            v.wf(),
            v@ == self@.subrange(0, 8),
    {
        <Self as Slice<T, W8>>::read_unchecked(self, token)
    }

    /// Read a vector with 8 lanes from the front of the slice.
    fn read8(&self, token: Generic) -> (v: Vector<T, W8>)
        requires
            self@.len() >= 8,
        ensures
            v.wf(),
            v@ == self@.subrange(0, 8),
    {
        <Self as Slice<T, W8>>::read(self, token)
    }

    /// Partition the slice for vectors with 8 lanes; see [`Slice::align`].
    fn align8(&self, token: Generic) -> (r: (Vec<T>, Vec<Vector<T, W8>>, Vec<T>))
        ensures
            partitioned(self@, 0, r.0@, r.1@, r.2@),
    {
        <Self as Slice<T, W8>>::align(self, token)
    }

    /// Sliding windows of vectors with 8 lanes; see [`Slice::overlapping`].
    fn overlapping8<'s>(&'s self, token: Generic) -> (o: Overlapping<'s, T, W8>)
        requires
            self@.len() >= 8,
        ensures
            o.wf(),
            o.scalars() == self@,
    {
        <Self as Slice<T, W8>>::overlapping(self, token)
    }

    /// Read a vector with the native number of lanes from the front of the
    /// slice, without a run-time length check.
    fn read_unchecked_native(&self, token: Generic) -> (v: Vector<T, NativeWidth<T>>)
        requires
            self@.len() >= NativeWidth::<T>::spec_lanes(),
        ensures
            v.wf(),
            v@ == self@.subrange(0, NativeWidth::<T>::spec_lanes() as int),
    {
        <Self as Slice<T, NativeWidth<T>>>::read_unchecked(self, token)
    }

    /// Read a vector with the native number of lanes from the front of the
    /// slice.
    fn read_native(&self, token: Generic) -> (v: Vector<T, NativeWidth<T>>)
        requires
            self@.len() >= NativeWidth::<T>::spec_lanes(),
        ensures
            v.wf(),
            v@ == self@.subrange(0, NativeWidth::<T>::spec_lanes() as int),
    {
        <Self as Slice<T, NativeWidth<T>>>::read(self, token)
    }

    /// Partition the slice for vectors with the native number of lanes; see
    /// [`Slice::align`].
    fn align_native(&self, token: Generic) -> (r: (
        Vec<T>,
        Vec<Vector<T, NativeWidth<T>>>,
        Vec<T>,
    ))
        ensures
            partitioned(self@, 0, r.0@, r.1@, r.2@),
    {
        <Self as Slice<T, NativeWidth<T>>>::align(self, token)
    }

    /// Sliding windows of vectors with the native number of lanes; see
    /// [`Slice::overlapping`].
    fn overlapping_native<'s>(&'s self, token: Generic) -> (o: Overlapping<
        's,
        T,
        NativeWidth<T>,
    >)
        requires
            self@.len() >= NativeWidth::<T>::spec_lanes(),
        ensures
            o.wf(),
            o.scalars() == self@,
    {
        <Self as Slice<T, NativeWidth<T>>>::overlapping(self, token)
    }
}

impl<T: Copy + Native> SliceExt<T> for [T] {

}

} // verus!
