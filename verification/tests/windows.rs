use generic_simd::arch::{Generic, Token};
use generic_simd::slice::{Overlapping, OverlappingMut, RefMut, Slice, SliceExt};
use generic_simd::vector::Vector;
use generic_simd::width::{Width, W2, W4};

fn token() -> Generic {
    Generic::new().expect("the portable capability is always available")
}

fn lanes_of<T: Copy, W: Width>(v: &Vector<T, W>) -> Vec<T> {
    let mut out = Vec::new();
    let w = Vector::<T, W>::width();
    for i in 0..w {
        out.push(v.lane(i));
    }
    out
}

#[test]
fn overlapping_has_one_window_per_scalar_offset() {
    let s: Vec<u32> = vec![10, 20, 30, 40];
    let o = Overlapping::<u32, W2>::new(token(), &s);
    assert_eq!(o.len(), 3);
    assert_eq!(lanes_of(&o.get(0).unwrap()), vec![10, 20]);
    assert_eq!(lanes_of(&o.get(1).unwrap()), vec![20, 30]);
    assert_eq!(lanes_of(&o.get(2).unwrap()), vec![30, 40]);
    assert!(o.get(3).is_none());
}

#[test]
fn overlapping_len_counts_windows_for_every_length() {
    for n in 4..10usize {
        let s: Vec<u32> = (0..n as u32).collect();
        let o = Overlapping::<u32, W4>::new(token(), &s);
        assert_eq!(o.len(), n - 4 + 1);
        assert!(o.get(o.len()).is_none());
        assert!(o.get(o.len() - 1).is_some());
    }
}

#[test]
fn overlapping_get_unchecked_matches_get() {
    let s: Vec<u64> = vec![1, 2, 3, 4, 5];
    let o = Overlapping::<u64, W2>::new(token(), &s);
    for i in 0..o.len() {
        assert_eq!(lanes_of(&o.get_unchecked(i)), lanes_of(&o.get(i).unwrap()));
    }
}

#[test]
fn overlapping_via_the_slice_trait() {
    let s: Vec<u32> = vec![7, 8, 9];
    let o = s.overlapping2(token());
    assert_eq!(o.len(), 2);
    assert_eq!(lanes_of(&o.get(1).unwrap()), vec![8, 9]);
    let o4 = <[u32] as Slice<u32, W2>>::overlapping(&s, token());
    assert_eq!(o4.len(), 2);
}

#[test]
fn overlapping_mut_reads_like_the_shared_view() {
    let s: Vec<u32> = vec![10, 20, 30, 40];
    let o = OverlappingMut::<u32, W2>::new(token(), s);
    assert_eq!(o.len(), 3);
    assert_eq!(lanes_of(&o.get(0).unwrap()), vec![10, 20]);
    assert_eq!(lanes_of(&o.get_unchecked(2)), vec![30, 40]);
    assert!(o.get(3).is_none());
    assert!(o.get_mut(3).is_none());
    assert_eq!(o.as_slice(), &[10, 20, 30, 40]);
    assert_eq!(o.into_vec(), vec![10, 20, 30, 40]);
}

#[test]
fn guard_mutation_is_flushed_over_its_window() {
    let s: Vec<u32> = vec![1, 1, 1, 1];
    let mut o = OverlappingMut::<u32, W2>::new(token(), s);
    let mut g = o.get_mut(1).unwrap();
    // The guard was armed over the logical window at scalar offset 1.
    assert_eq!(g.offset(), 1);
    assert_eq!(lanes_of(g.vector()), vec![1, 1]);
    g.set_lane(0, 9);
    g.set_lane(1, 9);
    o.commit(g);
    assert_eq!(o.into_vec(), vec![1, 9, 9, 1]);
}

#[test]
fn guard_set_replaces_the_whole_vector() {
    let s: Vec<u32> = vec![4, 5, 6, 7, 8];
    let mut o = OverlappingMut::<u32, W4>::new(token(), s);
    let mut g = o.get_unchecked_mut(1);
    g.set(Vector::<u32, W4>::splat(token(), 0));
    o.commit(g);
    assert_eq!(o.into_vec(), vec![4, 0, 0, 0, 0]);
}

#[test]
fn committing_an_unmutated_guard_leaves_memory_unchanged() {
    let s: Vec<u64> = vec![2, 4, 6, 8, 10];
    let mut o = OverlappingMut::<u64, W2>::new(token(), s);
    let g = o.get_mut(2).unwrap();
    o.commit(g);
    assert_eq!(o.into_vec(), vec![2, 4, 6, 8, 10]);
}

#[test]
fn guard_armed_directly_from_a_slice() {
    let s: Vec<u32> = vec![5, 6, 7, 8];
    let g = RefMut::<u32, W2>::new(token(), &s, 2);
    assert_eq!(g.offset(), 2);
    assert_eq!(lanes_of(g.vector()), vec![7, 8]);
}

#[test]
fn two_guards_flush_in_commit_order() {
    let s: Vec<u32> = vec![0, 0, 0];
    let mut o = OverlappingMut::<u32, W2>::new(token(), s);
    let mut first = o.get_mut(0).unwrap();
    first.set_lane(0, 1);
    first.set_lane(1, 2);
    o.commit(first);
    let mut second = o.get_mut(1).unwrap();
    // The second guard observes the first flush.
    assert_eq!(lanes_of(second.vector()), vec![2, 0]);
    second.set_lane(1, 3);
    o.commit(second);
    assert_eq!(o.into_vec(), vec![1, 2, 3]);
}
