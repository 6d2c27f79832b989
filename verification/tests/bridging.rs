use generic_simd::arch::{Generic, Token};
use generic_simd::pointer::{Pointer, PointerSized, ScalarPtr};
use generic_simd::slice::{align_at, recombine, Slice, SliceExt};
use generic_simd::vector::Vector;
use generic_simd::width::{NativeWidth, Width, W1, W2, W4, W8};

fn token() -> Generic {
    Generic::new().expect("the portable capability is always available")
}

fn lanes_of<T: Copy, W: Width>(v: &Vector<T, W>) -> Vec<T> {
    let mut out = Vec::new();
    let w = Vector::<T, W>::width();
    for i in 0..w {
        out.push(v.lane(i));
    }
    out
}

#[test]
fn widths_report_their_lane_counts() {
    assert_eq!(Vector::<u32, W1>::width(), 1);
    assert_eq!(Vector::<u32, W2>::width(), 2);
    assert_eq!(Vector::<u32, W4>::width(), 4);
    assert_eq!(Vector::<u32, W8>::width(), 8);
}

#[test]
fn native_width_resolves_per_scalar() {
    assert_eq!(Vector::<u8, NativeWidth<u8>>::width(), 8);
    assert_eq!(Vector::<i8, NativeWidth<i8>>::width(), 8);
    assert_eq!(Vector::<u16, NativeWidth<u16>>::width(), 8);
    assert_eq!(Vector::<i16, NativeWidth<i16>>::width(), 8);
    assert_eq!(Vector::<u32, NativeWidth<u32>>::width(), 4);
    assert_eq!(Vector::<i32, NativeWidth<i32>>::width(), 4);
    assert_eq!(Vector::<u64, NativeWidth<u64>>::width(), 2);
    assert_eq!(Vector::<i64, NativeWidth<i64>>::width(), 2);
}

#[test]
fn zeroed_fills_every_lane_with_the_default_scalar() {
    let v = Vector::<u32, W4>::zeroed(token());
    assert_eq!(lanes_of(&v), vec![0u32; 4]);
    let w = Vector::<i64, W2>::zeroed(token());
    assert_eq!(lanes_of(&w), vec![0i64; 2]);
}

#[test]
fn splat_fills_every_lane() {
    let v = Vector::<u32, W8>::splat(token(), 7);
    assert_eq!(lanes_of(&v), vec![7u32; 8]);
}

#[test]
fn read_gathers_the_front_window() {
    let s: Vec<u32> = vec![1, 2, 3, 4, 5];
    let v = Vector::<u32, W4>::read(token(), &s);
    assert_eq!(lanes_of(&v), vec![1, 2, 3, 4]);
}

#[test]
fn checked_and_unchecked_reads_agree() {
    let s: Vec<u64> = vec![11, 22, 33, 44, 55];
    let a = Vector::<u64, W2>::read(token(), &s);
    let b = Vector::<u64, W2>::read_unchecked(token(), &s);
    assert_eq!(lanes_of(&a), lanes_of(&b));
}

#[test]
fn reading_twice_is_idempotent() {
    let s: Vec<u16> = vec![5, 6, 7, 8, 9, 10, 11, 12];
    let a = Vector::<u16, W8>::read(token(), &s);
    let b = Vector::<u16, W8>::read(token(), &s);
    assert_eq!(lanes_of(&a), lanes_of(&b));
    let c = Vector::<u16, W4>::read_at(token(), &s, 3);
    let d = Vector::<u16, W4>::read_at(token(), &s, 3);
    assert_eq!(lanes_of(&c), lanes_of(&d));
}

#[test]
fn write_to_touches_exactly_its_window() {
    let mut data: Vec<u32> = vec![0, 0, 0, 0, 0, 0];
    let v = Vector::<u32, W2>::splat(token(), 9);
    v.write_to(&mut data, 3);
    assert_eq!(data, vec![0, 0, 0, 9, 9, 0]);
}

#[test]
fn set_lane_replaces_one_lane() {
    let mut v = Vector::<u32, W4>::splat(token(), 1);
    v.set_lane(2, 8);
    assert_eq!(lanes_of(&v), vec![1, 1, 8, 1]);
}

#[test]
fn slice_trait_reads_through_every_entry_point() {
    let s: Vec<u32> = vec![1, 2, 3, 4, 5, 6, 7, 8, 9];
    let tok = token();
    assert_eq!(lanes_of(&s.read1(tok)), vec![1]);
    assert_eq!(lanes_of(&s.read2(tok)), vec![1, 2]);
    assert_eq!(lanes_of(&s.read4(tok)), vec![1, 2, 3, 4]);
    assert_eq!(lanes_of(&s.read8(tok)), vec![1, 2, 3, 4, 5, 6, 7, 8]);
    assert_eq!(lanes_of(&s.read_unchecked2(tok)), vec![1, 2]);
    assert_eq!(lanes_of(&s.read_unchecked4(tok)), vec![1, 2, 3, 4]);
    assert_eq!(lanes_of(&s.read_native(tok)), vec![1, 2, 3, 4]);
    assert_eq!(lanes_of(&s.read_unchecked_native(tok)), vec![1, 2, 3, 4]);
    let direct = <[u32] as Slice<u32, W4>>::read(&s, tok);
    assert_eq!(lanes_of(&direct), vec![1, 2, 3, 4]);
}

#[test]
fn align_starts_the_vector_run_at_the_front() {
    let s: Vec<u32> = vec![1, 2, 3, 4, 5];
    let (prefix, body, suffix) = s.align4(token());
    assert_eq!(prefix, Vec::<u32>::new());
    assert_eq!(body.len(), 1);
    assert_eq!(lanes_of(&body[0]), vec![1, 2, 3, 4]);
    assert_eq!(suffix, vec![5]);
}

#[test]
fn align_reconstruction_holds_for_every_synthetic_alignment() {
    let s: Vec<u32> = vec![1, 2, 3, 4, 5];
    for head in 0..=s.len() {
        let (prefix, body, suffix) = align_at::<u32, W4>(token(), &s, head);
        // The length equation of the partition.
        assert_eq!(prefix.len() + body.len() * 4 + suffix.len(), s.len());
        // The suffix never holds a whole vector of scalars.
        assert!(suffix.len() < 4);
        // Concatenating prefix, body scalars and suffix reproduces the
        // slice exactly.
        assert_eq!(recombine(&prefix, &body, &suffix), s);
    }
    // One synthetic alignment spelled out: a run starting at offset 1.
    let (prefix, body, suffix) = align_at::<u32, W4>(token(), &s, 1);
    assert_eq!(prefix, vec![1]);
    assert_eq!(body.len(), 1);
    assert_eq!(lanes_of(&body[0]), vec![2, 3, 4, 5]);
    assert_eq!(suffix, Vec::<u32>::new());
}

#[test]
fn align_partitions_an_exact_fit_without_remainders() {
    let s: Vec<u64> = vec![1, 2, 3, 4];
    let (prefix, body, suffix) = s.align2(token());
    assert_eq!(prefix, Vec::<u64>::new());
    assert_eq!(body.len(), 2);
    assert_eq!(lanes_of(&body[0]), vec![1, 2]);
    assert_eq!(lanes_of(&body[1]), vec![3, 4]);
    assert_eq!(suffix, Vec::<u64>::new());
}

#[test]
fn recombine_applies_mutations_of_the_body() {
    let s: Vec<u32> = vec![9, 1, 2, 3, 4, 5, 6, 7];
    let (prefix, mut body, suffix) = align_at::<u32, W2>(token(), &s, 1);
    assert_eq!(prefix, vec![9]);
    assert_eq!(body.len(), 3);
    assert_eq!(suffix, vec![7]);
    body[1].set_lane(0, 30);
    body[1].set_lane(1, 40);
    let rebuilt = recombine(&prefix, &body, &suffix);
    assert_eq!(rebuilt, vec![9, 1, 2, 30, 40, 5, 6, 7]);
}

#[test]
fn pointer_reads_are_unaligned_and_offsetable() {
    let s: Vec<u32> = vec![10, 11, 12, 13, 14, 15];
    let p = ScalarPtr::new(&s, 0);
    let v = p.vector_read4(token());
    assert_eq!(lanes_of(&v), vec![10, 11, 12, 13]);
    // An offset pointer reads a window at an arbitrary scalar address.
    let q = p.offset(3);
    let w = q.vector_read2(token());
    assert_eq!(lanes_of(&w), vec![13, 14]);
    let one = q.vector_read1(token());
    assert_eq!(lanes_of(&one), vec![13]);
}

#[test]
fn pointer_reads_every_width_and_native() {
    let s: Vec<u16> = vec![1, 2, 3, 4, 5, 6, 7, 8];
    let p = ScalarPtr::new(&s, 0);
    assert_eq!(lanes_of(&p.vector_read8(token())), vec![1, 2, 3, 4, 5, 6, 7, 8]);
    assert_eq!(
        lanes_of(&p.vector_read_native(token())),
        vec![1, 2, 3, 4, 5, 6, 7, 8]
    );
    let generic = <ScalarPtr<'_, u16> as PointerSized<u16, W2>>::vector_read(p, token());
    assert_eq!(lanes_of(&generic), vec![1, 2]);
}

#[test]
fn pointer_read_matches_slice_read() {
    let s: Vec<u32> = vec![3, 1, 4, 1, 5];
    let via_ptr = ScalarPtr::new(&s, 1).vector_read4(token());
    let via_slice = Vector::<u32, W4>::read_at(token(), &s, 1);
    assert_eq!(lanes_of(&via_ptr), lanes_of(&via_slice));
}

#[test]
fn tokens_are_mintable_through_both_vetted_paths() {
    assert!(Generic::new().is_some());
    let _asserted: Generic = Generic::new_unchecked();
}
