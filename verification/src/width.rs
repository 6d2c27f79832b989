//! Lane-count markers.
//!
//! A vector's width (its number of lanes) is a compile-time property, carried
//! by a zero-sized marker type implementing [`Width`].  The fixed widths are
//! [`W1`], [`W2`], [`W4`] and [`W8`]; the best width for a given scalar type
//! on this architecture is resolved through [`Native`].

use vstd::prelude::*;

verus! {

/// A type-level lane count.
///
/// Exactly one lane count belongs to each marker type, fixed at compile
/// time; [`Width::lanes`] merely reports it at run time.
pub trait Width: Copy {
    /// The number of lanes this marker denotes.
    spec fn spec_lanes() -> nat;

    /// Every supported lane count is between 1 and 8.
    proof fn lanes_bounds()
        ensures
            1 <= Self::spec_lanes() <= 8,
    ;

    /// The lane count as a run-time value.
    fn lanes() -> (n: usize)
        ensures
            n == Self::spec_lanes(),
            1 <= n <= 8,
    ;
}

/// Marker for one lane.
#[derive(Clone, Copy)]
pub struct W1;

/// Marker for two lanes.
#[derive(Clone, Copy)]
pub struct W2;

/// Marker for four lanes.
#[derive(Clone, Copy)]
pub struct W4;

/// Marker for eight lanes.
#[derive(Clone, Copy)]
pub struct W8;

impl Width for W1 {
    open spec fn spec_lanes() -> nat {
        1
    }

    proof fn lanes_bounds() {
    }

    fn lanes() -> (n: usize) {
        1
    }
}

impl Width for W2 {
    open spec fn spec_lanes() -> nat {
        2
    }

    proof fn lanes_bounds() {
    }

    fn lanes() -> (n: usize) {
        2
    }
}

impl Width for W4 {
    open spec fn spec_lanes() -> nat {
        4
    }

    proof fn lanes_bounds() {
    }

    fn lanes() -> (n: usize) {
        4
    }
}

impl Width for W8 {
    open spec fn spec_lanes() -> nat {
        8
    }

    proof fn lanes_bounds() {
    }

    fn lanes() -> (n: usize) {
        8
    }
}

/// Resolution of the best vector width for a scalar type.
///
/// The portable model register is 128 bits wide, so the native lane count of
/// a scalar is 16 bytes divided by its size, capped at the largest supported
/// marker, [`W8`].  The resolution is an associated type, so it is the same
/// everywhere within a build.
pub trait Native {
    /// The lane count of the widest available register for this scalar.
    type Width: Width;
}

/// The native width marker of a scalar type.
pub type NativeWidth<T> = <T as Native>::Width;

impl Native for u8 {
    type Width = W8;
}

impl Native for i8 {
    type Width = W8;
}

impl Native for u16 {
    type Width = W8;
}

impl Native for i16 {
    type Width = W8;
}

impl Native for u32 {
    type Width = W4;
}

impl Native for i32 {
    type Width = W4;
}

impl Native for u64 {
    type Width = W2;
}

impl Native for i64 {
    type Width = W2;
}

} // verus!
