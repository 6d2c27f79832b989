//! A portable abstraction layer for width-generic vector code.
//!
//! Numeric kernels written against this crate operate on contiguous scalar
//! memory through fixed-width [`vector::Vector`] values.  Lane counts are
//! selected by the marker types of [`width`], either as a fixed constant or
//! as the architecture's preferred ("native") width, and every operation that
//! would lower to instruction-set-specific code is gated by a capability
//! token from [`arch`].  The [`slice`] and [`pointer`] modules bridge between
//! raw scalar memory and vector-typed views: whole-slice reads, partitioning
//! a slice into an aligned run of vectors with unaligned remainders, sliding
//! windows at every scalar offset, and write-back of mutated vector
//! temporaries.  Each bridging operation carries a contract proving that no
//! vector-sized access ever reads or writes outside its backing buffer.

pub mod arch;
pub mod pointer;
pub mod slice;
pub mod vector;
pub mod width;
