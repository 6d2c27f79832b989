//! Capability tokens.
//!
//! A token is a zero-sized proof value asserting that a particular
//! instruction-set feature may be used.  Every operation of this crate that
//! would lower to feature-specific instructions demands a token argument, so
//! the safety precondition is explicit at each call site.  Tokens carry no
//! resource and are freely copyable; they can be minted only through the
//! vetted paths of [`Token`]: the checked constructor [`Token::new`], which
//! succeeds exactly when the feature is available, or the caller-asserted
//! [`Token::new_unchecked`].

use vstd::prelude::*;

verus! {

/// A capability proof for one instruction-set feature.
pub trait Token: Copy + Sized {
    /// Whether the feature this token certifies is available.
    spec fn supported() -> bool;

    /// Mint a token by detection: succeeds exactly when the feature is
    /// available.
    fn new() -> (t: Option<Self>)
        ensures
            t.is_some() <==> Self::supported(),
    ;

    /// Mint a token on the caller's own authority.  The caller must have
    /// established availability independently, which is what the
    /// precondition records.
    fn new_unchecked() -> (t: Self)
        requires
            Self::supported(),
    ;
}

/// The token of the portable instruction set.
///
/// The vectors of this crate are modelled on operations every target
/// provides, so this capability is unconditionally available; tokens for
/// optional extensions would implement [`Token`] with a detection-dependent
/// answer.  The private field keeps the value unforgeable outside the vetted
/// constructors.
#[derive(Clone, Copy)]
pub struct Generic {
    _feature: (),
}

impl Token for Generic {
    open spec fn supported() -> bool {
        true
    }

    fn new() -> (t: Option<Self>) {
        Some(Generic { _feature: () })
    }

    fn new_unchecked() -> (t: Self) {
        Generic { _feature: () }
    }
}

} // verus!
