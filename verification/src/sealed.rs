use vstd::prelude::*;

verus! {

/// Prevents implementations of [`IntoAuthority`](crate::IntoAuthority)
/// outside of this crate.
pub trait Sealed {}

} // verus!
