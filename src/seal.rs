//! The seal of the tuple traits: only this crate's tuple arities carry it.
use vstd::prelude::*;

verus! {

/// Implemented for the tuple types of this crate alone.
pub trait Sealed {}

} // verus!
