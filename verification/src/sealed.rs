use vstd::prelude::*;

verus! {

/// Keeps a trait from being implemented outside this crate.
pub trait Sealed {}

} // verus!
