//! Shared ownership.

use std::sync::Arc;
use vstd::prelude::*;

verus! {

/// One of the owners of a value. An owner bears a label, which tells it apart from the one it was
/// made from.
pub struct Owner<T> {
    inner: Arc<T>,
    label: Ghost<int>,
}

impl<T> Owner<T> {
    /// The value.
    pub closed spec fn value(&self) -> T {
        *self.inner
    }

    /// The label of this owner.
    pub closed spec fn label(&self) -> int {
        self.label@
    }

    /// The first owner of a value.
    pub(crate) fn new(value: T) -> (owner: Owner<T>)
        ensures
            owner.value() == value,
    {
        Owner { inner: Arc::new(value), label: Ghost(0) }
    }

    /// The value.
    pub fn get(&self) -> (value: &T)
        ensures
            *value == self.value(),
    {
        &self.inner
    }
}

impl<T> std::ops::Deref for Owner<T> {
    type Target = T;

    fn deref(&self) -> (value: &T)
        ensures
            *value == self.value(),
    {
        self.get()
    }
}

/// `Arc::clone`: one more owner of the same value. It gets a label of its own.
#[verifier::external_body]
pub(crate) fn share<T>(owner: &Owner<T>) -> (other: Owner<T>)
    ensures
        other.value() == owner.value(),
        other.label() != owner.label(),
{
    Owner { inner: Arc::clone(&owner.inner), label: Ghost(owner.label@ + 1) }
}

/// The record that one owner of a value was given up while others remained, made by [`give_up`]
/// alone.
pub struct StillShared<T> {
    value: Ghost<T>,
    label: Ghost<int>,
}

impl<T> StillShared<T> {
    /// The value that the others own.
    pub closed spec fn value(&self) -> T {
        self.value@
    }

    /// The label of the owner that was given up.
    pub closed spec fn label(&self) -> int {
        self.label@
    }
}

/// `Arc::into_inner`: gives up one owner. This very value comes back if that was the last one, and
/// the record that this very owner was given up while others own the value if it was not. How many
/// there are is not visible here, so nothing is claimed of which of the two it is.
#[verifier::external_body]
pub(crate) fn give_up<T>(owner: Owner<T>) -> (value: Result<T, StillShared<T>>)
    ensures
        value matches Ok(value) ==> value == owner.value(),
        value matches Err(shared) ==> shared.value() == owner.value() && shared.label()
            == owner.label(),
{
    let shared = StillShared { value: Ghost(*owner.inner), label: owner.label };
    Arc::into_inner(owner.inner).ok_or(shared)
}

} // verus!
