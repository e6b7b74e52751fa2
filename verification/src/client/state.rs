//! Shared, read-only state.
use vstd::prelude::*;
use std::sync::Arc;

verus! {

/// A shared handle on a value.
#[derive(Clone)]
pub struct Data<T>(Arc<T>);

impl<T> Data<T> {
    /// The value the handle shares.
    pub closed spec fn value(&self) -> T {
        *self.0
    }

    /// Shares `inner`.
    pub fn new(inner: T) -> (r: Self)
        ensures
            r.value() == inner,
    {
        Data(Arc::new(inner))
    }

    /// The shared value.
    pub fn get(&self) -> (r: &T)
        ensures
            *r == self.value(),
    {
        &*self.0
    }
}

impl<T> core::ops::Deref for Data<T> {
    type Target = T;

    fn deref(&self) -> (r: &T)
        ensures
            *r == self.value(),
    {
        &*self.0
    }
}

} // verus!
