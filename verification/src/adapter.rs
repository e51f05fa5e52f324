//! Wrapper that lets drivers written against suspension-capable bus and
//! storage interfaces run over blocking implementations. The wrapper
//! itself only carries the wrapped driver; the interface adapters that
//! forward each operation live with the interface crates, outside the
//! verified library.

use vstd::prelude::*;

verus! {

/// Wrapper around a blocking peripheral driver, exposing it where a
/// suspension-capable driver is expected: every operation performs the
/// underlying blocking call and completes immediately, and errors are
/// forwarded unchanged.
pub struct BlockingAsync<T> {
    wrapped: T,
}

impl<T> BlockingAsync<T> {
    /// The wrapped driver.
    pub closed spec fn spec_inner(self) -> T {
        self.wrapped
    }

    /// Create a new instance of a wrapper for a given peripheral.
    pub fn new(wrapped: T) -> (r: Self)
        ensures
            r.spec_inner() == wrapped,
    {
        Self { wrapped }
    }

    /// Hands the wrapped driver back.
    pub fn into_inner(self) -> (r: T)
        ensures
            r == self.spec_inner(),
    {
        self.wrapped
    }
}

} // verus!
