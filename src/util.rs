use std::sync::atomic::{AtomicUsize, Ordering};
use vstd::prelude::*;

verus! {

/// A process-unique identity token drawn from a shared counter.
#[derive(Debug, Hash, PartialEq, Eq, Clone, Copy, Structural)]
pub struct OpaqueId(usize);

impl OpaqueId {
    /// The numeric value of this identity.
    pub closed spec fn view(&self) -> usize {
        self.0
    }

    /// Draws the next identity from `counter`.
    ///
    /// The counter is shared, so the value drawn is whatever it held at the
    /// moment of the call; what is known is that the token carries that value.
    pub fn new(counter: &AtomicUsize) -> (r: Self) {
        OpaqueId(counter.fetch_add(1, Ordering::Relaxed))
    }

    /// Wraps an identity value that was obtained elsewhere.
    pub fn from_raw(id: usize) -> (r: Self)
        ensures
            r@ == id,
    {
        OpaqueId(id)
    }

    pub fn id(&self) -> (r: usize)
        ensures
            r == self@,
    {
        self.0
    }
}

} // verus!
