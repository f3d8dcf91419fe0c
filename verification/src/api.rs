//! The plain in-memory demo counter that backs the HTTP sample routes.
//!
//! This counter is deliberately not durable: it exists so that the sample
//! routes have a trivially inspectable state. Callers that share it across
//! threads must wrap it in a lock of their own (a single `RwLock` with one
//! writer at a time); the type itself only promises what each operation
//! does to the value.

use vstd::prelude::*;

verus! {

/// Shared state of the sample HTTP routes: one signed counter.
#[derive(Clone)]
pub struct AppState {
    number: i64,
}

impl AppState {
    /// The value the counter currently holds.
    pub closed spec fn value(&self) -> int {
        self.number as int
    }

    /// A fresh state starts counting from zero.
    pub fn new() -> (r: Self)
        ensures
            r.value() == 0,
    {
        AppState { number: 0 }
    }

    /// The current value of the counter.
    pub fn current(&self) -> (r: i64)
        ensures
            r as int == self.value(),
    {
        self.number
    }

    /// Advances the counter by one and returns the new value.
    pub fn increment(&mut self) -> (r: i64)
        requires
            old(self).value() < i64::MAX,
        ensures
            final(self).value() == old(self).value() + 1,
            r as int == final(self).value(),
    {
        self.number = self.number + 1;
        self.number
    }
}

} // verus!
