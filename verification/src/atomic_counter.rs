use std::sync::atomic::{AtomicUsize, Ordering};
use vstd::prelude::*;

verus! {

/// A counter that hands out numbers to any number of threads at once.
#[derive(Debug)]
pub struct AtomicUsizeCounter(AtomicUsize);

impl AtomicUsizeCounter {
    /// A counter that starts at zero.
    pub fn new() -> Self {
        Self(AtomicUsize::new(0))
    }

    /// The counter's value, which this call increments. Other threads share the counter, so no
    /// more is said of the value than its type.
    pub fn next(&self) -> usize {
        self.0.fetch_add(1usize, Ordering::Relaxed)
    }
}

} // verus!
