//! A run flag shared between threads, so a loop can be stopped from
//! another thread (e.g. a Ctrl+C handler).

use std::sync::atomic::{AtomicBool, Ordering};
use std::sync::Arc;
use vstd::prelude::*;

verus! {

/// Another handle on the same atomic flag (`Arc::clone`, which points a
/// new `Arc` at the same allocation).
#[verifier::external_body]
fn share(flag: &Arc<AtomicBool>) -> (r: Arc<AtomicBool>)
    ensures
        r == *flag,
{
    Arc::clone(flag)
}

/// A shared boolean. Its value can change at any time through another
/// handle, so what a read returns is not known beforehand; what is known
/// is the last value written through this handle.
pub struct RunFlag {
    inner: Arc<AtomicBool>,
    written: Ghost<bool>,
}

impl RunFlag {
    /// The shared flag every handle points at.
    pub closed spec fn spec_shared(&self) -> Arc<AtomicBool> {
        self.inner
    }

    /// The value last written through this handle (`false` for a new
    /// flag).
    pub closed spec fn spec_written(&self) -> bool {
        self.written@
    }

    /// A new flag that reads `false`.
    pub fn new() -> (r: Self)
        ensures
            !r.spec_written(),
    {
        RunFlag { inner: Arc::new(AtomicBool::new(false)), written: Ghost(false) }
    }

    /// Sets the flag for every handle.
    pub fn set(&mut self, value: bool)
        ensures
            final(self).spec_written() == value,
            final(self).spec_shared() == old(self).spec_shared(),
    {
        self.inner.store(value, Ordering::SeqCst);
        self.written = Ghost(value);
    }

    /// Reads the flag: the value last written through any handle, which
    /// another handle may have changed since this one wrote.
    pub fn get(&self) -> bool {
        self.inner.load(Ordering::SeqCst)
    }

    /// Another handle on the same flag.
    pub fn handle(&self) -> (r: Arc<AtomicBool>)
        ensures
            r == self.spec_shared(),
    {
        share(&self.inner)
    }
}

} // verus!
