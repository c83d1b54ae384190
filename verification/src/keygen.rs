//! The source of load keys.

use vstd::prelude::*;
use crate::request::PendingImageId;

verus! {

/// Issues the keys of pending loads: 1, 2, 3, ...
pub struct LoadKeyGenerator {
    counter: u64,
}

impl LoadKeyGenerator {
    /// The key issued last, or 0 if none was issued yet.
    pub closed spec fn last_issued(&self) -> u64 {
        self.counter
    }

    /// A generator that has issued no key.
    pub fn new() -> (generator: LoadKeyGenerator)
        ensures
            generator.last_issued() == 0,
    {
        LoadKeyGenerator { counter: 0 }
    }

    /// Whether every key has been issued, so that `next` may not be called.
    pub fn is_exhausted(&self) -> (exhausted: bool)
        ensures
            exhausted == (self.last_issued() == u64::MAX),
    {
        self.counter == u64::MAX
    }

    /// Issues the next key: one more than the key issued last, hence greater
    /// than every key issued before.
    pub fn next(&mut self) -> (key: PendingImageId)
        requires
            old(self).last_issued() < u64::MAX,
        ensures
            key.0 == old(self).last_issued() + 1,
            final(self).last_issued() == key.0,
    {
        self.counter = self.counter + 1;
        PendingImageId(self.counter)
    }
}

} // verus!
