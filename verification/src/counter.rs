//! Monotonic id generators.

use crate::types::Error;
use vstd::prelude::*;

verus! {

/// A counter that hands out the ids 1, 2, 3, ... up to a fixed limit.
///
/// The value is the id handed out last, 0 before the first. It never
/// decreases and grows by exactly one per id.
#[derive(Clone, Debug, PartialEq, Eq)]
pub struct SequenceCounter {
    value: u64,
    limit: u64,
}

impl SequenceCounter {
    /// The id handed out last.
    pub closed spec fn value(&self) -> nat {
        self.value as nat
    }

    /// The largest id that the counter can hand out.
    pub closed spec fn limit(&self) -> nat {
        self.limit as nat
    }

    pub open spec fn wf(&self) -> bool {
        self.value() <= self.limit() <= u64::MAX
    }

    /// A fresh counter for ids that fit in 32 bits.
    pub fn narrow() -> (c: SequenceCounter)
        ensures
            c.wf(),
            c.value() == 0,
            c.limit() == u32::MAX,
    {
        SequenceCounter { value: 0, limit: 0xffff_ffff }
    }

    /// A fresh counter for ids that fit in 64 bits.
    pub fn wide() -> (c: SequenceCounter)
        ensures
            c.wf(),
            c.value() == 0,
            c.limit() == u64::MAX,
    {
        SequenceCounter { value: 0, limit: 0xffff_ffff_ffff_ffff }
    }

    /// A counter that has already handed out `value` ids, if `value` is
    /// within the limit.
    pub fn resume(value: u64, limit: u64) -> (c: Option<SequenceCounter>)
        ensures
            c is Some <==> value <= limit,
            c matches Some(c) ==> c.wf() && c.value() == value && c.limit() == limit,
    {
        if value <= limit {
            Some(SequenceCounter { value, limit })
        } else {
            None
        }
    }

    pub fn current(&self) -> (v: u64)
        ensures
            v == self.value(),
    {
        self.value
    }

    /// The id that `next` would hand out, without taking it.
    pub fn peek(&self) -> (r: Result<u64, Error>)
        requires
            self.wf(),
        ensures
            r == (if self.value() < self.limit() {
                Ok::<u64, Error>((self.value() + 1) as u64)
            } else {
                Err(Error::Overflow)
            }),
    {
        if self.value < self.limit {
            Ok(self.value + 1)
        } else {
            Err(Error::Overflow)
        }
    }

    /// Takes the next id: the current value plus one, which becomes the new
    /// value. At the limit the counter stays as it is and the call fails.
    pub fn next(&mut self) -> (r: Result<u64, Error>)
        requires
            old(self).wf(),
        ensures
            final(self).wf(),
            final(self).limit() == old(self).limit(),
            old(self).value() < old(self).limit() ==> r == Ok::<u64, Error>(
                (old(self).value() + 1) as u64,
            ) && final(self).value() == old(self).value() + 1,
            old(self).value() == old(self).limit() ==> r == Err::<u64, Error>(Error::Overflow)
                && *final(self) == *old(self),
    {
        if self.value < self.limit {
            self.value = self.value + 1;
            Ok(self.value)
        } else {
            Err(Error::Overflow)
        }
    }
}

} // verus!
