//! Interrupt-safe rotation pulse counter.
//!
//! The interrupt handler calls `increment` once per detected rotation
//! edge; the periodic sampler calls `drain`, which atomically reads the
//! current value and resets it to zero.  On the device the counter is a
//! single atomic word with fetch-and-clear semantics; this type captures
//! that read-and-clear protocol and accounts for every pulse: none is
//! lost and none is double-counted across a drain boundary.

use vstd::prelude::*;

verus! {

/// A monotonically incremented pulse counter with read-and-clear drains.
///
/// `total_counted` tracks every pulse ever counted, `total_drained` the
/// sum of all values handed out by `drain`; the difference is exactly
/// what is still pending in the counter.
pub struct PulseCounter {
    count: u32,
    total: Ghost<nat>,
    drained: Ghost<nat>,
}

impl PulseCounter {
    /// Pulses counted since the last drain (the current counter value).
    pub closed spec fn pending(&self) -> nat {
        self.count as nat
    }

    /// Every pulse counted since creation.
    pub closed spec fn total_counted(&self) -> nat {
        self.total@
    }

    /// Sum of all values returned by `drain` since creation.
    pub closed spec fn total_drained(&self) -> nat {
        self.drained@
    }

    /// Accounting invariant: every counted pulse is either already
    /// drained or still pending.
    pub closed spec fn wf(&self) -> bool {
        self.total@ == self.drained@ + self.count
    }

    /// A fresh counter holds no pulses.
    pub fn new() -> (r: Self)
        ensures
            r.wf(),
            r.pending() == 0,
            r.total_counted() == 0,
            r.total_drained() == 0,
    {
        PulseCounter { count: 0, total: Ghost(0), drained: Ghost(0) }
    }

    /// Count one rotation pulse (the interrupt-context operation).
    pub fn increment(&mut self)
        requires
            old(self).wf(),
            old(self).pending() < u32::MAX,
        ensures
            final(self).wf(),
            final(self).pending() == old(self).pending() + 1,
            final(self).total_counted() == old(self).total_counted() + 1,
            final(self).total_drained() == old(self).total_drained(),
    {
        self.count = self.count + 1;
        proof {
            self.total@ = self.total@ + 1;
        }
    }

    /// Atomically read the counter and reset it to zero, returning the
    /// pre-reset value (the task-context operation).
    pub fn drain(&mut self) -> (r: u32)
        requires
            old(self).wf(),
        ensures
            final(self).wf(),
            r == old(self).pending(),
            final(self).pending() == 0,
            final(self).total_counted() == old(self).total_counted(),
            final(self).total_drained() == old(self).total_drained() + r,
            final(self).total_drained() == final(self).total_counted(),
    {
        let r = self.count;
        self.count = 0;
        proof {
            self.drained@ = self.drained@ + r as nat;
        }
        r
    }
}

/// Pulse conservation: however `increment` and `drain` calls interleave,
/// the values handed out by `drain` plus the pulses still pending add up
/// to exactly the number of pulses counted.
pub proof fn lemma_pulse_conservation(c: &PulseCounter)
    requires
        c.wf(),
    ensures
        c.total_drained() + c.pending() == c.total_counted(),
{
}

} // verus!
