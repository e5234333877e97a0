//! The connection-admission policy shared by a listener: a bound on
//! concurrent connections, acquired and released around each one, and an
//! exponential backoff that paces retries after a rejection.

use vstd::prelude::*;

verus! {

/// A bound on concurrent connections. A connection is admitted exactly
/// when the count of active ones is below the bound; the count never
/// exceeds it.
pub struct ConcurrentPolicy {
    active: u64,
    max: u64,
}

impl ConcurrentPolicy {
    /// How many connections are active.
    pub closed spec fn spec_active(&self) -> u64 {
        self.active
    }

    /// The bound.
    pub closed spec fn spec_max(&self) -> u64 {
        self.max
    }

    /// The policy's invariant: the active count stays within the bound.
    pub open spec fn wf(&self) -> bool {
        self.spec_active() <= self.spec_max()
    }

    /// A fresh policy admitting up to `max` concurrent connections.
    pub fn max_conns(max: u64) -> (r: ConcurrentPolicy)
        ensures
            r.wf(),
            r.spec_active() == 0,
            r.spec_max() == max,
    {
        ConcurrentPolicy { active: 0, max }
    }

    /// Try to admit one connection: admitted exactly when the active count
    /// is below the bound, and the count grows by one exactly then.
    pub fn try_acquire(&mut self) -> (admitted: bool)
        requires
            old(self).wf(),
        ensures
            final(self).wf(),
            admitted == (old(self).spec_active() < old(self).spec_max()),
            admitted ==> final(self).spec_active() == old(self).spec_active() + 1,
            !admitted ==> *final(self) == *old(self),
            final(self).spec_max() == old(self).spec_max(),
    {
        if self.active < self.max {
            self.active = self.active + 1;
            true
        } else {
            false
        }
    }

    /// Release one admitted connection.
    pub fn release(&mut self)
        requires
            old(self).wf(),
            old(self).spec_active() > 0,
        ensures
            final(self).wf(),
            final(self).spec_active() == old(self).spec_active() - 1,
            final(self).spec_max() == old(self).spec_max(),
    {
        self.active = self.active - 1;
    }
}

/// An exponential backoff: each rejection doubles the next delay, up to a
/// cap; admission resets it to the base.
pub struct ExponentialBackoff {
    base_ms: u64,
    cap_ms: u64,
    current_ms: u64,
}

impl ExponentialBackoff {
    /// The delay the next rejection will wait.
    pub closed spec fn spec_current(&self) -> u64 {
        self.current_ms
    }

    /// The first delay.
    pub closed spec fn spec_base(&self) -> u64 {
        self.base_ms
    }

    /// The largest delay ever waited.
    pub closed spec fn spec_cap(&self) -> u64 {
        self.cap_ms
    }

    /// The backoff's invariant: the next delay lies between base and cap.
    pub open spec fn wf(&self) -> bool {
        self.spec_base() <= self.spec_current() <= self.spec_cap()
    }

    /// A fresh backoff starting at `base_ms` and capped at `cap_ms`.
    pub fn new(base_ms: u64, cap_ms: u64) -> (r: ExponentialBackoff)
        requires
            base_ms <= cap_ms,
        ensures
            r.wf(),
            r.spec_current() == base_ms,
            r.spec_base() == base_ms,
            r.spec_cap() == cap_ms,
    {
        ExponentialBackoff { base_ms, cap_ms, current_ms: base_ms }
    }

    /// Wait out one rejection: hands back the delay to sleep and doubles
    /// the next one, saturating at the cap.
    pub fn next_delay(&mut self) -> (delay: u64)
        requires
            old(self).wf(),
        ensures
            final(self).wf(),
            delay == old(self).spec_current(),
            final(self).spec_current() == if old(self).spec_current() * 2 <= old(self).spec_cap() {
                (old(self).spec_current() * 2) as u64
            } else {
                old(self).spec_cap()
            },
            final(self).spec_base() == old(self).spec_base(),
            final(self).spec_cap() == old(self).spec_cap(),
    {
        let delay = self.current_ms;
        if self.current_ms <= self.cap_ms / 2 {
            self.current_ms = self.current_ms * 2;
        } else {
            self.current_ms = self.cap_ms;
        }
        delay
    }

    /// An admission resets the backoff to its base delay.
    pub fn reset(&mut self)
        requires
            old(self).wf(),
        ensures
            final(self).wf(),
            final(self).spec_current() == old(self).spec_base(),
            final(self).spec_base() == old(self).spec_base(),
            final(self).spec_cap() == old(self).spec_cap(),
    {
        self.current_ms = self.base_ms;
    }
}

} // verus!
