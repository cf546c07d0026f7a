//! Delay between reconnect attempts after a failure.

use vstd::prelude::*;

verus! {

/// Delay that a reset restores, in seconds.
pub const BACKOFF_FLOOR_SECS: u64 = 10;

/// Largest delay ever waited, in seconds.
pub const BACKOFF_CEILING_SECS: u64 = 60;

/// Growth of the delay after each delayed retry, in seconds.
pub const BACKOFF_STEP_SECS: u64 = 10;

/// The delay that follows `d` after one delayed retry: one step more,
/// clamped to the ceiling.
pub open spec fn next_delay(d: nat) -> nat {
    if d + BACKOFF_STEP_SECS >= BACKOFF_CEILING_SECS {
        BACKOFF_CEILING_SECS as nat
    } else {
        (d + BACKOFF_STEP_SECS) as nat
    }
}

/// Current reconnect delay, between the floor and the ceiling.
#[derive(Debug, Clone, Copy, PartialEq, Eq)]
pub struct Backoff {
    pub delay_secs: u64,
}

impl Backoff {
    pub open spec fn wf(&self) -> bool {
        BACKOFF_FLOOR_SECS <= self.delay_secs <= BACKOFF_CEILING_SECS
    }

    pub open spec fn delay(&self) -> nat {
        self.delay_secs as nat
    }

    /// A policy that starts at the floor.
    pub fn new() -> (r: Backoff)
        ensures
            r.wf(),
            r.delay() == BACKOFF_FLOOR_SECS,
    {
        Backoff { delay_secs: BACKOFF_FLOOR_SECS }
    }

    /// How long the next delayed retry waits, in seconds.
    pub fn current_secs(&self) -> (r: u64)
        ensures
            r == self.delay_secs,
    {
        self.delay_secs
    }

    /// Back to the floor; done on each successful authentication.
    pub fn reset_backoff(&mut self)
        ensures
            final(self).wf(),
            final(self).delay() == BACKOFF_FLOOR_SECS,
    {
        self.delay_secs = BACKOFF_FLOOR_SECS;
    }

    /// One step more, clamped to the ceiling; done after each delayed retry.
    pub fn increment_backoff(&mut self)
        requires
            old(self).wf(),
        ensures
            final(self).wf(),
            final(self).delay() == next_delay(old(self).delay()),
    {
        if self.delay_secs >= BACKOFF_CEILING_SECS - BACKOFF_STEP_SECS {
            self.delay_secs = BACKOFF_CEILING_SECS;
        } else {
            self.delay_secs = self.delay_secs + BACKOFF_STEP_SECS;
        }
    }
}

/// A delayed retry never shortens the delay, and never takes it past the
/// ceiling; from the ceiling it stays there.
pub proof fn lemma_backoff_grows_and_saturates(d: nat)
    requires
        BACKOFF_FLOOR_SECS <= d <= BACKOFF_CEILING_SECS,
    ensures
        d <= next_delay(d) <= BACKOFF_CEILING_SECS,
        d < BACKOFF_CEILING_SECS ==> d < next_delay(d),
        d == BACKOFF_CEILING_SECS ==> next_delay(d) == d,
{
}

/// The delay after `n` consecutive delayed retries, starting from `d`.
pub open spec fn delay_after_retries(d: nat, n: nat) -> nat
    decreases n,
{
    if n == 0 {
        d
    } else {
        next_delay(delay_after_retries(d, (n - 1) as nat))
    }
}

/// The delay `d + step * n`, clamped to the ceiling.
pub open spec fn clamped_delay(d: nat, n: nat) -> nat {
    if d + BACKOFF_STEP_SECS * n >= BACKOFF_CEILING_SECS {
        BACKOFF_CEILING_SECS as nat
    } else {
        (d + BACKOFF_STEP_SECS * n) as nat
    }
}

/// After `n` consecutive delayed retries from `d` the delay is
/// `min(d + step * n, ceiling)`.
pub proof fn lemma_backoff_closed_form(d: nat, n: nat)
    requires
        BACKOFF_FLOOR_SECS <= d <= BACKOFF_CEILING_SECS,
    ensures
        delay_after_retries(d, n) == clamped_delay(d, n),
    decreases n,
{
    if n > 0 {
        lemma_backoff_closed_form(d, (n - 1) as nat);
    }
}

/// Over any run of consecutive delayed retries the delay never shrinks and
/// never passes the ceiling, which it reaches after enough of them.
pub proof fn lemma_backoff_monotone_over_retries(d: nat, m: nat, n: nat)
    requires
        BACKOFF_FLOOR_SECS <= d <= BACKOFF_CEILING_SECS,
        m <= n,
    ensures
        delay_after_retries(d, m) <= delay_after_retries(d, n) <= BACKOFF_CEILING_SECS,
        n >= 5 ==> delay_after_retries(d, n) == BACKOFF_CEILING_SECS,
{
    lemma_backoff_closed_form(d, m);
    lemma_backoff_closed_form(d, n);
}

} // verus!
