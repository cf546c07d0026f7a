//! What the relay does after a session attempt fails.

use vstd::prelude::*;
use crate::backoff::{Backoff, next_delay};
use crate::error::TsunaLoopError;

verus! {

/// The supervisor's decision after a failed session attempt.
#[derive(Debug, Clone, Copy, PartialEq, Eq, Structural)]
pub enum Recovery {
    /// Reconnect at once.
    RetryNow,
    /// Wait this many seconds, then reconnect.
    RetryAfter(u64),
    /// End the relay with the error.
    Stop,
}

/// Idle timeouts and server-signalled errors are expected: they retry at
/// once and leave the delay alone.
pub open spec fn retries_at_once(err: TsunaLoopError) -> bool {
    err is ReadTimeout || err is Error
}

/// Failures that consume the backoff: transport, API, cache and unclassified.
pub open spec fn retries_after_delay(err: TsunaLoopError) -> bool {
    !retries_at_once(err) && !(err is Abort)
}

pub open spec fn recovery_spec(err: TsunaLoopError, delay_secs: u64) -> Recovery {
    if retries_at_once(err) {
        Recovery::RetryNow
    } else if err is Abort {
        Recovery::Stop
    } else {
        Recovery::RetryAfter(delay_secs)
    }
}

/// The delay after the supervisor has handled `err`.
pub open spec fn delay_after(err: TsunaLoopError, d: nat) -> nat {
    if retries_after_delay(err) {
        next_delay(d)
    } else {
        d
    }
}

/// Classifies a failure: waits the current delay and grows it for the
/// failures that consume the backoff, retries at once on timeouts and
/// server-signalled errors, and stops on an abort.
pub fn supervise(backoff: &mut Backoff, err: TsunaLoopError) -> (r: Recovery)
    requires
        old(backoff).wf(),
    ensures
        final(backoff).wf(),
        r == recovery_spec(err, old(backoff).delay_secs),
        final(backoff).delay() == delay_after(err, old(backoff).delay()),
{
    match err {
        TsunaLoopError::ReadTimeout | TsunaLoopError::Error => Recovery::RetryNow,
        TsunaLoopError::Abort => Recovery::Stop,
        _ => {
            let wait = backoff.current_secs();
            backoff.increment_backoff();
            Recovery::RetryAfter(wait)
        },
    }
}

/// Only an abort makes the supervisor leave its retry loop.
pub proof fn lemma_only_abort_stops(err: TsunaLoopError, delay_secs: u64)
    ensures
        (recovery_spec(err, delay_secs) is Stop) <==> (err is Abort),
{
}

} // verus!
