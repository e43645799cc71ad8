//! How a node keeps trying to deliver a message to a peer.
use vstd::prelude::*;

verus! {

/// What to do after an attempt to deliver a message failed.
#[derive(Clone, Copy, Debug, PartialEq, Eq)]
pub enum RetryDecision {
    /// Pause, then try again; `next_retry` attempts have failed so far.
    RetryAfterPause { next_retry: usize },
    /// Stop and report the peer unreachable.
    GiveUp,
}

/// After a failed attempt, with `current_retry` earlier attempts failed: try again while
/// fewer than `max_retries` attempts were made, else give up.
pub open spec fn retry_decision(current_retry: usize, max_retries: usize) -> RetryDecision {
    if current_retry + 1 < max_retries {
        RetryDecision::RetryAfterPause { next_retry: (current_retry + 1) as usize }
    } else {
        RetryDecision::GiveUp
    }
}

/// Decides what follows a failed attempt.
pub fn after_send_failure(current_retry: usize, max_retries: usize) -> (d: RetryDecision)
    ensures
        d == retry_decision(current_retry, max_retries),
        current_retry + 1 < max_retries ==> d == (RetryDecision::RetryAfterPause { next_retry: (current_retry + 1) as usize }),
        current_retry + 1 >= max_retries ==> d == RetryDecision::GiveUp,
        current_retry >= max_retries ==> d == RetryDecision::GiveUp,
{
    if current_retry < max_retries && current_retry + 1 < max_retries {
        RetryDecision::RetryAfterPause { next_retry: current_retry + 1 }
    } else {
        RetryDecision::GiveUp
    }
}

/// The retry budget: after a failure the sender tries again, as retry number
/// `current_retry + 1`, exactly when that attempt would still be within `max_retries`
/// attempts; otherwise, and in particular once `max_retries` attempts were spent, it gives up.
pub proof fn retry_within_budget(current_retry: usize, max_retries: usize)
    ensures
        (retry_decision(current_retry, max_retries) is RetryAfterPause) <==> current_retry + 1 < max_retries,
        retry_decision(current_retry, max_retries) matches RetryDecision::RetryAfterPause { next_retry }
            ==> next_retry == current_retry + 1 && next_retry < max_retries,
        current_retry >= max_retries ==> retry_decision(current_retry, max_retries) == RetryDecision::GiveUp,
{
}

/// The count of failed attempts after `failures` failures in a row, starting from none;
/// `None` once the sender gave up.
pub open spec fn retries_after(max_retries: usize, failures: nat) -> Option<usize>
    decreases failures,
{
    if failures == 0 {
        Some(0usize)
    } else {
        match retries_after(max_retries, (failures - 1) as nat) {
            Some(c) => match retry_decision(c, max_retries) {
                RetryDecision::RetryAfterPause { next_retry } => Some(next_retry),
                RetryDecision::GiveUp => None,
            },
            None => None,
        }
    }
}

/// A message is attempted `max_retries` times: after each of the first `max_retries - 1`
/// failures in a row the sender tries again, and the failure of attempt number
/// `max_retries` makes it give up for good. (With `max_retries == 0` the one attempt
/// that is always made is also the last.)
pub proof fn delivery_attempts_bounded(max_retries: usize, failures: nat)
    requires
        max_retries >= 1,
    ensures
        failures < max_retries ==> retries_after(max_retries, failures) == Some(failures as usize),
        failures >= max_retries ==> retries_after(max_retries, failures) is None,
    decreases failures,
{
    if failures > 0 {
        delivery_attempts_bounded(max_retries, (failures - 1) as nat);
    }
}

} // verus!
