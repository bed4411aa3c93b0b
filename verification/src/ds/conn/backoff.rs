//! The delay between failed send attempts.
//!
//! After the failure that follows `n` earlier failures in a row the next
//! attempt waits `20^n` milliseconds, but never longer than a ceiling. One
//! success clears the count.

use vstd::arithmetic::power::{lemma_pow_increases, lemma_pow_positive, pow};
use vstd::prelude::*;

verus! {

/// The wait after the failure that follows `attempt` failures in a row, under
/// the ceiling `max_timeout`, both in milliseconds.
pub open spec fn delay_after(attempt: nat, max_timeout: u64) -> u64 {
    if pow(20, attempt) < max_timeout {
        pow(20, attempt) as u64
    } else {
        max_timeout
    }
}

/// The wait never passes the ceiling and never shrinks from one failure to
/// the next; once it has reached the ceiling it stays there.
pub proof fn lemma_delay_grows_to_ceiling(earlier: nat, later: nat, max_timeout: u64)
    requires
        earlier <= later,
    ensures
        delay_after(earlier, max_timeout) <= delay_after(later, max_timeout) <= max_timeout,
        delay_after(earlier, max_timeout) == max_timeout ==> delay_after(later, max_timeout)
            == max_timeout,
{
    lemma_pow_positive(20, earlier);
    lemma_pow_positive(20, later);
    lemma_pow_increases(20, earlier, later);
}

/// The count of failures after one more, which stops at `u32::MAX`.
pub open spec fn one_more(attempt: u32) -> u32 {
    if attempt < u32::MAX {
        (attempt + 1) as u32
    } else {
        attempt
    }
}

/// The state of the policy. All times are in milliseconds.
pub struct ExponentialBackoff {
    attempt: u32,
    max_timeout: u64,
    use_max: bool,
    timeout: Option<u64>,
}

impl ExponentialBackoff {
    /// Once the ceiling is reached it stays: the flag says that the pending
    /// wait is the ceiling and that every later delay is, too.
    #[verifier::type_invariant]
    spec fn inv(self) -> bool {
        self.use_max ==> self.timeout == Some(self.max_timeout) && pow(20, self.attempt as nat)
            >= self.max_timeout
    }

    /// The number of failures since the last success or reset.
    pub closed spec fn attempts(self) -> u32 {
        self.attempt
    }

    /// The ceiling of the wait.
    pub closed spec fn ceiling(self) -> u64 {
        self.max_timeout
    }

    /// The wait due before the next attempt, if any.
    pub closed spec fn pending(self) -> Option<u64> {
        self.timeout
    }

    /// A policy with the given ceiling and no failure on record.
    pub fn new(max_timeout: u64) -> (backoff: ExponentialBackoff)
        ensures
            backoff.attempts() == 0,
            backoff.ceiling() == max_timeout,
            backoff.pending() is None,
    {
        ExponentialBackoff { attempt: 0, max_timeout, use_max: false, timeout: None }
    }

    /// The wait due before the next attempt, if any.
    pub fn timeout(&self) -> (wait: Option<u64>)
        ensures
            wait == self.pending(),
    {
        self.timeout
    }

    /// Records the outcome of one attempt and hands it on.
    ///
    /// A success clears the record. A failure sets the next wait, counts
    /// itself, and is handed on with a flag that says whether it is the
    /// first failure since the last success or reset.
    pub fn run<O, E>(&mut self, outcome: Result<O, E>) -> (result: Result<O, (E, bool)>)
        ensures
            final(self).ceiling() == old(self).ceiling(),
            match outcome {
                Ok(out) => {
                    &&& result == Ok::<O, (E, bool)>(out)
                    &&& final(self).attempts() == 0
                    &&& final(self).pending() is None
                },
                Err(e) => {
                    &&& result == Err::<O, (E, bool)>((e, old(self).attempts() == 0))
                    &&& final(self).attempts() == one_more(old(self).attempts())
                    &&& final(self).pending() == Some(
                        delay_after(old(self).attempts() as nat, old(self).ceiling()),
                    )
                },
            },
    {
        match outcome {
            Ok(out) => {
                self.reset();
                Ok(out)
            },
            Err(e) => {
                let disconnected = self.attempt == 0;
                self.calculate_wait();
                proof {
                    use_type_invariant(&*self);
                    lemma_pow_increases(20, self.attempt as nat, one_more(self.attempt) as nat);
                }
                let attempt = if self.attempt < u32::MAX {
                    self.attempt + 1
                } else {
                    self.attempt
                };
                *self = ExponentialBackoff {
                    attempt,
                    max_timeout: self.max_timeout,
                    use_max: self.use_max,
                    timeout: self.timeout,
                };
                Err((e, disconnected))
            },
        }
    }

    /// Clears the record: no failure counted, no wait due.
    pub fn reset(&mut self)
        ensures
            final(self).attempts() == 0,
            final(self).pending() is None,
            final(self).ceiling() == old(self).ceiling(),
    {
        *self = ExponentialBackoff {
            attempt: 0,
            max_timeout: self.max_timeout,
            use_max: false,
            timeout: None,
        };
    }

    /// Sets the wait that follows one more failure.
    fn calculate_wait(&mut self)
        ensures
            final(self).attempt == old(self).attempt,
            final(self).max_timeout == old(self).max_timeout,
            final(self).timeout == Some(
                delay_after(old(self).attempt as nat, old(self).max_timeout),
            ),
    {
        if self.use_max {
            proof {
                use_type_invariant(&*self);
            }
            return ;
        }
        let delay = capped_power(self.attempt, self.max_timeout);
        proof {
            lemma_pow_positive(20, self.attempt as nat);
        }
        *self = ExponentialBackoff {
            attempt: self.attempt,
            max_timeout: self.max_timeout,
            use_max: delay == self.max_timeout,
            timeout: Some(delay),
        };
    }
}

/// `20^attempt`, or `max_timeout` where that is smaller.
fn capped_power(attempt: u32, max_timeout: u64) -> (delay: u64)
    ensures
        delay == delay_after(attempt as nat, max_timeout),
{
    let mut delay: u64 = 1;
    let mut i: u32 = 0;
    proof {
        reveal_with_fuel(pow, 1);
    }
    while i < attempt && delay < max_timeout
        invariant
            i <= attempt,
            delay == pow(20, i as nat),
        decreases attempt - i,
    {
        proof {
            reveal_with_fuel(pow, 2);
            lemma_pow_increases(20, (i + 1) as nat, attempt as nat);
        }
        match delay.checked_mul(20) {
            Some(next) => {
                delay = next;
                i += 1;
            },
            None => {
                return max_timeout;
            },
        }
    }
    proof {
        lemma_pow_increases(20, i as nat, attempt as nat);
    }
    if delay < max_timeout {
        delay
    } else {
        max_timeout
    }
}

} // verus!
