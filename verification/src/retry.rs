//! Retry schedules and the decisions of a retry loop.

use tokio_retry::strategy::ExponentialBackoff;
use vstd::prelude::*;
use vstd::arithmetic::power::pow;

verus! {

/// `a * b`, or `u64::MAX` when the product does not fit.
pub open spec fn saturating_mul_u64(a: u64, b: u64) -> u64 {
    if a * b > u64::MAX {
        u64::MAX
    } else {
        (a * b) as u64
    }
}

/// The delay, in milliseconds, that an exponential back-off from `base` yields
/// before retry number `k + 1`: `base` to the power `k + 1`, saturating at `u64::MAX`.
pub open spec fn backoff_delay(base: u64, k: nat) -> u64
    decreases k,
{
    if k == 0 {
        base
    } else {
        saturating_mul_u64(backoff_delay(base, (k - 1) as nat), base)
    }
}

/// Calls `tokio_retry::strategy::ExponentialBackoff::from_millis(base)` and takes
/// its item number `attempt` (counting from 0) in milliseconds. The contract claims
/// what that crate's source shows: the iterator starts at `base`, multiplies by
/// `base` at each step, saturates at `u64::MAX`, and never ends.
#[verifier::external_body]
fn exponential_backoff_nth(base: u64, attempt: usize) -> (r: Option<u64>)
    ensures
        r == Some(backoff_delay(base, attempt as nat)),
{
    ExponentialBackoff::from_millis(base).nth(attempt).map(|d| d.as_millis() as u64)
}

/// Every delay of an exponential back-off is at least the one before it.
pub proof fn law_backoff_nondecreasing(base: u64, k: nat)
    ensures
        backoff_delay(base, k) <= backoff_delay(base, k + 1),
{
    let d = backoff_delay(base, k);
    if base == 0 {
        lemma_backoff_zero_base(k);
    } else {
        assert(d * base >= d) by (nonlinear_arith)
            requires
                base >= 1,
                d >= 0,
        ;
    }
}

proof fn lemma_backoff_zero_base(k: nat)
    ensures
        backoff_delay(0, k) == 0,
    decreases k,
{
    if k > 0 {
        lemma_backoff_zero_base((k - 1) as nat);
    }
}

/// While `base` to the power `k + 1` fits in a `u64`, the delay before retry
/// number `k + 1` is exactly that power: the back-off is exponential in the
/// number of past attempts.
pub proof fn law_backoff_is_power(base: u64, k: nat)
    requires
        pow(base as int, k + 1) <= u64::MAX,
    ensures
        backoff_delay(base, k) == pow(base as int, k + 1),
    decreases k,
{
    reveal_with_fuel(pow, 2);
    if k == 0 {
        assert(pow(base as int, 1) == base * pow(base as int, 0));
    } else {
        let p = pow(base as int, k);
        assert(pow(base as int, k + 1) == base * p);
        if base == 0 {
            lemma_backoff_zero_base(k);
            assert(base * p == 0) by (nonlinear_arith)
                requires
                    base == 0,
            ;
        } else {
            vstd::arithmetic::power::lemma_pow_positive(base as int, k);
            assert(base * p >= p) by (nonlinear_arith)
                requires
                    base >= 1,
                    p >= 0,
            ;
            law_backoff_is_power(base, (k - 1) as nat);
            assert(p * base == base * p) by (nonlinear_arith);
        }
    }
}

/// An exponential back-off that yields at most `max_retries` delays, in
/// milliseconds: the delays of `ExponentialBackoff::from_millis(base_millis)`
/// taken `max_retries` times. Jitter, which is random, is applied by whoever
/// sleeps on the delay.
#[derive(Clone, Copy, Debug)]
pub struct Backoff {
    pub base_millis: u64,
    pub max_retries: usize,
    /// How many delays were handed out so far.
    pub taken: usize,
}

impl Backoff {
    pub fn new(base_millis: u64, max_retries: usize) -> (r: Backoff)
        ensures
            r.base_millis == base_millis,
            r.max_retries == max_retries,
            r.taken == 0,
    {
        Backoff { base_millis, max_retries, taken: 0 }
    }

    /// How many delays are left.
    pub open spec fn remaining(&self) -> int {
        self.max_retries - self.taken
    }

    /// The next delay, or `None` once `max_retries` delays were handed out.
    pub fn next_delay(&mut self) -> (r: Option<u64>)
        ensures
            old(self).taken < old(self).max_retries ==> {
                &&& r == Some(backoff_delay(old(self).base_millis, old(self).taken as nat))
                &&& final(self).taken == old(self).taken + 1
                &&& final(self).base_millis == old(self).base_millis
                &&& final(self).max_retries == old(self).max_retries
            },
            old(self).taken >= old(self).max_retries ==> r is None && *final(self) == *old(self),
    {
        if self.taken < self.max_retries {
            let d = exponential_backoff_nth(self.base_millis, self.taken);
            self.taken = self.taken + 1;
            d
        } else {
            None
        }
    }
}

/// The delays between the attempts of the client's own sending of a
/// transaction: exponential from 5 ms, at most 4 retries (5, 25, 125, 625 ms).
pub fn send_retry_schedule() -> (r: Backoff)
    ensures
        r.base_millis == 5,
        r.max_retries == 4,
        r.taken == 0,
{
    Backoff::new(5, 4)
}

/// How a failed attempt is followed: an exponential back-off, or a strategy
/// of the caller's own, `I`, whose delays the caller draws one at a time.
#[derive(Debug)]
pub enum RetryStrategy<I> {
    /// Exponential back-off; its delays are jittered before sleeping.
    Exponential(Backoff),
    /// The caller's strategy: each delay it yields is slept as it is, and the
    /// retries end when it yields none.
    Custom(I),
}

/// The back-off after `k` delays were handed out.
pub open spec fn advanced_by(b: Backoff, k: nat) -> Backoff {
    Backoff { taken: (b.taken + k) as usize, ..b }
}

/// A run that keeps failing sleeps, before retry number `k + 1`, the delay that
/// the exponential back-off yields after `k` others: its delays come in order,
/// each used once, and there are as many as retries were allowed.
pub proof fn law_exponential_run_delays(b: Backoff, k: nat)
    requires
        b.taken + k < b.max_retries,
    ensures
        advanced_by(b, k).remaining() == b.max_retries - b.taken - k,
        advanced_by(b, k).remaining() > 0,
        backoff_delay(advanced_by(b, k).base_millis, advanced_by(b, k).taken as nat) == backoff_delay(
            b.base_millis,
            (b.taken + k) as nat,
        ),
{
}

/// What follows an attempt.
#[derive(Clone, Copy, Debug, PartialEq, Eq)]
pub enum RetryStep {
    /// Hand back the attempt's result.
    Finish,
    /// Sleep `delay_millis` (jittered when `jitter` holds), then attempt again.
    Retry { delay_millis: u64, jitter: bool },
    /// Draw the next delay from the caller's strategy and hand it to
    /// `RetryRun::after_strategy_delay`.
    AskStrategy,
}

/// What follows a delay drawn from the caller's strategy.
#[derive(Debug)]
pub enum StrategyStep<D> {
    /// Hand back the last attempt's result.
    Finish,
    /// Sleep this delay, then attempt again.
    Sleep(D),
}

/// Which kind of strategy a run follows, if any.
#[derive(Debug)]
pub enum RetryPlan {
    Exponential(Backoff),
    Custom,
}

/// The state of a retried operation: the strategy it follows, if any, and what
/// is left of an exponential back-off.
#[derive(Debug)]
pub struct RetryRun {
    pub plan: Option<RetryPlan>,
}

impl RetryRun {
    pub fn new(plan: Option<RetryPlan>) -> (r: RetryRun)
        ensures
            r.plan == plan,
    {
        RetryRun { plan }
    }

    /// Decides what follows an attempt that `succeeded` or failed. A success is
    /// handed back at once, and so is any result when there is no strategy. A
    /// failure under an exponential back-off is retried after its next delay
    /// while one is left (each retry uses one up) and handed back once none is;
    /// under the caller's strategy, its next delay is asked for.
    pub fn after_attempt(&mut self, succeeded: bool) -> (r: RetryStep)
        ensures
            succeeded ==> r == RetryStep::Finish && *final(self) == *old(self),
            !succeeded && old(self).plan is None ==> r == RetryStep::Finish && *final(self) == *old(
                self,
            ),
            !succeeded ==> (old(self).plan matches Some(RetryPlan::Custom) ==> r == RetryStep::AskStrategy
                && *final(self) == *old(self)),
            !succeeded ==> (old(self).plan matches Some(RetryPlan::Exponential(b)) ==> {
                &&& b.remaining() > 0 ==> {
                    &&& r == (RetryStep::Retry {
                        delay_millis: backoff_delay(b.base_millis, b.taken as nat),
                        jitter: true,
                    })
                    &&& final(self).plan == Some(RetryPlan::Exponential(advanced_by(b, 1)))
                }
                &&& b.remaining() <= 0 ==> r == RetryStep::Finish && *final(self) == *old(self)
            }),
    {
        if succeeded {
            return RetryStep::Finish;
        }
        match &mut self.plan {
            None => RetryStep::Finish,
            Some(RetryPlan::Custom) => RetryStep::AskStrategy,
            Some(RetryPlan::Exponential(b)) => match b.next_delay() {
                Some(d) => RetryStep::Retry { delay_millis: d, jitter: true },
                None => RetryStep::Finish,
            },
        }
    }

    /// Decides what follows the delay drawn from the caller's strategy after a
    /// failure: sleep it and attempt again, or, when the strategy yields no more,
    /// hand back the failure.
    pub fn after_strategy_delay<D>(next: Option<D>) -> (r: StrategyStep<D>)
        ensures
            next matches Some(d) ==> r == StrategyStep::Sleep(d),
            next is None ==> r == StrategyStep::<D>::Finish,
    {
        match next {
            Some(d) => StrategyStep::Sleep(d),
            None => StrategyStep::Finish,
        }
    }
}

} // verus!
