//! Retry-with-backoff policy: configuration, delay computation, and the
//! decision taken after each failed attempt.
//!
//! The first try of an operation is free; `max_retries` bounds only the
//! retries that follow it. The delay before retry number `n` (counting from
//! 1) is `base_delay_ms` doubled `n - 1` times, capped at `max_delay_ms`,
//! then scaled by a caller-supplied jitter factor expressed in percent.

use vstd::prelude::*;

use crate::error::{Error, ErrorClassification, spec_classify_error, classify_error};

verus! {

/// Configuration for retry behaviour.
///
/// Defaults: 3 retries, 800 ms base delay, 60 s delay cap, 8 % jitter.
#[derive(Clone, Copy, Debug)]
pub struct RetryOptions {
    /// How many retries may follow the initial attempt.
    pub max_retries: u32,
    /// Delay before the first retry, in milliseconds.
    pub base_delay_ms: u64,
    /// Upper bound on the delay before any retry, in milliseconds.
    pub max_delay_ms: u64,
    /// Half-width of the jitter interval, in percent points: a delay is
    /// scaled by a factor drawn from `[100 - jitter, 100 + jitter]` percent.
    pub jitter_percent: u8,
}

impl RetryOptions {
    /// A jitter width above 100 % would allow negative scale factors.
    pub open spec fn wf(self) -> bool {
        self.jitter_percent <= 100
    }

    pub fn new(max_retries: u32, base_delay_ms: u64, max_delay_ms: u64, jitter_percent: u8)
        -> (r: Self)
        requires
            jitter_percent <= 100,
        ensures
            r == (RetryOptions { max_retries, base_delay_ms, max_delay_ms, jitter_percent }),
            r.wf(),
    {
        RetryOptions { max_retries, base_delay_ms, max_delay_ms, jitter_percent }
    }
}

impl Default for RetryOptions {
    fn default() -> (r: Self)
        ensures
            r == (RetryOptions {
                max_retries: 3u32,
                base_delay_ms: 800u64,
                max_delay_ms: 60000u64,
                jitter_percent: 8u8,
            }),
            r.wf(),
    {
        RetryOptions { max_retries: 3, base_delay_ms: 800, max_delay_ms: 60000, jitter_percent: 8 }
    }
}

/// The raw exponential backoff before capping: `base` doubled `retry - 1`
/// times (for `retry >= 1`).
pub open spec fn raw_backoff(base: nat, retry: nat) -> nat
    decreases retry,
{
    if retry <= 1 {
        base
    } else {
        2 * raw_backoff(base, (retry - 1) as nat)
    }
}

/// The delay, before jitter, for retry number `retry` (counting from 1):
/// exponential growth from `base_delay_ms`, capped at `max_delay_ms`.
pub open spec fn spec_backoff_ms(o: RetryOptions, retry: nat) -> nat {
    vstd::math::min(
        raw_backoff(o.base_delay_ms as nat, retry) as int,
        o.max_delay_ms as int,
    ) as nat
}

/// Computes the capped exponential backoff for retry number `retry`.
pub fn backoff_ms(o: &RetryOptions, retry: u32) -> (r: u64)
    requires
        1 <= retry,
    ensures
        r == spec_backoff_ms(*o, retry as nat),
{
    let mut delay: u64 = if o.base_delay_ms >= o.max_delay_ms {
        o.max_delay_ms
    } else {
        o.base_delay_ms
    };
    let mut i: u32 = 1;
    while i < retry
        invariant
            1 <= i <= retry,
            delay == spec_backoff_ms(*o, i as nat),
            delay <= o.max_delay_ms,
        decreases retry - i,
    {
        if o.max_delay_ms - delay <= delay {
            delay = o.max_delay_ms;
        } else {
            delay = delay * 2;
        }
        i = i + 1;
    }
    delay
}

/// A delay scaled by a jitter factor given in percent, saturating at
/// `u64::MAX`.
pub open spec fn spec_jittered_ms(delay_ms: u64, scale_percent: u16) -> u64 {
    vstd::math::min((delay_ms * scale_percent) / 100, u64::MAX as int) as u64
}

/// Scales a delay by `scale_percent` / 100, saturating at `u64::MAX`.
pub fn apply_jitter(delay_ms: u64, scale_percent: u16) -> (r: u64)
    ensures
        r == spec_jittered_ms(delay_ms, scale_percent),
{
    proof {
        assert((delay_ms as int) * (scale_percent as int) <= (u64::MAX as int) * (u16::MAX as int))
            by (nonlinear_arith)
            requires
                delay_ms <= u64::MAX,
                scale_percent <= u16::MAX,
        ;
    }
    let wide: u128 = (delay_ms as u128) * (scale_percent as u128) / 100;
    if wide > u64::MAX as u128 {
        u64::MAX
    } else {
        wide as u64
    }
}

/// Which classifier judges the failures of an operation.
#[derive(Clone, Copy, Debug, PartialEq, Eq, Structural)]
pub enum RetryPolicy {
    /// No classifier was supplied: no failure is retried.
    NoRetry,
    /// The classifier for management-style protocol calls.
    ManagementOperation,
    /// The classifier for connection creation: network-level failures are
    /// transient, credential failures are fatal.
    ConnectionRecovery,
}

/// The classification a policy assigns to a failure.
pub open spec fn spec_policy_classification(p: RetryPolicy, e: Error) -> ErrorClassification {
    match p {
        RetryPolicy::NoRetry => ErrorClassification::Fatal,
        RetryPolicy::ManagementOperation => spec_classify_error(e),
        RetryPolicy::ConnectionRecovery => if e.kind == crate::error::ErrorKind::Io {
            ErrorClassification::Retryable
        } else {
            spec_classify_error(e)
        },
    }
}

/// Whether a policy retries a failure at all.
pub open spec fn spec_policy_retryable(p: RetryPolicy, e: Error) -> bool {
    spec_policy_classification(p, e) != ErrorClassification::Fatal
}

/// Classifies a failure under a policy.
pub fn policy_classification(p: RetryPolicy, e: &Error) -> (r: ErrorClassification)
    ensures
        r == spec_policy_classification(p, *e),
{
    match p {
        RetryPolicy::NoRetry => ErrorClassification::Fatal,
        RetryPolicy::ManagementOperation => classify_error(e),
        RetryPolicy::ConnectionRecovery => {
            if matches!(e.kind, crate::error::ErrorKind::Io) {
                ErrorClassification::Retryable
            } else {
                classify_error(e)
            }
        },
    }
}

/// The decision after one failed attempt: the jittered backoff delay to
/// sleep before the next retry, or nothing when the policy refuses the
/// failure or the budget of `max_retries` is spent. A live driver feeds
/// each real failure through this step and sleeps what it hands back.
pub fn retry_step(
    p: RetryPolicy,
    o: &RetryOptions,
    retries_done: u32,
    e: &Error,
    scale: u16,
) -> (r: Option<u64>)
    ensures
        spec_policy_retryable(p, *e) && retries_done < o.max_retries ==> r == Some(
            spec_jittered_ms(spec_backoff_ms(*o, retries_done as nat + 1) as u64, scale),
        ),
        !(spec_policy_retryable(p, *e) && retries_done < o.max_retries) ==> r is None,
{
    let retryable = !matches!(policy_classification(p, e), ErrorClassification::Fatal);
    if retryable && retries_done < o.max_retries {
        Some(apply_jitter(backoff_ms(o, retries_done + 1), scale))
    } else {
        None
    }
}

/// The result of driving an operation to completion under a retry policy:
/// the final outcome, and the delay slept before each retry.
pub struct RetryRun<T> {
    pub result: Result<T, Error>,
    pub delays: Vec<u64>,
}

/// Whether a script of attempt outcomes reaches a terminal attempt (a
/// success, a failure the policy does not retry, or an exhausted budget of
/// `retries_left`) before running out of entries.
pub open spec fn script_covers<T>(
    p: RetryPolicy,
    retries_left: nat,
    outcomes: Seq<Result<T, Error>>,
) -> bool
    decreases outcomes.len(),
{
    outcomes.len() > 0 && match outcomes[0] {
        Ok(_) => true,
        Err(e) => !spec_policy_retryable(p, e) || retries_left == 0 || script_covers(
            p,
            (retries_left - 1) as nat,
            outcomes.skip(1),
        ),
    }
}

/// The outcome the retry driver surfaces: the first success, the first
/// failure the policy refuses to retry, or the last failure once
/// `max_retries` retries have been spent. `retries_done` counts the retries
/// already taken.
pub open spec fn spec_run_result<T>(
    p: RetryPolicy,
    o: RetryOptions,
    outcomes: Seq<Result<T, Error>>,
    retries_done: nat,
) -> Result<T, Error>
    decreases outcomes.len(),
{
    if outcomes.len() == 0 {
        arbitrary()
    } else {
        match outcomes[0] {
            Ok(v) => Ok(v),
            Err(e) => if !spec_policy_retryable(p, e) || retries_done >= o.max_retries {
                outcomes[0]
            } else {
                spec_run_result(p, o, outcomes.skip(1), retries_done + 1)
            },
        }
    }
}

/// The delays the retry driver sleeps, one per retry: the capped backoff
/// for the retry number, scaled by the matching jitter factor.
pub open spec fn spec_run_delays<T>(
    p: RetryPolicy,
    o: RetryOptions,
    outcomes: Seq<Result<T, Error>>,
    scales: Seq<u16>,
    retries_done: nat,
) -> Seq<u64>
    decreases outcomes.len(),
{
    if outcomes.len() == 0 {
        Seq::empty()
    } else {
        match outcomes[0] {
            Ok(_) => Seq::empty(),
            Err(e) => if !spec_policy_retryable(p, e) || retries_done >= o.max_retries {
                Seq::empty()
            } else {
                seq![
                    spec_jittered_ms(
                        spec_backoff_ms(o, retries_done + 1) as u64,
                        scales[0],
                    ),
                ] + spec_run_delays(p, o, outcomes.skip(1), scales.skip(1), retries_done + 1)
            },
        }
    }
}

/// Drives an operation to completion under a retry policy.
///
/// The operation's successive outcomes are handed in as a script, one entry
/// per attempt, in the order the attempts would observe them; `scales` holds
/// the jitter factor for each potential retry. The driver attempts the
/// operation, returns the first success, asks the policy about each failure,
/// gives up on a failure the policy refuses or once `max_retries` retries
/// are spent — surfacing that last failure verbatim — and otherwise records
/// the backoff delay and retries.
pub fn execute_with_retry<T>(
    p: RetryPolicy,
    o: &RetryOptions,
    outcomes: Vec<Result<T, Error>>,
    scales: &Vec<u16>,
) -> (r: RetryRun<T>)
    requires
        script_covers(p, o.max_retries as nat, outcomes@),
        scales@.len() + 1 >= outcomes@.len(),
    ensures
        r.result == spec_run_result(p, *o, outcomes@, 0),
        r.delays@ == spec_run_delays(p, *o, outcomes@, scales@, 0),
        r.delays@.len() <= o.max_retries,
{
    let ghost outs0 = outcomes@;
    let ghost scales0 = scales@;
    let mut rest = outcomes;
    let mut delays: Vec<u64> = Vec::new();
    let mut retries_done: u32 = 0;
    proof {
        assert(scales0.skip(0) =~= scales0);
        assert(delays@ + spec_run_delays(p, *o, rest@, scales0, 0) =~= spec_run_delays(
            p,
            *o,
            outs0,
            scales0,
            0,
        ));
    }
    loop
        invariant
            outcomes@ == outs0,
            retries_done == delays@.len(),
            retries_done <= o.max_retries,
            scales@ == scales0,
            rest@.len() + retries_done == outs0.len(),
            scales0.len() + 1 >= outs0.len(),
            script_covers(p, (o.max_retries - retries_done) as nat, rest@),
            spec_run_result(p, *o, outs0, 0) == spec_run_result(
                p,
                *o,
                rest@,
                retries_done as nat,
            ),
            spec_run_delays(p, *o, outs0, scales0, 0) == delays@ + spec_run_delays(
                p,
                *o,
                rest@,
                scales0.skip(retries_done as int),
                retries_done as nat,
            ),
        decreases rest@.len(),
    {
        let ghost entry_rest = rest@;
        let ghost entry_scales = scales0.skip(retries_done as int);
        let ghost rd = retries_done as nat;
        let first = rest.remove(0);
        proof {
            assert(entry_rest[0] == first);
            assert(rest@ =~= entry_rest.skip(1));
        }
        match first {
            Ok(v) => {
                proof {
                    assert(entry_rest[0] == Ok::<T, Error>(v));
                    assert(spec_run_delays(p, *o, entry_rest, entry_scales, rd)
                        =~= Seq::<u64>::empty());
                    assert(delays@ + Seq::<u64>::empty() =~= delays@);
                }
                return RetryRun { result: Ok(v), delays };
            },
            Err(e) => {
                let retryable = !matches!(
                    policy_classification(p, &e),
                    ErrorClassification::Fatal
                );
                if !retryable || retries_done >= o.max_retries {
                    proof {
                        assert(entry_rest[0] == Err::<T, Error>(e));
                        assert(spec_run_delays(p, *o, entry_rest, entry_scales, rd)
                            =~= Seq::<u64>::empty());
                        assert(delays@ + Seq::<u64>::empty() =~= delays@);
                    }
                    return RetryRun { result: Err(e), delays };
                }
                proof {
                    assert(entry_rest[0] == Err::<T, Error>(e));
                    assert(script_covers(
                        p,
                        (o.max_retries - retries_done - 1) as nat,
                        entry_rest.skip(1),
                    ));
                    assert(rest@.len() > 0);
                    assert(retries_done < scales0.len());
                    assert(entry_scales[0] == scales0[retries_done as int]);
                }
                let b = backoff_ms(o, retries_done + 1);
                let scale = scales[delays.len()];
                let d = apply_jitter(b, scale);
                let ghost pre_delays = delays@;
                delays.push(d);
                retries_done = retries_done + 1;
                proof {
                    assert(entry_scales.skip(1) =~= scales0.skip(retries_done as int));
                    assert(spec_run_delays(p, *o, entry_rest, entry_scales, rd) == seq![d]
                        + spec_run_delays(
                        p,
                        *o,
                        rest@,
                        scales0.skip(retries_done as int),
                        retries_done as nat,
                    ));
                    assert((pre_delays + seq![d]) + spec_run_delays(
                        p,
                        *o,
                        rest@,
                        scales0.skip(retries_done as int),
                        retries_done as nat,
                    ) =~= pre_delays + (seq![d] + spec_run_delays(
                        p,
                        *o,
                        rest@,
                        scales0.skip(retries_done as int),
                        retries_done as nat,
                    )));
                }
            },
        }
    }
}

/// For every `n` up to `max_retries`: an operation that fails `n` times
/// with failures the policy retries and succeeds on attempt `n + 1` returns
/// the success value, after exactly `n` backoff delays.
pub proof fn lemma_retry_until_success<T>(
    p: RetryPolicy,
    o: RetryOptions,
    outcomes: Seq<Result<T, Error>>,
    scales: Seq<u16>,
    n: nat,
)
    requires
        n <= o.max_retries,
        outcomes.len() == n + 1,
        forall|i: int|
            0 <= i < n ==> ((#[trigger] outcomes[i]) matches Err(e) && spec_policy_retryable(p, e)),
        outcomes[n as int] is Ok,
    ensures
        spec_run_result(p, o, outcomes, 0) == outcomes[n as int],
        spec_run_delays(p, o, outcomes, scales, 0).len() == n,
{
    lemma_retry_until_success_from(p, o, outcomes, scales, n, 0);
}

proof fn lemma_retry_until_success_from<T>(
    p: RetryPolicy,
    o: RetryOptions,
    outcomes: Seq<Result<T, Error>>,
    scales: Seq<u16>,
    n: nat,
    start: nat,
)
    requires
        start + n <= o.max_retries,
        outcomes.len() == n + 1,
        forall|i: int|
            0 <= i < n ==> ((#[trigger] outcomes[i]) matches Err(e) && spec_policy_retryable(p, e)),
        outcomes[n as int] is Ok,
    ensures
        spec_run_result(p, o, outcomes, start) == outcomes[n as int],
        spec_run_delays(p, o, outcomes, scales, start).len() == n,
    decreases n,
{
    if n == 0 {
    } else {
        lemma_retry_until_success_from(
            p,
            o,
            outcomes.skip(1),
            scales.skip(1),
            (n - 1) as nat,
            start + 1,
        );
    }
}

/// An operation whose first failure the policy classifies as fatal is
/// never retried, whatever `max_retries` allows: the failure comes back
/// verbatim and no delay is slept.
pub proof fn lemma_fatal_never_retried<T>(
    p: RetryPolicy,
    o: RetryOptions,
    outcomes: Seq<Result<T, Error>>,
    scales: Seq<u16>,
)
    requires
        outcomes.len() >= 1,
        outcomes[0] matches Err(e) && spec_policy_classification(p, e)
            == ErrorClassification::Fatal,
    ensures
        spec_run_result(p, o, outcomes, 0) == outcomes[0],
        spec_run_delays(p, o, outcomes, scales, 0).len() == 0,
{
}

} // verus!
