//! The recoverable wrapper for management-style protocol calls.
//!
//! A management call needs a live connection and a management link attached
//! against the connection's current generation. The wrapper establishes
//! both lazily, classifies every failure, retries the transient ones with
//! backoff — forcing the connection and link to be recreated when the
//! failure says they are dead — and gives up on the rest, surfacing the
//! last failure verbatim. The transport work itself (creating a
//! connection, attaching a link, performing the call) happens outside this
//! core: its successive outcomes are handed in as a script, one entry per
//! attempt, and the wrapper is verified for every script.

use vstd::prelude::*;

use crate::connection::{ConnectionGuard, ConnectionPhase};
use crate::error::{classify_error, spec_classify_error, Error, ErrorClassification, ErrorKind};
use crate::retry::{
    apply_jitter, backoff_ms, spec_backoff_ms, spec_jittered_ms, spec_policy_retryable,
    spec_run_delays, spec_run_result, execute_with_retry, script_covers, RetryOptions, RetryPolicy,
    RetryRun,
};

verus! {

/// A value carried in a management request or response.
#[derive(Debug, Clone)]
pub enum AmqpValue {
    /// No value.
    Null,
    /// A boolean.
    Boolean(bool),
    /// A signed integer.
    Long(i64),
    /// A text value.
    Text(String),
}

/// An ordered list of named values, as management calls exchange them.
pub type AmqpMap = Vec<(String, AmqpValue)>;

/// The outcome of one management call driven to completion: the final
/// result and the delay slept before each retry.
pub struct ManagementCallOutcome {
    pub result: Result<AmqpMap, Error>,
    pub delays: Vec<u64>,
}

/// The state a finished call run leaves behind, with its outcome.
pub ghost struct CallRun {
    pub result: Result<AmqpMap, Error>,
    pub delays: Seq<u64>,
    pub guard: ConnectionGuard,
    pub link_generation: Option<u64>,
}

/// The guard after an attempt succeeds: establishment over a connection
/// that was not open completes one creation, advancing the generation;
/// over an open connection only the link was rebuilt.
pub open spec fn spec_success_guard(g: ConnectionGuard) -> ConnectionGuard {
    if g.phase == ConnectionPhase::Open {
        g
    } else {
        ConnectionGuard { phase: ConnectionPhase::Open, generation: (g.generation + 1) as u64 }
    }
}

/// The guard after an attempt fails: a failure that says the connection is
/// dead invalidates it; a failed establishment leaves the connection known
/// failed; a retryable or fatal protocol failure over a live link leaves
/// the connection open.
pub open spec fn spec_failure_guard(g: ConnectionGuard, e: Error) -> ConnectionGuard {
    if spec_classify_error(e) == ErrorClassification::RequiresReconnect {
        ConnectionGuard { phase: ConnectionPhase::Invalidated, generation: g.generation }
    } else if g.phase != ConnectionPhase::Open {
        ConnectionGuard { phase: ConnectionPhase::Invalidated, generation: g.generation }
    } else {
        g
    }
}

/// The link after an attempt fails: dropped when the connection must be
/// recreated, kept otherwise.
pub open spec fn spec_failure_link(link: Option<u64>, e: Error) -> Option<u64> {
    if spec_classify_error(e) == ErrorClassification::RequiresReconnect {
        None
    } else {
        link
    }
}

/// One management call driven over a script of attempt outcomes, from a
/// guard that is not closed: the result surfaced, the delays slept, and
/// the connection and link state left behind.
pub open spec fn spec_call(
    o: RetryOptions,
    g: ConnectionGuard,
    link: Option<u64>,
    outcomes: Seq<Result<AmqpMap, Error>>,
    scales: Seq<u16>,
    retries_done: nat,
) -> CallRun
    decreases outcomes.len(),
{
    if outcomes.len() == 0 {
        arbitrary()
    } else {
        match outcomes[0] {
            Ok(m) => CallRun {
                result: Ok(m),
                delays: Seq::empty(),
                guard: spec_success_guard(g),
                link_generation: Some(spec_success_guard(g).generation),
            },
            Err(e) => {
                let g2 = spec_failure_guard(g, e);
                let l2 = spec_failure_link(link, e);
                if !spec_policy_retryable(RetryPolicy::ManagementOperation, e) || retries_done
                    >= o.max_retries {
                    CallRun {
                        result: outcomes[0],
                        delays: Seq::empty(),
                        guard: g2,
                        link_generation: l2,
                    }
                } else {
                    let rest = spec_call(
                        o,
                        g2,
                        l2,
                        outcomes.skip(1),
                        scales.skip(1),
                        retries_done + 1,
                    );
                    CallRun {
                        result: rest.result,
                        delays: seq![
                            spec_jittered_ms(
                                spec_backoff_ms(o, retries_done + 1) as u64,
                                scales[0],
                            ),
                        ] + rest.delays,
                        guard: rest.guard,
                        link_generation: rest.link_generation,
                    }
                }
            },
        }
    }
}

/// The recoverable wrapper for management-style operations: lazily
/// (re)establishes its link over the guarded connection and retries failed
/// calls under the management classification policy.
pub struct RecoverableManagementClient {
    /// Lifecycle owner of the shared connection this client runs over.
    pub guard: ConnectionGuard,
    /// The connection generation the management link was attached against,
    /// if one is attached.
    pub link_generation: Option<u64>,
    /// The retry configuration for management operations.
    pub retry_options: RetryOptions,
}

impl RecoverableManagementClient {
    /// A client with no connection and no link yet.
    pub fn new(retry_options: RetryOptions) -> (r: Self)
        ensures
            r.guard.phase == ConnectionPhase::Uninitialized,
            r.guard.generation == 0,
            r.link_generation is None,
            r.retry_options == retry_options,
    {
        RecoverableManagementClient {
            guard: ConnectionGuard::new(),
            link_generation: None,
            retry_options,
        }
    }

    /// Whether a management response's failure is worth retrying: only a
    /// transport-protocol failure whose cause unwraps (through any boxing)
    /// to a transport error the classification tables accept; anything
    /// else — another kind, or no extractable cause — is not retried.
    pub fn should_retry_management_response(e: &Error) -> (r: bool)
        ensures
            r == spec_policy_retryable(RetryPolicy::ManagementOperation, *e),
    {
        !matches!(classify_error(e), ErrorClassification::Fatal)
    }

    /// Establishes the management link: connection, session, authorization
    /// and attach, handed in as one scripted outcome per attempt, retried
    /// under the management classification policy.
    ///
    /// On success the guard holds an open connection and the link is bound
    /// to its generation; establishment over a connection that was not
    /// open completes exactly one creation, advancing the generation by
    /// one, and the generation never otherwise changes. On failure the
    /// connection is left known failed and the failure is surfaced
    /// verbatim. On a closed client establishment fails with the closed
    /// error, consumes nothing, and never silently reopens.
    pub fn create_management_client(
        &mut self,
        attempts: Vec<Result<(), Error>>,
        scales: &Vec<u16>,
    ) -> (r: RetryRun<()>)
        requires
            old(self).guard.generation < u64::MAX,
            old(self).guard.phase != ConnectionPhase::Closed ==> script_covers(
                RetryPolicy::ManagementOperation,
                old(self).retry_options.max_retries as nat,
                attempts@,
            ),
            scales@.len() + 1 >= attempts@.len(),
        ensures
            final(self).retry_options == old(self).retry_options,
            old(self).guard.phase == ConnectionPhase::Closed ==> ({
                &&& r.result matches Err(e) && e.kind == ErrorKind::Other && e.spec_message()
                    == Some("connection closed"@)
                &&& r.delays@ == Seq::<u64>::empty()
                &&& *final(self) == *old(self)
            }),
            old(self).guard.phase != ConnectionPhase::Closed ==> ({
                &&& r.result == spec_run_result(
                    RetryPolicy::ManagementOperation,
                    old(self).retry_options,
                    attempts@,
                    0,
                )
                &&& r.delays@ == spec_run_delays(
                    RetryPolicy::ManagementOperation,
                    old(self).retry_options,
                    attempts@,
                    scales@,
                    0,
                )
                &&& (r.result is Ok ==> ({
                    &&& final(self).guard.phase == ConnectionPhase::Open
                    &&& final(self).link_generation == Some(final(self).guard.generation)
                    &&& final(self).guard.generation == old(self).guard.generation + (
                    if old(self).guard.phase == ConnectionPhase::Open {
                        0int
                    } else {
                        1int
                    })
                }))
                &&& (r.result is Err ==> ({
                    &&& final(self).guard.phase == ConnectionPhase::Invalidated
                    &&& final(self).link_generation is None
                    &&& final(self).guard.generation == old(self).guard.generation
                }))
            }),
    {
        if matches!(self.guard.phase, ConnectionPhase::Closed) {
            return RetryRun { result: Err(ConnectionGuard::closed_error()), delays: Vec::new() };
        }
        let run = execute_with_retry(
            RetryPolicy::ManagementOperation,
            &self.retry_options,
            attempts,
            scales,
        );
        let succeeded = run.result.is_ok();
        if !self.guard.is_open() {
            let _action = self.guard.ensure_connection();
            if succeeded {
                self.guard.creation_succeeded();
                self.link_generation = Some(self.guard.current_generation());
            } else {
                self.guard.creation_failed();
                self.link_generation = None;
            }
        } else {
            if succeeded {
                self.link_generation = Some(self.guard.current_generation());
            } else {
                self.guard.invalidate();
                self.link_generation = None;
            }
        }
        run
    }

    /// Performs one management call over the script of attempt outcomes.
    ///
    /// Each attempt first (re)establishes connection and link if none is
    /// live, then performs the protocol call; the script entry is the
    /// outcome the attempt observed. Failures are classified: a fatal one
    /// is surfaced at once, a transient one is retried after a backoff
    /// delay, and one that says the connection is dead forces connection
    /// and link to be recreated before the retry. Once `max_retries`
    /// retries are spent the last failure is surfaced verbatim. On a
    /// closed client the call fails with the closed error and consumes
    /// nothing.
    ///
    /// `operation_type` and `application_properties` are the request the
    /// transport delivers; the script holds the transport's responses to
    /// them. The core does not interpret the request, so nothing ties the
    /// script's entries to the bytes the shell put on the wire: that
    /// correspondence is the shell's responsibility.
    #[allow(unused_variables)]
    pub fn call(
        &mut self,
        operation_type: &str,
        application_properties: AmqpMap,
        outcomes: Vec<Result<AmqpMap, Error>>,
        scales: &Vec<u16>,
    ) -> (r: ManagementCallOutcome)
        requires
            old(self).guard.generation < u64::MAX,
            old(self).guard.phase != ConnectionPhase::Closed ==> script_covers(
                RetryPolicy::ManagementOperation,
                old(self).retry_options.max_retries as nat,
                outcomes@,
            ),
            scales@.len() + 1 >= outcomes@.len(),
        ensures
            final(self).retry_options == old(self).retry_options,
            old(self).guard.phase == ConnectionPhase::Closed ==> (r.result matches Err(e)
                && e.kind == ErrorKind::Other) && r.delays@ == Seq::<u64>::empty() && *final(self)
                == *old(self),
            old(self).guard.phase != ConnectionPhase::Closed ==> ({
                let run = spec_call(
                    old(self).retry_options,
                    old(self).guard,
                    old(self).link_generation,
                    outcomes@,
                    scales@,
                    0,
                );
                &&& r.result == run.result
                &&& r.delays@ == run.delays
                &&& final(self).guard == run.guard
                &&& final(self).link_generation == run.link_generation
            }),
    {
        if matches!(self.guard.phase, ConnectionPhase::Closed) {
            return ManagementCallOutcome {
                result: Err(ConnectionGuard::closed_error()),
                delays: Vec::new(),
            };
        }
        let ghost o = self.retry_options;
        let ghost outs0 = outcomes@;
        let ghost scales0 = scales@;
        let mut rest = outcomes;
        let mut delays: Vec<u64> = Vec::new();
        let mut retries_done: u32 = 0;
        proof {
            assert(scales0.skip(0) =~= scales0);
        }
        loop
            invariant
                self.retry_options == o,
                o == old(self).retry_options,
                outs0 == outcomes@,
                scales@ == scales0,
                retries_done == delays@.len(),
                retries_done <= o.max_retries,
                rest@.len() + retries_done == outs0.len(),
                scales0.len() + 1 >= outs0.len(),
                old(self).guard.phase != ConnectionPhase::Closed,
                self.guard.phase != ConnectionPhase::Closed,
                self.guard.generation == old(self).guard.generation,
                self.guard.generation < u64::MAX,
                script_covers(
                    RetryPolicy::ManagementOperation,
                    (o.max_retries - retries_done) as nat,
                    rest@,
                ),
                spec_call(o, old(self).guard, old(self).link_generation, outs0, scales0, 0)
                    == ({
                    let run = spec_call(
                        o,
                        self.guard,
                        self.link_generation,
                        rest@,
                        scales0.skip(retries_done as int),
                        retries_done as nat,
                    );
                    CallRun {
                        result: run.result,
                        delays: delays@ + run.delays,
                        guard: run.guard,
                        link_generation: run.link_generation,
                    }
                }),
            decreases rest@.len(),
        {
            let ghost entry_rest = rest@;
            let ghost entry_scales = scales0.skip(retries_done as int);
            let ghost entry_guard = self.guard;
            let ghost entry_link = self.link_generation;
            let ghost rd = retries_done as nat;
            let establish_needed = !(self.guard.is_open() && match self.link_generation {
                Some(g) => g == self.guard.current_generation(),
                None => false,
            });
            if establish_needed {
                let _action = self.guard.ensure_connection();
            }
            let first = rest.remove(0);
            proof {
                assert(entry_rest[0] == first);
                assert(rest@ =~= entry_rest.skip(1));
            }
            match first {
                Ok(m) => {
                    if !self.guard.is_open() {
                        self.guard.creation_succeeded();
                    }
                    self.link_generation = Some(self.guard.current_generation());
                    proof {
                        assert(self.guard == spec_success_guard(entry_guard));
                        assert(delays@ + Seq::<u64>::empty() =~= delays@);
                    }
                    return ManagementCallOutcome { result: Ok(m), delays };
                },
                Err(e) => {
                    let classification = classify_error(&e);
                    if matches!(classification, ErrorClassification::RequiresReconnect) {
                        if self.guard.is_open() {
                            self.guard.invalidate();
                        } else {
                            self.guard.creation_failed();
                        }
                        self.link_generation = None;
                    } else {
                        if !self.guard.is_open() {
                            self.guard.creation_failed();
                        }
                    }
                    proof {
                        assert(self.guard == spec_failure_guard(entry_guard, e));
                        assert(self.link_generation == spec_failure_link(entry_link, e));
                    }
                    let retryable = !matches!(classification, ErrorClassification::Fatal);
                    if !retryable || retries_done >= self.retry_options.max_retries {
                        proof {
                            assert(delays@ + Seq::<u64>::empty() =~= delays@);
                        }
                        return ManagementCallOutcome { result: Err(e), delays };
                    }
                    proof {
                        assert(script_covers(
                            RetryPolicy::ManagementOperation,
                            (o.max_retries - retries_done - 1) as nat,
                            entry_rest.skip(1),
                        ));
                        assert(rest@.len() > 0);
                        assert(retries_done < scales0.len());
                        assert(entry_scales[0] == scales0[retries_done as int]);
                    }
                    let b = backoff_ms(&self.retry_options, retries_done + 1);
                    let scale = scales[delays.len()];
                    let d = apply_jitter(b, scale);
                    let ghost pre_delays = delays@;
                    delays.push(d);
                    retries_done = retries_done + 1;
                    proof {
                        assert(entry_scales.skip(1) =~= scales0.skip(retries_done as int));
                        let run = spec_call(
                            o,
                            self.guard,
                            self.link_generation,
                            rest@,
                            scales0.skip(retries_done as int),
                            retries_done as nat,
                        );
                        let er = spec_call(o, entry_guard, entry_link, entry_rest, entry_scales, rd);
                        assert(er.result == run.result);
                        assert(er.guard == run.guard);
                        assert(er.link_generation == run.link_generation);
                        assert(er.delays == seq![d] + run.delays);
                        assert(delays@ == pre_delays + seq![d]);
                        assert((pre_delays + seq![d]) + run.delays =~= pre_delays + (seq![d]
                            + run.delays));
                    }
                },
            }
        }
    }

    /// Attaching the wrapper directly is not supported: the wrapper
    /// manages attach internally as part of lazy establishment, so a
    /// direct call always fails loudly rather than silently succeeding.
    pub fn attach(&self) -> (r: Result<(), Error>)
        ensures
            r matches Err(e) && e.kind == ErrorKind::UnsupportedOperation,
    {
        Err(Error::message(ErrorKind::UnsupportedOperation, "attach is not supported on the recoverable management client"))
    }

    /// Detaching the wrapper directly is not supported: the wrapper
    /// manages detach internally, so a direct call always fails loudly
    /// rather than silently succeeding.
    pub fn detach(self) -> (r: Result<(), Error>)
        ensures
            r matches Err(e) && e.kind == ErrorKind::UnsupportedOperation,
    {
        Err(Error::message(ErrorKind::UnsupportedOperation, "detach is not supported on the recoverable management client"))
    }
}

} // verus!
