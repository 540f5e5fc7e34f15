//! Lifecycle of the single shared transport connection.
//!
//! A [`ConnectionGuard`] owns the state of one connection: whether it is
//! live, being created, known dead, or closed for good, and a generation
//! counter that advances every time a creation attempt succeeds. All
//! mutation of connection state goes through this one owner, so the calls
//! can be linearized by whoever drives it (a mutex in the unverified
//! shell). The guard itself decides, for every `ensure_connection` arrival,
//! whether a new creation attempt starts or the caller joins the attempt
//! already in flight — the single-flight discipline that prevents
//! reconnect storms.

use vstd::prelude::*;

use crate::error::{Error, ErrorKind};

verus! {

/// Where the guarded connection stands in its lifecycle.
#[derive(Clone, Copy, Debug, PartialEq, Eq, Structural)]
pub enum ConnectionPhase {
    /// No connection exists and none was ever attempted.
    Uninitialized,
    /// One creation attempt is in flight; arrivals wait for its outcome.
    Connecting,
    /// A live connection is available.
    Open,
    /// The last connection (or creation attempt) is known dead; the next
    /// arrival starts a fresh attempt.
    Invalidated,
    /// The guard was closed; it never reopens.
    Closed,
}

/// What one `ensure_connection` arrival must do.
#[derive(Clone, Copy, Debug, PartialEq, Eq, Structural)]
pub enum EnsureAction {
    /// No usable connection and no attempt in flight: start the one
    /// creation attempt.
    StartCreation,
    /// An attempt is already in flight: await its outcome, issue nothing.
    JoinInFlight,
    /// A live connection of this generation is available: use it.
    UseOpen(u64),
    /// The guard is closed; the arrival fails with a closed error.
    FailClosed,
}

/// Owner of the lifecycle of the single shared transport connection.
#[derive(Clone, Copy, Debug)]
pub struct ConnectionGuard {
    /// The current lifecycle phase.
    pub phase: ConnectionPhase,
    /// How many creation attempts have succeeded so far; the handle a
    /// session holds is valid only while this stays unchanged.
    pub generation: u64,
}

/// The guard after one `ensure_connection` arrival.
pub open spec fn spec_ensure_step(s: ConnectionGuard) -> ConnectionGuard {
    match s.phase {
        ConnectionPhase::Uninitialized => ConnectionGuard {
            phase: ConnectionPhase::Connecting,
            ..s
        },
        ConnectionPhase::Invalidated => ConnectionGuard { phase: ConnectionPhase::Connecting, ..s },
        _ => s,
    }
}

/// The action one `ensure_connection` arrival takes on a guard in state
/// `s`.
pub open spec fn spec_ensure_action(s: ConnectionGuard) -> EnsureAction {
    match s.phase {
        ConnectionPhase::Uninitialized => EnsureAction::StartCreation,
        ConnectionPhase::Invalidated => EnsureAction::StartCreation,
        ConnectionPhase::Connecting => EnsureAction::JoinInFlight,
        ConnectionPhase::Open => EnsureAction::UseOpen(s.generation),
        ConnectionPhase::Closed => EnsureAction::FailClosed,
    }
}

impl ConnectionGuard {
    /// A guard for a connection that was never attempted.
    pub fn new() -> (r: Self)
        ensures
            r.phase == ConnectionPhase::Uninitialized,
            r.generation == 0,
    {
        ConnectionGuard { phase: ConnectionPhase::Uninitialized, generation: 0 }
    }

    /// Registers one `ensure_connection` arrival and says what it must do.
    ///
    /// At most one arrival is ever told to start a creation attempt while
    /// none is in flight; arrivals during an in-flight attempt are told to
    /// wait for that attempt's outcome, and arrivals while the connection
    /// is open are handed the open generation. After a close, arrivals fail
    /// rather than silently reopening.
    pub fn ensure_connection(&mut self) -> (r: EnsureAction)
        ensures
            *final(self) == spec_ensure_step(*old(self)),
            r == spec_ensure_action(*old(self)),
            final(self).generation == old(self).generation,
    {
        match self.phase {
            ConnectionPhase::Uninitialized => {
                self.phase = ConnectionPhase::Connecting;
                EnsureAction::StartCreation
            },
            ConnectionPhase::Invalidated => {
                self.phase = ConnectionPhase::Connecting;
                EnsureAction::StartCreation
            },
            ConnectionPhase::Connecting => EnsureAction::JoinInFlight,
            ConnectionPhase::Open => EnsureAction::UseOpen(self.generation),
            ConnectionPhase::Closed => EnsureAction::FailClosed,
        }
    }

    /// Records that the in-flight creation attempt produced a live
    /// connection: the guard opens and the generation advances, so every
    /// waiter of the attempt observes the same fresh generation.
    pub fn creation_succeeded(&mut self)
        requires
            old(self).phase == ConnectionPhase::Connecting,
            old(self).generation < u64::MAX,
        ensures
            final(self).phase == ConnectionPhase::Open,
            final(self).generation == old(self).generation + 1,
    {
        self.phase = ConnectionPhase::Open;
        self.generation = self.generation + 1;
    }

    /// Records that the in-flight creation attempt failed: the guard is
    /// known failed, and the next arrival starts a fresh attempt.
    pub fn creation_failed(&mut self)
        requires
            old(self).phase == ConnectionPhase::Connecting,
        ensures
            final(self).phase == ConnectionPhase::Invalidated,
            final(self).generation == old(self).generation,
    {
        self.phase = ConnectionPhase::Invalidated;
    }

    /// Records a report that the connection itself (not just one session)
    /// is dead. An open connection is invalidated; a closed guard stays
    /// closed, and an attempt already in flight is left to finish.
    pub fn invalidate(&mut self)
        ensures
            final(self).phase == (if old(self).phase == ConnectionPhase::Open {
                ConnectionPhase::Invalidated
            } else {
                old(self).phase
            }),
            final(self).generation == old(self).generation,
    {
        if matches!(self.phase, ConnectionPhase::Open) {
            self.phase = ConnectionPhase::Invalidated;
        }
    }

    /// Tears the connection down for good: the guard reaches its terminal
    /// phase, and every later arrival fails with a closed error.
    pub fn close(&mut self)
        ensures
            final(self).phase == ConnectionPhase::Closed,
            final(self).generation == old(self).generation,
    {
        self.phase = ConnectionPhase::Closed;
    }

    /// The generation of the current connection.
    pub fn current_generation(&self) -> (r: u64)
        ensures
            r == self.generation,
    {
        self.generation
    }

    /// Whether a live connection is available right now.
    pub fn is_open(&self) -> (r: bool)
        ensures
            r == (self.phase == ConnectionPhase::Open),
    {
        matches!(self.phase, ConnectionPhase::Open)
    }

    /// The error handed to an arrival that finds the guard closed.
    pub fn closed_error() -> (r: Error)
        ensures
            r.kind == ErrorKind::Other,
            r.spec_message() == Some("connection closed"@),
    {
        Error::message(ErrorKind::Other, "connection closed")
    }
}

/// The actions taken by `n` consecutive `ensure_connection` arrivals
/// starting from state `s`, with no other event in between.
pub open spec fn spec_ensure_actions(s: ConnectionGuard, n: nat) -> Seq<EnsureAction>
    decreases n,
{
    if n == 0 {
        Seq::empty()
    } else {
        seq![spec_ensure_action(s)] + spec_ensure_actions(spec_ensure_step(s), (n - 1) as nat)
    }
}

/// A run of `n` arrivals yields one action per arrival.
pub proof fn lemma_ensure_actions_len(s: ConnectionGuard, n: nat)
    ensures
        spec_ensure_actions(s, n).len() == n,
    decreases n,
{
    if n > 0 {
        lemma_ensure_actions_len(spec_ensure_step(s), (n - 1) as nat);
    }
}

/// How many of a run of actions start a creation attempt.
pub open spec fn count_creations(actions: Seq<EnsureAction>) -> nat
    decreases actions.len(),
{
    if actions.len() == 0 {
        0
    } else {
        (if actions[0] == EnsureAction::StartCreation {
            1nat
        } else {
            0nat
        }) + count_creations(actions.skip(1))
    }
}

/// Single flight: however many `ensure_connection` arrivals race in while
/// no connection exists (never attempted, or known failed) and no creation
/// completes in between, exactly one of them starts a creation attempt —
/// the first — and every other one waits for that attempt's outcome.
pub proof fn lemma_single_flight(s: ConnectionGuard, n: nat)
    requires
        s.phase == ConnectionPhase::Uninitialized || s.phase == ConnectionPhase::Invalidated,
        n >= 1,
    ensures
        spec_ensure_actions(s, n)[0] == EnsureAction::StartCreation,
        forall|i: int|
            1 <= i < n ==> spec_ensure_actions(s, n)[i] == EnsureAction::JoinInFlight,
        count_creations(spec_ensure_actions(s, n)) == 1,
{
    let stepped = spec_ensure_step(s);
    let actions = spec_ensure_actions(s, n);
    let rest = spec_ensure_actions(stepped, (n - 1) as nat);
    lemma_ensure_actions_len(s, n);
    lemma_ensure_actions_len(stepped, (n - 1) as nat);
    lemma_connecting_all_join(stepped, (n - 1) as nat);
    assert(actions.skip(1) =~= rest);
    assert forall|i: int| 1 <= i < n implies actions[i] == EnsureAction::JoinInFlight by {
        assert(actions.skip(1)[i - 1] == actions[i]);
        assert(rest[i - 1] == actions.skip(1)[i - 1]);
    }
}

/// While a creation attempt is in flight, every further arrival joins it
/// and none starts another attempt.
pub proof fn lemma_connecting_all_join(s: ConnectionGuard, n: nat)
    requires
        s.phase == ConnectionPhase::Connecting,
    ensures
        forall|i: int|
            0 <= i < n ==> spec_ensure_actions(s, n)[i] == EnsureAction::JoinInFlight,
        count_creations(spec_ensure_actions(s, n)) == 0,
    decreases n,
{
    if n > 0 {
        let stepped = spec_ensure_step(s);
        let actions = spec_ensure_actions(s, n);
        let rest = spec_ensure_actions(stepped, (n - 1) as nat);
        lemma_ensure_actions_len(s, n);
        lemma_ensure_actions_len(stepped, (n - 1) as nat);
        lemma_connecting_all_join(stepped, (n - 1) as nat);
        assert(actions.skip(1) =~= rest);
        assert forall|i: int| 0 <= i < n implies actions[i] == EnsureAction::JoinInFlight by {
            if i >= 1 {
                assert(actions.skip(1)[i - 1] == actions[i]);
                assert(rest[i - 1] == actions.skip(1)[i - 1]);
            }
        }
    }
}

/// Once the one in-flight attempt succeeds, every waiter and every later
/// arrival observes the same open connection: the one whose generation the
/// success installed.
pub proof fn lemma_waiters_share_one_result(s: ConnectionGuard, n: nat)
    requires
        s.phase == ConnectionPhase::Open,
    ensures
        forall|i: int|
            0 <= i < n ==> spec_ensure_actions(s, n)[i] == EnsureAction::UseOpen(s.generation),
    decreases n,
{
    if n > 0 {
        let stepped = spec_ensure_step(s);
        let actions = spec_ensure_actions(s, n);
        let rest = spec_ensure_actions(stepped, (n - 1) as nat);
        lemma_ensure_actions_len(s, n);
        lemma_ensure_actions_len(stepped, (n - 1) as nat);
        lemma_waiters_share_one_result(stepped, (n - 1) as nat);
        assert(actions.skip(1) =~= rest);
        assert forall|i: int|
            0 <= i < n implies actions[i] == EnsureAction::UseOpen(s.generation) by {
            if i >= 1 {
                assert(actions.skip(1)[i - 1] == actions[i]);
                assert(rest[i - 1] == actions.skip(1)[i - 1]);
            }
        }
    }
}

} // verus!
