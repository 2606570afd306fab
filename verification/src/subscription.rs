//! The subscription path. A subscription is validated exactly like a
//! query, but its limits come from the process-wide defaults alone
//! (subscriptions are long-lived and not per-request tunable), no block
//! constraint is pinned up front — the resolver is bound in live mode and
//! tracks the advancing snapshot — and the resolved timeout bounds each
//! re-evaluation cycle, not the subscription's lifetime. A preparation
//! failure fails the whole subscribe call before any stream exists; a
//! failure during one live cycle becomes an error element of the stream
//! and closes it only if the collaborator marks it fatal.

use vstd::prelude::*;

use crate::errors::{ExecutionErrors, QueryError};
use crate::limits::{no_overrides, resolve, resolved_limits, LimitSet};
use crate::orchestrator::{list_outcome_view, staged_view, GraphQlRunner, Subscription};

verus! {

/// A subscribe call whose limits are resolved from the defaults, waiting
/// for the preparer's verdict on the subscription's query.
#[derive(Debug)]
pub struct PendingSubscription {
    pub schema_id: u64,
    pub limits: LimitSet,
}

/// A validated subscription ready to start in live mode. The fields are
/// exactly what the subscription executor must receive: the per-cycle
/// timeout and the complexity, depth and page-size limits, all resolved
/// once at the subscribe call.
#[derive(Debug)]
pub struct LiveSubscription {
    pub schema_id: u64,
    pub limits: LimitSet,
}

/// What preparation decides for a subscription: a failure ends the
/// subscribe call with the validation errors, and no live subscription —
/// hence no stream — ever exists; success carries the resolved limits
/// into live mode unchanged.
pub open spec fn subscribe_step(
    s: PendingSubscription,
    outcome: Result<(), Seq<QueryError>>,
) -> Result<LiveSubscription, Seq<QueryError>> {
    match outcome {
        Err(es) => Err(es),
        Ok(u) => Ok(LiveSubscription { schema_id: s.schema_id, limits: s.limits }),
    }
}

impl GraphQlRunner {
    /// Starts a subscribe call. No per-call overrides are accepted: the
    /// limits are the process-wide defaults, resolved by the same policy
    /// as a query's.
    pub fn run_subscription(&self, subscription: &Subscription) -> (r: PendingSubscription)
        ensures
            r.schema_id == subscription.query.schema_id,
            r.limits == resolved_limits(no_overrides(), self.config),
    {
        let over = crate::limits::LimitOverrides::none();
        let limits = resolve(&over, &self.config);
        PendingSubscription { schema_id: subscription.query.schema_id, limits }
    }
}

impl PendingSubscription {
    /// Accepts the preparer's verdict. A validation failure (for example
    /// a depth budget exceeded) fails the whole subscribe call with
    /// exactly those errors, before any stream is produced. Success
    /// yields the live subscription with the limits unchanged.
    pub fn on_prepared(self, outcome: Result<(), Vec<QueryError>>) -> (r: Result<
        LiveSubscription,
        ExecutionErrors,
    >)
        requires
            outcome matches Err(es) ==> es@.len() > 0,
        ensures
            staged_view(r) == subscribe_step(self, list_outcome_view(outcome)),
            r matches Err(ee) ==> ee.wf(),
    {
        match outcome {
            Err(es) => Err(ExecutionErrors::from_list(es)),
            Ok(_) => Ok(LiveSubscription { schema_id: self.schema_id, limits: self.limits }),
        }
    }
}

impl LiveSubscription {
    /// Accepts the subscription executor's verdict on starting the live
    /// stream, returning the stream handle or the startup failure in the
    /// same uniform error-list shape as the query path.
    pub fn on_started<T>(self, outcome: Result<T, Vec<QueryError>>) -> (r: Result<
        T,
        ExecutionErrors,
    >)
        requires
            outcome matches Err(es) ==> es@.len() > 0,
        ensures
            staged_view(r) == list_outcome_view(outcome),
            r matches Err(ee) ==> ee.wf(),
    {
        match outcome {
            Err(es) => Err(ExecutionErrors::from_list(es)),
            Ok(v) => Ok(v),
        }
    }
}

/// What one live cycle contributes to the stream: its result becomes the
/// next element unchanged — a failure is an error element, never dropped —
/// and the stream stays open unless the cycle failed and the collaborator
/// marked the failure fatal.
pub open spec fn cycle_step<T>(outcome: Result<T, Seq<QueryError>>, fatal: bool) -> (Result<
    T,
    Seq<QueryError>,
>, bool) {
    (
        outcome,
        match outcome {
            Ok(v) => true,
            Err(es) => !fatal,
        },
    )
}

/// The stream's view of one finished live cycle.
#[derive(Debug)]
pub struct CycleReport<T> {
    pub element: Result<T, ExecutionErrors>,
    pub stream_open: bool,
}

/// Classifies one live cycle's result: the element the stream emits, and
/// whether the stream stays open. A per-cycle timeout is an ordinary
/// cycle failure: it surfaces as an error element and is not fatal to the
/// stream unless the collaborator says so.
pub fn classify_cycle<T>(outcome: Result<T, Vec<QueryError>>, fatal: bool) -> (r: CycleReport<T>)
    requires
        outcome matches Err(es) ==> es@.len() > 0,
    ensures
        (staged_view(r.element), r.stream_open) == cycle_step(list_outcome_view(outcome), fatal),
        r.element matches Err(ee) ==> ee.wf(),
{
    match outcome {
        Ok(v) => CycleReport { element: Ok(v), stream_open: true },
        Err(es) => CycleReport {
            element: Err(ExecutionErrors::from_list(es)),
            stream_open: !fatal,
        },
    }
}

/// Subscription failure law: a preparation failure yields exactly the
/// validation errors and no live subscription, so no stream is ever
/// produced; a mid-stream cycle failure becomes an error element of the
/// stream, and the stream stays open whenever the failure is not fatal.
pub proof fn lemma_subscription_failure_modes<T>(
    s: PendingSubscription,
    es: Seq<QueryError>,
    cycle_es: Seq<QueryError>,
)
    ensures
        subscribe_step(s, Err(es)) == Err::<LiveSubscription, _>(es),
        cycle_step::<T>(Err(cycle_es), false) == (Err::<T, _>(cycle_es), true),
        !(cycle_step::<T>(Err(cycle_es), true).1),
{
}

} // verus!
