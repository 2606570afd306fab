//! The execution orchestrator: a thin, deterministic composition of the
//! limit policy with four delegated collaborators (query preparer,
//! snapshot selector, resolver binder, executor). The collaborators may
//! block, suspend or do I/O, so the host drives them; this module fixes
//! the decisions between their calls. Each run is an independent value
//! with no state shared across invocations: one stage type per step, so
//! a run that failed preparation can never present a bind request.
//!
//! The stage outcome types mirror the collaborator interfaces: the
//! preparer validates a raw query against the resolved complexity and
//! depth budgets; the selector derives the one block constraint of a
//! one-shot run; the binder yields a resolver pinned to (schema identity,
//! block constraint); the executor runs the prepared query under the
//! resolved deadline and page-size cap.

use vstd::prelude::*;

use crate::config::Config;
use crate::errors::{has_timeout, ExecutionErrors, QueryError};
use crate::limits::{no_overrides, resolve, resolved_limits, LimitOverrides, LimitSet};

verus! {

/// Opaque parsed GraphQL document of the `graphql_parser` crate; the
/// orchestrator carries it to the preparer without reading it.
#[verifier::external_type_specification]
#[verifier::external_body]
pub struct ExDocument(graphql_parser::query::Document);

/// Opaque GraphQL result value of the `graphql_parser` crate; the
/// executor produces it and the orchestrator returns it unchanged.
#[verifier::external_type_specification]
#[verifier::external_body]
pub struct ExValue(graphql_parser::query::Value);

/// An immutable parsed request: the selection set as the parser produced
/// it, its variables, the operation to run, and the identity of the
/// schema it addresses. Consumed by exactly one execution; the
/// orchestration itself reads only the schema identity and hands the rest
/// to the collaborators.
pub struct Query {
    pub schema_id: u64,
    pub document: graphql_parser::query::Document,
    pub variables: Option<graphql_parser::query::Value>,
    pub operation_name: Option<String>,
}

/// A query with liveness semantics: validated like a query, executed as
/// a live stream against an advancing snapshot.
pub struct Subscription {
    pub query: Query,
}

/// The snapshot a one-shot run reads from: a block height, a block hash,
/// or the latest indexed block. Selected once per run and never mutated
/// mid-execution, so all field reads of one run observe one snapshot.
#[derive(Debug, Clone, PartialEq, Eq)]
pub enum BlockConstraint {
    Latest,
    Number(u64),
    Hash(Vec<u8>),
}

/// The query runner: holds the process-wide limit defaults, resolved
/// once at startup, and starts governed runs. It keeps no per-run state,
/// so concurrent runs cannot interfere through it.
pub struct GraphQlRunner {
    pub config: Config,
}

/// The absolute deadline of a run: the start instant plus the resolved
/// timeout, or none when no timeout is configured. Computed once at call
/// start; every downstream stage shares this same instant.
pub open spec fn deadline_of(timeout: Option<u64>, now: u64) -> Option<u64> {
    match timeout {
        Some(t) => Some((now + t) as u64),
        None => None,
    }
}

/// View of a stage outcome whose failures come as a vector.
pub open spec fn list_outcome_view<T>(outcome: Result<T, Vec<QueryError>>) -> Result<
    T,
    Seq<QueryError>,
> {
    match outcome {
        Ok(v) => Ok(v),
        Err(es) => Err(es@),
    }
}

/// View of a staged result whose failures are wrapped as `ExecutionErrors`.
pub open spec fn staged_view<T>(r: Result<T, ExecutionErrors>) -> Result<T, Seq<QueryError>> {
    match r {
        Ok(v) => Ok(v),
        Err(ee) => Err(ee.errors@),
    }
}

/// A run whose limits are resolved and whose deadline is fixed, waiting
/// for the preparer's verdict on the raw query.
#[derive(Debug)]
pub struct PendingPreparation {
    pub schema_id: u64,
    pub limits: LimitSet,
    pub deadline: Option<u64>,
}

/// A prepared run waiting for its block constraint to be selected from
/// the prepared query's own directives and arguments.
#[derive(Debug)]
pub struct PendingConstraint {
    pub schema_id: u64,
    pub limits: LimitSet,
    pub deadline: Option<u64>,
}

/// A run whose snapshot is selected, waiting for a resolver bound to
/// (schema identity, block constraint). The fields are exactly the bind
/// request the host must place.
#[derive(Debug)]
pub struct PendingBind {
    pub schema_id: u64,
    pub constraint: BlockConstraint,
    pub limits: LimitSet,
    pub deadline: Option<u64>,
}

/// A run with a bound resolver, waiting for the executor. The fields are
/// exactly what the executor must receive: the limits resolved at call
/// start and the one absolute deadline of the whole run.
#[derive(Debug)]
pub struct PendingExecution {
    pub schema_id: u64,
    pub constraint: BlockConstraint,
    pub limits: LimitSet,
    pub deadline: Option<u64>,
}

/// What preparation decides: a failure ends the run with the validation
/// errors; success carries the run unchanged into constraint selection.
pub open spec fn prep_step(p: PendingPreparation, outcome: Result<(), Seq<QueryError>>) -> Result<
    PendingConstraint,
    Seq<QueryError>,
> {
    match outcome {
        Err(es) => Err(es),
        Ok(u) => Ok(
            PendingConstraint { schema_id: p.schema_id, limits: p.limits, deadline: p.deadline },
        ),
    }
}

/// What constraint selection decides: an unresolvable snapshot ends the
/// run; a selected constraint becomes the run's one pinned snapshot.
pub open spec fn constraint_step(
    c: PendingConstraint,
    outcome: Result<BlockConstraint, QueryError>,
) -> Result<PendingBind, Seq<QueryError>> {
    match outcome {
        Err(e) => Err(seq![e]),
        Ok(bc) => Ok(
            PendingBind {
                schema_id: c.schema_id,
                constraint: bc,
                limits: c.limits,
                deadline: c.deadline,
            },
        ),
    }
}

/// What binding decides: an unbindable snapshot ends the run; a bound
/// resolver carries the run, snapshot and limits unchanged, to execution.
pub open spec fn bind_step(b: PendingBind, outcome: Result<(), QueryError>) -> Result<
    PendingExecution,
    Seq<QueryError>,
> {
    match outcome {
        Err(e) => Err(seq![e]),
        Ok(u) => Ok(
            PendingExecution {
                schema_id: b.schema_id,
                constraint: b.constraint,
                limits: b.limits,
                deadline: b.deadline,
            },
        ),
    }
}

/// The outcome of a whole one-shot run, given the four stage outcomes:
/// the first failing stage decides, and a completed execution's result is
/// returned unchanged. Pure: a run's outcome is a function of its own
/// stage outcomes alone.
pub open spec fn query_outcome(
    prep: Result<(), Seq<QueryError>>,
    constr: Result<BlockConstraint, QueryError>,
    bind: Result<(), QueryError>,
    exec: Result<graphql_parser::query::Value, Seq<QueryError>>,
) -> Result<graphql_parser::query::Value, Seq<QueryError>> {
    match prep {
        Err(es) => Err(es),
        Ok(u) => match constr {
            Err(e) => Err(seq![e]),
            Ok(bc) => match bind {
                Err(e) => Err(seq![e]),
                Ok(uu) => exec,
            },
        },
    }
}

/// Whether a run with these preparation and selection outcomes ever
/// presents a bind request to the resolver binder.
pub open spec fn reaches_bind(
    prep: Result<(), Seq<QueryError>>,
    constr: Result<BlockConstraint, QueryError>,
) -> bool {
    prep is Ok && constr is Ok
}

/// Whether a run reaches the executor at all.
pub open spec fn reaches_execution(
    prep: Result<(), Seq<QueryError>>,
    constr: Result<BlockConstraint, QueryError>,
    bind: Result<(), QueryError>,
) -> bool {
    reaches_bind(prep, constr) && bind is Ok
}

impl GraphQlRunner {
    /// Creates a runner over the process-wide defaults.
    pub fn new(config: Config) -> (r: Self)
        ensures
            r.config == config,
    {
        GraphQlRunner { config }
    }

    /// Starts a one-shot run with explicit per-call limit overrides
    /// (`None` means no override for that resource). Resolves the
    /// effective limits by strict precedence and fixes the run's one
    /// absolute deadline from the start instant `now`.
    pub fn run_query_with_complexity(
        &self,
        query: &Query,
        max_complexity: Option<u64>,
        max_depth: Option<u8>,
        max_first: Option<u32>,
        now: u64,
    ) -> (r: PendingPreparation)
        requires
            self.config.query_timeout matches Some(t) ==> now + t <= u64::MAX,
        ensures
            r.schema_id == query.schema_id,
            r.limits == resolved_limits(
                LimitOverrides { max_complexity, max_depth, max_first, query_timeout: None },
                self.config,
            ),
            r.deadline == deadline_of(r.limits.query_timeout, now),
    {
        let over = LimitOverrides { max_complexity, max_depth, max_first, query_timeout: None };
        let limits = resolve(&over, &self.config);
        let deadline = match limits.query_timeout {
            Some(t) => Some(now + t),
            None => None,
        };
        PendingPreparation { schema_id: query.schema_id, limits, deadline }
    }

    /// Starts a one-shot run under the process-wide defaults alone.
    pub fn run_query(&self, query: &Query, now: u64) -> (r: PendingPreparation)
        requires
            self.config.query_timeout matches Some(t) ==> now + t <= u64::MAX,
        ensures
            r.schema_id == query.schema_id,
            r.limits == resolved_limits(no_overrides(), self.config),
            r.deadline == deadline_of(r.limits.query_timeout, now),
    {
        self.run_query_with_complexity(query, None, None, None, now)
    }
}

impl PendingPreparation {
    /// Accepts the preparer's verdict. A validation failure (malformed
    /// query, complexity or depth budget exceeded) ends the run at once
    /// with exactly those errors: no later stage can be reached. Success
    /// carries the resolved limits and deadline on unchanged.
    pub fn on_prepared(self, outcome: Result<(), Vec<QueryError>>) -> (r: Result<
        PendingConstraint,
        ExecutionErrors,
    >)
        requires
            outcome matches Err(es) ==> es@.len() > 0,
        ensures
            staged_view(r) == prep_step(self, list_outcome_view(outcome)),
            r matches Err(ee) ==> ee.wf(),
    {
        match outcome {
            Err(es) => Err(ExecutionErrors::from_list(es)),
            Ok(_) => Ok(
                PendingConstraint {
                    schema_id: self.schema_id,
                    limits: self.limits,
                    deadline: self.deadline,
                },
            ),
        }
    }
}

impl PendingConstraint {
    /// Accepts the snapshot selector's verdict. An invalid or
    /// unresolvable snapshot ends the run; a selected constraint is
    /// pinned for the rest of the run.
    pub fn on_constraint(self, outcome: Result<BlockConstraint, QueryError>) -> (r: Result<
        PendingBind,
        ExecutionErrors,
    >)
        ensures
            staged_view(r) == constraint_step(self, outcome),
            r matches Err(ee) ==> ee.wf(),
    {
        match outcome {
            Err(e) => Err(ExecutionErrors::from_one(e)),
            Ok(bc) => Ok(
                PendingBind {
                    schema_id: self.schema_id,
                    constraint: bc,
                    limits: self.limits,
                    deadline: self.deadline,
                },
            ),
        }
    }
}

impl PendingBind {
    /// Accepts the resolver binder's verdict for this run's (schema
    /// identity, block constraint) pair. A failed bind (store
    /// unavailable, schema unknown, snapshot pruned) ends the run; the
    /// caller may retry later with a fresh run.
    pub fn on_bound(self, outcome: Result<(), QueryError>) -> (r: Result<
        PendingExecution,
        ExecutionErrors,
    >)
        ensures
            staged_view(r) == bind_step(self, outcome),
            r matches Err(ee) ==> ee.wf(),
    {
        match outcome {
            Err(e) => Err(ExecutionErrors::from_one(e)),
            Ok(_) => Ok(
                PendingExecution {
                    schema_id: self.schema_id,
                    constraint: self.constraint,
                    limits: self.limits,
                    deadline: self.deadline,
                },
            ),
        }
    }
}

impl PendingExecution {
    /// Accepts the executor's result and returns it to the caller
    /// unchanged, in the same uniform error-list shape as every earlier
    /// stage. In particular a deadline breach arrives as an error list
    /// with a timeout entry, and no value is returned beside it.
    pub fn on_executed(self, outcome: Result<graphql_parser::query::Value, Vec<QueryError>>) -> (r:
        Result<graphql_parser::query::Value, ExecutionErrors>)
        requires
            outcome matches Err(es) ==> es@.len() > 0,
        ensures
            staged_view(r) == list_outcome_view(outcome),
            r matches Err(ee) ==> ee.wf(),
    {
        match outcome {
            Err(es) => Err(ExecutionErrors::from_list(es)),
            Ok(v) => Ok(v),
        }
    }
}

/// The staged transitions compose to the run outcome: whichever stage
/// fails first ends the run with exactly its errors, and a run that
/// passes every stage returns the executor's result unchanged.
pub proof fn lemma_stages_compose(
    p: PendingPreparation,
    prep: Result<(), Seq<QueryError>>,
    constr: Result<BlockConstraint, QueryError>,
    bind: Result<(), QueryError>,
    exec: Result<graphql_parser::query::Value, Seq<QueryError>>,
)
    ensures
        prep_step(p, prep) matches Err(es) ==> query_outcome(prep, constr, bind, exec) == Err::<
            graphql_parser::query::Value,
            Seq<QueryError>,
        >(es),
        prep_step(p, prep) matches Ok(pc) ==> (constraint_step(pc, constr) matches Err(es)
            ==> query_outcome(prep, constr, bind, exec) == Err::<
            graphql_parser::query::Value,
            Seq<QueryError>,
        >(es)),
        prep_step(p, prep) matches Ok(pc) ==> (constraint_step(pc, constr) matches Ok(pb) ==> (
        bind_step(pb, bind) matches Err(es) ==> query_outcome(prep, constr, bind, exec) == Err::<
            graphql_parser::query::Value,
            Seq<QueryError>,
        >(es))),
        prep_step(p, prep) matches Ok(pc) ==> (constraint_step(pc, constr) matches Ok(pb) ==> (
        bind_step(pb, bind) is Ok ==> query_outcome(prep, constr, bind, exec) == exec)),
{
}

/// A failed preparation decides the whole run: the outcome is exactly the
/// validation errors, the resolver binder observes no bind request, and
/// no later stage outcome can influence the result.
pub proof fn lemma_prepare_failure_stops_run(
    es: Seq<QueryError>,
    c1: Result<BlockConstraint, QueryError>,
    b1: Result<(), QueryError>,
    x1: Result<graphql_parser::query::Value, Seq<QueryError>>,
    c2: Result<BlockConstraint, QueryError>,
    b2: Result<(), QueryError>,
    x2: Result<graphql_parser::query::Value, Seq<QueryError>>,
)
    ensures
        !reaches_bind(Err(es), c1),
        !reaches_execution(Err(es), c1, b1),
        query_outcome(Err(es), c1, b1, x1) == Err::<graphql_parser::query::Value, _>(es),
        query_outcome(Err(es), c1, b1, x1) == query_outcome(Err(es), c2, b2, x2),
{
}

/// A deadline breach surfaces as the error list itself: whenever the
/// executor reports errors containing a timeout, the run's outcome is an
/// error list and never a value, and a run that reached execution returns
/// exactly that list, timeout included.
pub proof fn lemma_timeout_yields_error_list(
    prep: Result<(), Seq<QueryError>>,
    constr: Result<BlockConstraint, QueryError>,
    bind: Result<(), QueryError>,
    es: Seq<QueryError>,
)
    requires
        has_timeout(es),
    ensures
        !(query_outcome(prep, constr, bind, Err(es)) is Ok),
        reaches_execution(prep, constr, bind) ==> (query_outcome(prep, constr, bind, Err(es))
            matches Err(out) && out == es && has_timeout(out)),
{
}

/// Snapshot isolation: the bind request of a run carries exactly the
/// block constraint its own selector produced, whatever any concurrent
/// run selected. Two runs at different snapshots therefore bind and
/// execute against their own snapshots independently.
pub proof fn lemma_snapshot_isolation(
    a: PendingConstraint,
    ca: BlockConstraint,
    b: PendingConstraint,
    cb: BlockConstraint,
)
    ensures
        constraint_step(a, Ok(ca)) matches Ok(pa) && pa.constraint == ca && pa.schema_id
            == a.schema_id,
        constraint_step(b, Ok(cb)) matches Ok(pb) && pb.constraint == cb && pb.schema_id
            == b.schema_id,
{
}

/// The deadline is fixed once, at call start: every stage a run passes
/// through carries the same absolute instant into execution.
pub proof fn lemma_single_deadline(
    p: PendingPreparation,
    constr: Result<BlockConstraint, QueryError>,
    bind: Result<(), QueryError>,
)
    ensures
        prep_step(p, Ok(())) matches Ok(pc) && pc.deadline == p.deadline && (constraint_step(
            pc,
            constr,
        ) matches Ok(pb) ==> pb.deadline == p.deadline && (bind_step(pb, bind) matches Ok(pe)
            ==> pe.deadline == p.deadline && pe.limits == p.limits)),
{
}

} // verus!
