//! The limit policy: resolves effective values for the four governed
//! resources (complexity budget, depth budget, page-size cap, query
//! timeout) from three precedence layers. An explicit per-call override
//! wins over a configured process-wide default, which wins over the
//! built-in fallback. Resolution is pure: no state outside the inputs.

use vstd::prelude::*;

use crate::config::Config;

verus! {

/// Built-in page-size cap when neither an override nor a default is set.
pub const MAX_FIRST_FALLBACK: u32 = 1000;

/// Built-in depth budget when neither an override nor a default is set:
/// the maximum representable depth, i.e. effectively unbounded.
pub const MAX_DEPTH_FALLBACK: u8 = u8::MAX;

/// Per-call overrides. `None` means "no override": the configured
/// default, then the fallback, applies. An override cannot force a
/// resource back to "unset".
#[derive(Debug, Clone, Copy, PartialEq, Eq)]
pub struct LimitOverrides {
    pub max_complexity: Option<u64>,
    pub max_depth: Option<u8>,
    pub max_first: Option<u32>,
    pub query_timeout: Option<u64>,
}

impl LimitOverrides {
    /// No overrides at all: every resource resolves from the defaults.
    pub fn none() -> (r: LimitOverrides)
        ensures
            r == no_overrides(),
    {
        LimitOverrides {
            max_complexity: None,
            max_depth: None,
            max_first: None,
            query_timeout: None,
        }
    }
}

/// The override set with nothing overridden.
pub open spec fn no_overrides() -> LimitOverrides {
    LimitOverrides { max_complexity: None, max_depth: None, max_first: None, query_timeout: None }
}

/// The effective limits of one execution, fixed once resolved. A `None`
/// complexity budget means unbounded; a `None` timeout means no deadline.
#[derive(Debug, Clone, Copy, PartialEq, Eq)]
pub struct LimitSet {
    pub max_complexity: Option<u64>,
    pub max_depth: u8,
    pub max_first: u32,
    pub query_timeout: Option<u64>,
}

/// Override-over-default choice for a resource whose unset state is
/// meaningful (unbounded complexity, no timeout).
pub open spec fn pick_opt<T>(over: Option<T>, def: Option<T>) -> Option<T> {
    if over is Some {
        over
    } else {
        def
    }
}

/// Override-over-default-over-fallback choice for a resource that always
/// has an effective value.
pub open spec fn pick<T>(over: Option<T>, def: Option<T>, fallback: T) -> T {
    match over {
        Some(v) => v,
        None => match def {
            Some(v) => v,
            None => fallback,
        },
    }
}

/// The limit set that the precedence rules assign to the given overrides
/// and process defaults.
pub open spec fn resolved_limits(over: LimitOverrides, def: Config) -> LimitSet {
    LimitSet {
        max_complexity: pick_opt(over.max_complexity, def.max_complexity),
        max_depth: pick(over.max_depth, def.max_depth, MAX_DEPTH_FALLBACK),
        max_first: pick(over.max_first, def.max_first, MAX_FIRST_FALLBACK),
        query_timeout: pick_opt(over.query_timeout, def.query_timeout),
    }
}

/// Resolves the effective limits for one call. Pure: the result is a
/// function of the two inputs alone, so identical inputs always give
/// identical limit sets.
pub fn resolve(over: &LimitOverrides, def: &Config) -> (r: LimitSet)
    ensures
        r == resolved_limits(*over, *def),
{
    LimitSet {
        max_complexity: match over.max_complexity {
            Some(v) => Some(v),
            None => def.max_complexity,
        },
        max_depth: match over.max_depth {
            Some(v) => v,
            None => match def.max_depth {
                Some(v) => v,
                None => MAX_DEPTH_FALLBACK,
            },
        },
        max_first: match over.max_first {
            Some(v) => v,
            None => match def.max_first {
                Some(v) => v,
                None => MAX_FIRST_FALLBACK,
            },
        },
        query_timeout: match over.query_timeout {
            Some(v) => Some(v),
            None => def.query_timeout,
        },
    }
}

/// Precedence law: for every resource independently, an explicit per-call
/// override wins over a configured default, a configured default wins
/// over the fallback, and only with neither does the fallback apply.
pub proof fn lemma_limit_precedence(over: LimitOverrides, def: Config)
    ensures
        over.max_complexity is Some ==> resolved_limits(over, def).max_complexity
            == over.max_complexity,
        over.max_complexity is None ==> resolved_limits(over, def).max_complexity
            == def.max_complexity,
        over.max_depth matches Some(v) ==> resolved_limits(over, def).max_depth == v,
        def.max_depth matches Some(v) ==> (over.max_depth is None ==> resolved_limits(
            over,
            def,
        ).max_depth == v),
        over.max_depth is None && def.max_depth is None ==> resolved_limits(over, def).max_depth
            == MAX_DEPTH_FALLBACK,
        over.max_first matches Some(v) ==> resolved_limits(over, def).max_first == v,
        def.max_first matches Some(v) ==> (over.max_first is None ==> resolved_limits(
            over,
            def,
        ).max_first == v),
        over.max_first is None && def.max_first is None ==> resolved_limits(over, def).max_first
            == MAX_FIRST_FALLBACK,
        over.query_timeout is Some ==> resolved_limits(over, def).query_timeout
            == over.query_timeout,
        over.query_timeout is None ==> resolved_limits(over, def).query_timeout
            == def.query_timeout,
{
}

/// Fallback law: with nothing overridden and nothing configured, the
/// depth budget is the maximum representable depth, the page-size cap is
/// 1000, and the complexity budget and timeout stay unset (unbounded).
pub proof fn lemma_limit_fallbacks(over: LimitOverrides, def: Config)
    requires
        over == no_overrides(),
        def.max_complexity is None,
        def.max_depth is None,
        def.max_first is None,
        def.query_timeout is None,
    ensures
        resolved_limits(over, def).max_depth == u8::MAX,
        resolved_limits(over, def).max_first == 1000u32,
        resolved_limits(over, def).max_complexity is None,
        resolved_limits(over, def).query_timeout is None,
{
}

/// Idempotence law: limit resolution has no hidden state, so any two
/// resolutions of the same overrides against the same defaults are the
/// same limit set.
pub proof fn lemma_resolve_idempotent(r1: LimitSet, r2: LimitSet, over: LimitOverrides, def: Config)
    requires
        r1 == resolved_limits(over, def),
        r2 == resolved_limits(over, def),
    ensures
        r1 == r2,
{
}

} // verus!
