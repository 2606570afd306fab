//! The failure taxonomy of one execution. Every stage reports failures
//! to its immediate caller, and all of them surface to the end caller as
//! one uniform, non-empty, ordered error list, for queries and
//! subscriptions alike. No error is silently dropped.

use vstd::prelude::*;

verus! {

/// One execution failure. The stage it arose in is part of the value:
/// `Validation` from preparation (malformed query, complexity or depth
/// budget exceeded), `Constraint` from snapshot selection, `Bind` from
/// resolver binding, `Execution` from field resolution, and `Timeout`
/// when a run exceeds its deadline. A deadline breach is itself one of
/// the execution errors, not a separate channel.
#[derive(Debug, Clone, PartialEq, Eq)]
pub enum QueryError {
    Validation(String),
    Constraint(String),
    Bind(String),
    Execution(String),
    Timeout,
}

/// Whether an error list reports a deadline breach.
pub open spec fn has_timeout(errs: Seq<QueryError>) -> bool {
    exists|i: int| 0 <= i < errs.len() && errs[i] is Timeout
}

/// The uniform error result: a non-empty, ordered list of failures.
/// Multiple fields may fail independently, so one result can carry many.
#[derive(Debug, Clone, PartialEq, Eq)]
pub struct ExecutionErrors {
    pub errors: Vec<QueryError>,
}

impl ExecutionErrors {
    /// Well-formed: at least one failure is reported. Every constructor
    /// of this crate establishes this.
    pub open spec fn wf(self) -> bool {
        self.errors@.len() > 0
    }

    /// Wraps the failures of one stage.
    pub fn from_list(errors: Vec<QueryError>) -> (r: ExecutionErrors)
        requires
            errors@.len() > 0,
        ensures
            r.errors@ == errors@,
            r.wf(),
    {
        ExecutionErrors { errors }
    }

    /// Wraps a single failure.
    pub fn from_one(error: QueryError) -> (r: ExecutionErrors)
        ensures
            r.errors@ =~= seq![error],
            r.wf(),
    {
        let mut errors: Vec<QueryError> = Vec::new();
        errors.push(error);
        ExecutionErrors { errors }
    }

    /// Whether this list reports a deadline breach.
    pub fn is_timeout(&self) -> (r: bool)
        ensures
            r == has_timeout(self.errors@),
    {
        let n = self.errors.len();
        let mut i: usize = 0;
        while i < n
            invariant
                0 <= i <= n,
                n == self.errors@.len(),
                forall|j: int| 0 <= j < i ==> !(#[trigger] self.errors@[j] is Timeout),
            decreases n - i,
        {
            if matches!(self.errors[i], QueryError::Timeout) {
                return true;
            }
            i = i + 1;
        }
        false
    }
}

} // verus!
