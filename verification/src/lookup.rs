use vstd::prelude::*;

verus! {

/// Why a resolution yielded no token.
///
/// `NotFound` is the routine outcome for an identifier with no matching
/// record. `QueryFailed` carries the store driver's error detail; the HTTP
/// boundary collapses the two into one caller-visible reply, but they stay
/// distinct here so operator-facing diagnostics are not lost.
#[derive(Debug)]
pub enum LookupError {
    NotFound,
    QueryFailed(String),
}

/// What one issued store query came back with: the token column of each
/// matching row, in store order, or the driver's error detail.
#[derive(Debug)]
pub enum QueryOutcome {
    Rows(Vec<String>),
    Failure(String),
}

/// The caller-facing result a query outcome maps to: the first row's token
/// when any row matched, `NotFound` on an empty row set, and `QueryFailed`
/// with the driver's detail when the query itself failed.
pub open spec fn outcome_resolution(outcome: QueryOutcome, r: Result<String, LookupError>) -> bool {
    match outcome {
        QueryOutcome::Failure(detail) => {
            &&& r matches Err(LookupError::QueryFailed(d))
            &&& d@ == detail@
        },
        QueryOutcome::Rows(rows) => {
            if rows@.len() == 0 {
                r matches Err(LookupError::NotFound)
            } else {
                r matches Ok(t) && t@ == rows@[0]@
            }
        },
    }
}

/// Maps the outcome of one store query to the caller-facing result.
///
/// Reads at most the first returned row; any further rows are ignored
/// (the data model forbids duplicates, and this mapping does not
/// re-verify uniqueness).
pub fn resolve_outcome(outcome: QueryOutcome) -> (r: Result<String, LookupError>)
    ensures
        outcome_resolution(outcome, r),
{
    match outcome {
        QueryOutcome::Failure(detail) => Err(LookupError::QueryFailed(detail)),
        QueryOutcome::Rows(mut rows) => {
            if rows.len() == 0 {
                Err(LookupError::NotFound)
            } else {
                Ok(rows.remove(0))
            }
        },
    }
}

} // verus!
