//! The institutional-holdings operation: list with filters.

use vstd::prelude::*;
use crate::cli::{InstitutionalAction, PutCallArg};
use crate::dispatch::ApiRequest;
use crate::params::{ListInstitutionalParams, effective_limit, spec_effective_limit,
    spec_opt_filter};

verus! {

/// Build the parameter set of an institutional-holdings list request:
/// every given filter is carried over as given, the put/call filter is
/// translated one to one, and the limit defaults to 25 when the caller
/// gave none.
pub fn list(
    ticker: Option<String>,
    cik: Option<u64>,
    manager_cik: Option<u64>,
    put_call: Option<PutCallArg>,
    limit: Option<u32>,
    cursor: Option<String>,
) -> (p: ListInstitutionalParams)
    ensures
        p == (ListInstitutionalParams {
            ticker,
            cik,
            manager_cik,
            put_call: spec_opt_filter(put_call),
            limit: spec_effective_limit(limit),
            cursor,
        }),
{
    let put_call_filter = match put_call {
        Some(a) => Some(a.to_filter()),
        None => None,
    };
    ListInstitutionalParams {
        ticker,
        cik,
        manager_cik,
        put_call: put_call_filter,
        limit: effective_limit(limit),
        cursor,
    }
}

/// The request an institutional action stands for.
pub open spec fn spec_run(action: InstitutionalAction) -> ApiRequest {
    match action {
        InstitutionalAction::List {
            ticker,
            cik,
            manager_cik,
            put_call,
            limit,
            cursor,
        } => ApiRequest::InstitutionalList {
            params: ListInstitutionalParams {
                ticker,
                cik,
                manager_cik,
                put_call: spec_opt_filter(put_call),
                limit: spec_effective_limit(limit),
                cursor,
            },
        },
    }
}

/// Turn an institutional action into its one request.
pub fn run(action: InstitutionalAction) -> (r: ApiRequest)
    ensures
        r == spec_run(action),
{
    match action {
        InstitutionalAction::List {
            ticker,
            cik,
            manager_cik,
            put_call,
            limit,
            cursor,
        } => ApiRequest::InstitutionalList {
            params: list(ticker, cik, manager_cik, put_call, limit, cursor),
        },
    }
}

} // verus!
