//! The companies operations: get one company by CIK, or search by a
//! required free-text query.

use vstd::prelude::*;
use crate::cli::CompaniesAction;
use crate::dispatch::ApiRequest;
use crate::params::{SearchCompaniesParams, effective_limit, spec_effective_limit};

verus! {

/// Build the parameter set of a company search: the required query and
/// every given filter are carried over as given, and the limit defaults
/// to 25 when the caller gave none.
pub fn search(query: String, state: Option<String>, sic: Option<u32>, limit: Option<u32>) -> (p:
    SearchCompaniesParams)
    ensures
        p == (SearchCompaniesParams {
            query,
            state,
            sic,
            limit: spec_effective_limit(limit),
        }),
{
    SearchCompaniesParams { query, state, sic, limit: effective_limit(limit) }
}

/// The request a companies action stands for.
pub open spec fn spec_run(action: CompaniesAction) -> ApiRequest {
    match action {
        CompaniesAction::Get { cik } => ApiRequest::CompaniesGet { cik },
        CompaniesAction::Search { query, state, sic, limit } => ApiRequest::CompaniesSearch {
            params: SearchCompaniesParams {
                query,
                state,
                sic,
                limit: spec_effective_limit(limit),
            },
        },
    }
}

/// Turn a companies action into its one request.
pub fn run(action: CompaniesAction) -> (r: ApiRequest)
    ensures
        r == spec_run(action),
{
    match action {
        CompaniesAction::Get { cik } => ApiRequest::CompaniesGet { cik },
        CompaniesAction::Search { query, state, sic, limit } => ApiRequest::CompaniesSearch {
            params: search(query, state, sic, limit),
        },
    }
}

} // verus!
