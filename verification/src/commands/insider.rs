//! The insider-transactions operation: list with filters.

use vstd::prelude::*;
use crate::cli::{InsiderAction, TransactionDirectionArg};
use crate::dispatch::ApiRequest;
use crate::params::{ListInsiderParams, effective_limit, spec_effective_limit, spec_opt_direction};

verus! {

/// Build the parameter set of an insider-transactions list request: every
/// given filter is carried over as given, the direction is translated one
/// to one, and the limit defaults to 25 when the caller gave none.
pub fn list(
    ticker: Option<String>,
    cik: Option<u64>,
    person_cik: Option<u64>,
    direction: Option<TransactionDirectionArg>,
    min_value: Option<u64>,
    limit: Option<u32>,
    cursor: Option<String>,
) -> (p: ListInsiderParams)
    ensures
        p == (ListInsiderParams {
            ticker,
            cik,
            person_cik,
            direction: spec_opt_direction(direction),
            min_value,
            limit: spec_effective_limit(limit),
            cursor,
        }),
{
    let direction_filter = match direction {
        Some(a) => Some(a.to_direction()),
        None => None,
    };
    ListInsiderParams {
        ticker,
        cik,
        person_cik,
        direction: direction_filter,
        min_value,
        limit: effective_limit(limit),
        cursor,
    }
}

/// The request an insider action stands for.
pub open spec fn spec_run(action: InsiderAction) -> ApiRequest {
    match action {
        InsiderAction::List {
            ticker,
            cik,
            person_cik,
            direction,
            min_value,
            limit,
            cursor,
        } => ApiRequest::InsiderList {
            params: ListInsiderParams {
                ticker,
                cik,
                person_cik,
                direction: spec_opt_direction(direction),
                min_value,
                limit: spec_effective_limit(limit),
                cursor,
            },
        },
    }
}

/// Turn an insider action into its one request.
pub fn run(action: InsiderAction) -> (r: ApiRequest)
    ensures
        r == spec_run(action),
{
    match action {
        InsiderAction::List {
            ticker,
            cik,
            person_cik,
            direction,
            min_value,
            limit,
            cursor,
        } => ApiRequest::InsiderList {
            params: list(ticker, cik, person_cik, direction, min_value, limit, cursor),
        },
    }
}

} // verus!
