//! The filings operations: list with filters, or get one filing by its
//! accession number.

use vstd::prelude::*;
use crate::cli::{FilingStatusArg, FilingsAction};
use crate::dispatch::ApiRequest;
use crate::params::{ListFilingsParams, effective_limit, spec_effective_limit, spec_opt_status};

verus! {

/// Build the parameter set of a filings list request: every given filter
/// is carried over as given, the status is translated one to one, and the
/// limit defaults to 25 when the caller gave none.
pub fn list(
    ticker: Option<String>,
    cik: Option<u64>,
    forms: Option<Vec<String>>,
    status: Option<FilingStatusArg>,
    limit: Option<u32>,
    cursor: Option<String>,
) -> (p: ListFilingsParams)
    ensures
        p == (ListFilingsParams {
            ticker,
            cik,
            forms,
            status: spec_opt_status(status),
            limit: spec_effective_limit(limit),
            cursor,
        }),
{
    let status_filter = match status {
        Some(a) => Some(a.to_status()),
        None => None,
    };
    ListFilingsParams {
        ticker,
        cik,
        forms,
        status: status_filter,
        limit: effective_limit(limit),
        cursor,
    }
}

/// The request a filings action stands for.
pub open spec fn spec_run(action: FilingsAction) -> ApiRequest {
    match action {
        FilingsAction::List { ticker, cik, forms, status, limit, cursor } => ApiRequest::FilingsList {
            params: ListFilingsParams {
                ticker,
                cik,
                forms,
                status: spec_opt_status(status),
                limit: spec_effective_limit(limit),
                cursor,
            },
        },
        FilingsAction::Get { accession } => ApiRequest::FilingsGet { accession },
    }
}

/// Turn a filings action into its one request.
pub fn run(action: FilingsAction) -> (r: ApiRequest)
    ensures
        r == spec_run(action),
{
    match action {
        FilingsAction::List { ticker, cik, forms, status, limit, cursor } => ApiRequest::FilingsList {
            params: list(ticker, cik, forms, status, limit, cursor),
        },
        FilingsAction::Get { accession } => ApiRequest::FilingsGet { accession },
    }
}

} // verus!
