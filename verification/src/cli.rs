//! The parsed command surface: a validated command plus typed option bags.
//!
//! The argument-parsing front end produces these values; the core only
//! consumes them. A filter the caller did not give is `None`; a `limit`
//! the caller did not give is `None` and defaults to 25 when the
//! parameter set is built.

use vstd::prelude::*;

verus! {

/// A whole invocation: exactly one command per process run.
pub struct Cli {
    pub command: Command,
}

/// The top-level commands, one per resource plus authentication.
pub enum Command {
    Auth { action: AuthAction },
    Filings { action: FilingsAction },
    Insider { action: InsiderAction },
    Institutional { action: InstitutionalAction },
    Companies { action: CompaniesAction },
}

/// Authentication sub-actions.
#[derive(Clone, Copy, Debug, PartialEq, Eq, Structural)]
pub enum AuthAction {
    /// Store an API key read from the user.
    Login,
    /// Remove the stored API key.
    Logout,
    /// Show whether a key is stored, in masked form.
    Status,
}

/// Filings sub-actions.
pub enum FilingsAction {
    /// List filings, filtered by the fields that are set.
    List {
        ticker: Option<String>,
        cik: Option<u64>,
        forms: Option<Vec<String>>,
        status: Option<FilingStatusArg>,
        limit: Option<u32>,
        cursor: Option<String>,
    },
    /// Fetch one filing by accession number.
    Get { accession: String },
}

/// Filing status filter as the command line offers it.
#[derive(Clone, Copy, Debug, PartialEq, Eq, Structural)]
pub enum FilingStatusArg {
    All,
    Provisional,
    Final,
}

/// Insider-transaction sub-actions.
pub enum InsiderAction {
    /// List insider transactions, filtered by the fields that are set.
    List {
        ticker: Option<String>,
        cik: Option<u64>,
        person_cik: Option<u64>,
        direction: Option<TransactionDirectionArg>,
        min_value: Option<u64>,
        limit: Option<u32>,
        cursor: Option<String>,
    },
}

/// Transaction direction filter as the command line offers it.
#[derive(Clone, Copy, Debug, PartialEq, Eq, Structural)]
pub enum TransactionDirectionArg {
    Buy,
    Sell,
}

/// Institutional-holdings sub-actions.
pub enum InstitutionalAction {
    /// List institutional holdings, filtered by the fields that are set.
    List {
        ticker: Option<String>,
        cik: Option<u64>,
        manager_cik: Option<u64>,
        put_call: Option<PutCallArg>,
        limit: Option<u32>,
        cursor: Option<String>,
    },
}

/// Put/call filter as the command line offers it.
#[derive(Clone, Copy, Debug, PartialEq, Eq, Structural)]
pub enum PutCallArg {
    Put,
    Call,
    Equity,
}

/// Companies sub-actions.
pub enum CompaniesAction {
    /// Fetch one company by CIK number.
    Get { cik: u64 },
    /// Search companies by a required free-text query.
    Search {
        query: String,
        state: Option<String>,
        sic: Option<u32>,
        limit: Option<u32>,
    },
}

} // verus!
