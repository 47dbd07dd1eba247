//! Request planning and the credential gate.
//!
//! `plan` routes a parsed command to exactly one operation, passing the
//! caller's values through unmodified. `authorize` is the single gate in
//! front of the network: no request value leaves it without a stored
//! credential attached, so a missing credential fails with the
//! authentication kind before any call could be attempted.

use vstd::prelude::*;
use vstd::string::StringExecFns;
use crate::cli::{AuthAction, Command};
use crate::commands;
use crate::config::Config;
use crate::error::{CliError, ErrorKind};
use crate::params::{ListFilingsParams, ListInsiderParams, ListInstitutionalParams,
    SearchCompaniesParams};

verus! {

/// One outbound API request: a single page or a single entity, read-only.
pub enum ApiRequest {
    FilingsList { params: ListFilingsParams },
    FilingsGet { accession: String },
    InsiderList { params: ListInsiderParams },
    InstitutionalList { params: ListInstitutionalParams },
    CompaniesGet { cik: u64 },
    CompaniesSearch { params: SearchCompaniesParams },
}

/// What one invocation does: a local authentication action, or one
/// outbound API request.
pub enum Plan {
    Auth { action: AuthAction },
    Api { request: ApiRequest },
}

/// The plan of a parsed command: pure routing, one operation per command,
/// every caller-supplied value passed through unmodified.
pub open spec fn spec_plan(cmd: Command) -> Plan {
    match cmd {
        Command::Auth { action } => Plan::Auth { action },
        Command::Filings { action } => Plan::Api { request: commands::filings::spec_run(action) },
        Command::Insider { action } => Plan::Api { request: commands::insider::spec_run(action) },
        Command::Institutional { action } => Plan::Api {
            request: commands::institutional::spec_run(action),
        },
        Command::Companies { action } => Plan::Api {
            request: commands::companies::spec_run(action),
        },
    }
}

/// Route a parsed command to its one operation.
pub fn plan(cmd: Command) -> (p: Plan)
    ensures
        p == spec_plan(cmd),
{
    match cmd {
        Command::Auth { action } => Plan::Auth { action },
        Command::Filings { action } => Plan::Api { request: commands::filings::run(action) },
        Command::Insider { action } => Plan::Api { request: commands::insider::run(action) },
        Command::Institutional { action } => Plan::Api {
            request: commands::institutional::run(action),
        },
        Command::Companies { action } => Plan::Api { request: commands::companies::run(action) },
    }
}

/// A request together with the credential that authorizes it. A value of
/// this type exists only behind `authorize`, so holding one means the
/// credential gate was passed.
pub struct AuthorizedRequest {
    pub api_key: String,
    pub request: ApiRequest,
}

/// The credential gate: with a stored credential the request goes
/// through, carrying the key; without one the flow fails fast with the
/// authentication kind, before any network call could be attempted.
pub fn authorize(config: &Config, request: ApiRequest) -> (r: Result<AuthorizedRequest, CliError>)
    ensures
        match config.api_key {
            Some(k) => r matches Ok(a) && a.api_key@ == k@ && a.request == request,
            None => r matches Err(e) && e.kind() == ErrorKind::Authentication,
        },
{
    match config.require_api_key() {
        Ok(key) => {
            let owned = String::from_str(key);
            Ok(AuthorizedRequest { api_key: owned, request })
        },
        Err(e) => Err(e),
    }
}

} // verus!
