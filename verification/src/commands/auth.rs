//! The authentication flows: log in, log out, show status.
//!
//! Each flow is a decision over the stored record and, for login, the one
//! line read from the user: the outcome says what to persist and what to
//! tell the user. Reading the line, loading and saving the record and
//! printing stay with the caller.

use vstd::prelude::*;
use vstd::string::StringExecFns;
use crate::cli::AuthAction;
use crate::config::{Config, mask, spec_mask};

verus! {

/// What an authentication flow decided: the record to persist, if any,
/// and which message the user sees.
pub enum AuthOutcome {
    /// Persist this record, then report where it was saved.
    KeySaved { config: Config },
    /// The user gave an empty key: a reported no-op, not a failure.
    EmptyKey,
    /// Persist this cleared record, then report the logout.
    LoggedOut { config: Config },
    /// Logout without a stored key: a reported no-op, not a failure.
    NotLoggedIn,
    /// A key is stored; show it in masked form only.
    StatusAuthenticated { masked: String },
    /// No key is stored; tell the user how to log in.
    StatusNotAuthenticated,
}

/// What a login with the given (already trimmed) key must decide: an
/// empty key is a no-op, any other key becomes the whole new record.
pub open spec fn login_outcome_ok(key: String, r: AuthOutcome) -> bool {
    if key@.len() == 0 {
        r == AuthOutcome::EmptyKey
    } else {
        r == (AuthOutcome::KeySaved { config: Config { api_key: Some(key) } })
    }
}

/// What a logout must decide: with no stored key it is a no-op, otherwise
/// the record is cleared.
pub open spec fn logout_outcome_ok(config: Config, r: AuthOutcome) -> bool {
    match config.api_key {
        None => r == AuthOutcome::NotLoggedIn,
        Some(_) => r == (AuthOutcome::LoggedOut { config: Config { api_key: None } }),
    }
}

/// What a status query must report: the masked form of the stored key,
/// or that none is stored. The raw key never appears.
pub open spec fn status_outcome_ok(config: Config, r: AuthOutcome) -> bool {
    match config.api_key {
        Some(k) => r matches AuthOutcome::StatusAuthenticated { masked } && masked@ == spec_mask(
            k@,
        ),
        None => r == AuthOutcome::StatusNotAuthenticated,
    }
}

/// What an authentication action must decide, given the stored record
/// and, for login, the line read from the user (absent counts as empty).
pub open spec fn run_outcome_ok(
    action: AuthAction,
    config: Config,
    login_input: Option<String>,
    r: AuthOutcome,
) -> bool {
    match action {
        AuthAction::Login => match login_input {
            Some(key) => login_outcome_ok(key, r),
            None => r == AuthOutcome::EmptyKey,
        },
        AuthAction::Logout => logout_outcome_ok(config, r),
        AuthAction::Status => status_outcome_ok(config, r),
    }
}

/// Decide a login: an empty key is a reported no-op; any other key is
/// stored as the whole new record, overwriting a previous one.
pub fn login(key: String) -> (r: AuthOutcome)
    ensures
        login_outcome_ok(key, r),
{
    if key.as_str().is_empty() {
        AuthOutcome::EmptyKey
    } else {
        AuthOutcome::KeySaved { config: Config { api_key: Some(key) } }
    }
}

/// Decide a logout: a no-op without a stored key, otherwise the record is
/// cleared.
pub fn logout(config: Config) -> (r: AuthOutcome)
    ensures
        logout_outcome_ok(config, r),
{
    match config.api_key {
        None => AuthOutcome::NotLoggedIn,
        Some(_) => AuthOutcome::LoggedOut { config: Config { api_key: None } },
    }
}

/// Decide a status report: the stored key in masked form, or that none is
/// stored.
pub fn status(config: &Config) -> (r: AuthOutcome)
    ensures
        status_outcome_ok(*config, r),
{
    match &config.api_key {
        Some(k) => AuthOutcome::StatusAuthenticated { masked: mask(k.as_str()) },
        None => AuthOutcome::StatusNotAuthenticated,
    }
}

/// Decide an authentication action against the stored record. For login,
/// `login_input` is the line read from the user, already trimmed; for the
/// other actions it is ignored.
pub fn run(action: AuthAction, config: Config, login_input: Option<String>) -> (r: AuthOutcome)
    ensures
        run_outcome_ok(action, config, login_input, r),
{
    match action {
        AuthAction::Login => match login_input {
            Some(key) => login(key),
            None => AuthOutcome::EmptyKey,
        },
        AuthAction::Logout => logout(config),
        AuthAction::Status => status(&config),
    }
}

impl AuthOutcome {
    /// The message this outcome shows. `path` is the config file path,
    /// used only when a record was saved.
    pub open spec fn spec_message(self, path: Seq<char>) -> Seq<char> {
        match self {
            AuthOutcome::KeySaved { .. } => "API key saved to "@ + path,
            AuthOutcome::EmptyKey => "API key cannot be empty"@,
            AuthOutcome::LoggedOut { .. } => "Logged out"@,
            AuthOutcome::NotLoggedIn => "Not logged in"@,
            AuthOutcome::StatusAuthenticated { masked } => "Authenticated (key: "@ + masked@
                + ")"@,
            AuthOutcome::StatusNotAuthenticated =>
                "Not authenticated. Run 'earningsfeed auth login' to log in."@,
        }
    }

    /// Render the message this outcome shows.
    pub fn message(&self, path: &str) -> (m: String)
        ensures
            m@ == self.spec_message(path@),
    {
        match self {
            AuthOutcome::KeySaved { .. } => {
                let mut out = String::from_str("API key saved to ");
                out.append(path);
                out
            },
            AuthOutcome::EmptyKey => String::from_str("API key cannot be empty"),
            AuthOutcome::LoggedOut { .. } => String::from_str("Logged out"),
            AuthOutcome::NotLoggedIn => String::from_str("Not logged in"),
            AuthOutcome::StatusAuthenticated { masked } => {
                let mut out = String::from_str("Authenticated (key: ");
                out.append(masked.as_str());
                out.append(")");
                out
            },
            AuthOutcome::StatusNotAuthenticated => String::from_str(
                "Not authenticated. Run 'earningsfeed auth login' to log in.",
            ),
        }
    }
}

} // verus!
