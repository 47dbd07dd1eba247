//! Error taxonomy and exit-code mapping.
//!
//! Every failure a command can hit is classified into one of seven kinds,
//! and each kind is assigned one stable process exit code. The mapping is
//! total: an unclassified failure falls back to the general kind.

use vstd::prelude::*;
use vstd::string::StringExecFns;

verus! {

/// The seven failure kinds of the taxonomy. The kind alone decides the
/// exit code; any message carried by an error is display detail.
#[derive(Clone, Copy, Debug, PartialEq, Eq, Structural)]
pub enum ErrorKind {
    General,
    Validation,
    Authentication,
    RateLimit,
    NotFound,
    Network,
    Config,
}

/// A classified failure, carrying the human-readable detail shown to the
/// user. `RateLimit` has a fixed message; `NotFound` carries the path or
/// identifier that could not be resolved.
#[derive(Debug)]
pub enum CliError {
    /// General API or serialization error.
    General(String),
    /// Invalid arguments or configuration rejected by the remote API.
    Validation(String),
    /// Missing or invalid credential.
    Authentication(String),
    /// Remote throttling signal.
    RateLimit,
    /// Requested entity or path absent.
    NotFound(String),
    /// Transport failure, including timeout.
    Network(String),
    /// Local config file unreadable or unwritable.
    Config(String),
}

impl CliError {
    /// The kind of this error.
    pub open spec fn kind(self) -> ErrorKind {
        match self {
            CliError::General(_) => ErrorKind::General,
            CliError::Validation(_) => ErrorKind::Validation,
            CliError::Authentication(_) => ErrorKind::Authentication,
            CliError::RateLimit => ErrorKind::RateLimit,
            CliError::NotFound(_) => ErrorKind::NotFound,
            CliError::Network(_) => ErrorKind::Network,
            CliError::Config(_) => ErrorKind::Config,
        }
    }

    /// The full message shown for this error.
    pub open spec fn spec_message(self) -> Seq<char> {
        match self {
            CliError::General(m) => m@,
            CliError::Validation(m) => m@,
            CliError::Authentication(m) => m@,
            CliError::RateLimit => "rate limit exceeded"@,
            CliError::NotFound(m) => m@,
            CliError::Network(m) => m@,
            CliError::Config(m) => "config error: "@ + m@,
        }
    }

    /// The exit code of this error, a function of the kind alone.
    pub open spec fn spec_exit_code(self) -> u8 {
        exit_code_of_kind(self.kind())
    }

    /// Report the kind of this error.
    pub fn kind_of(&self) -> (k: ErrorKind)
        ensures
            k == self.kind(),
    {
        match self {
            CliError::General(_) => ErrorKind::General,
            CliError::Validation(_) => ErrorKind::Validation,
            CliError::Authentication(_) => ErrorKind::Authentication,
            CliError::RateLimit => ErrorKind::RateLimit,
            CliError::NotFound(_) => ErrorKind::NotFound,
            CliError::Network(_) => ErrorKind::Network,
            CliError::Config(_) => ErrorKind::Config,
        }
    }

    /// The exit code for this error.
    pub fn exit_code(&self) -> (code: u8)
        ensures
            code == self.spec_exit_code(),
    {
        match self {
            CliError::General(_) => 1,
            CliError::Validation(_) => 2,
            CliError::Config(_) => 2,
            CliError::Authentication(_) => 3,
            CliError::RateLimit => 4,
            CliError::NotFound(_) => 5,
            CliError::Network(_) => 6,
        }
    }

    /// The message shown to the user for this error.
    pub fn message(&self) -> (m: String)
        ensures
            m@ == self.spec_message(),
    {
        match self {
            CliError::General(m) => m.clone(),
            CliError::Validation(m) => m.clone(),
            CliError::Authentication(m) => m.clone(),
            CliError::RateLimit => String::from_str("rate limit exceeded"),
            CliError::NotFound(m) => m.clone(),
            CliError::Network(m) => m.clone(),
            CliError::Config(m) => {
                let mut out = String::from_str("config error: ");
                out.append(m.as_str());
                out
            },
        }
    }
}

/// The fixed exit code of each error kind.
pub open spec fn exit_code_of_kind(k: ErrorKind) -> u8 {
    match k {
        ErrorKind::General => 1,
        ErrorKind::Validation => 2,
        ErrorKind::Config => 2,
        ErrorKind::Authentication => 3,
        ErrorKind::RateLimit => 4,
        ErrorKind::NotFound => 5,
        ErrorKind::Network => 6,
    }
}

/// The declaration of the client library's error type, so that a failure
/// coming back from it can cross a signature in this crate.
#[verifier::external_type_specification]
#[verifier::external_body]
pub struct ExEarningsFeedError(earningsfeed::Error);

/// A client-library failure, carried over into plain values: one variant
/// per variant of `earningsfeed::Error`, with the timeout duration and the
/// transport and JSON errors already rendered to text.
#[derive(Debug)]
pub enum FeedError {
    /// HTTP 401: the API key is missing or invalid.
    Authentication,
    /// HTTP 429, with the reset time the server announced, if any.
    RateLimit { reset_at: Option<u64> },
    /// HTTP 404, with the path that was not found.
    NotFound { path: String },
    /// HTTP 400, with the server's validation message.
    Validation { message: String },
    /// Any other HTTP error status.
    Api { status: u16, message: String, code: Option<String> },
    /// The request timed out; `elapsed` is the rendered duration.
    Timeout { elapsed: String },
    /// Transport failure below HTTP.
    Http { detail: String },
    /// A response that could not be read as JSON.
    Json { detail: String },
    /// The client library refused its own configuration.
    Config { message: String },
}

impl FeedError {
    /// The taxonomy kind this failure is classified into.
    pub open spec fn classified_kind(self) -> ErrorKind {
        match self {
            FeedError::Authentication => ErrorKind::Authentication,
            FeedError::RateLimit { .. } => ErrorKind::RateLimit,
            FeedError::NotFound { .. } => ErrorKind::NotFound,
            FeedError::Validation { .. } => ErrorKind::Validation,
            FeedError::Api { .. } => ErrorKind::General,
            FeedError::Timeout { .. } => ErrorKind::Network,
            FeedError::Http { .. } => ErrorKind::Network,
            FeedError::Json { .. } => ErrorKind::General,
            FeedError::Config { .. } => ErrorKind::Config,
        }
    }

    /// The message the classified error shows for this failure.
    pub open spec fn classified_message(self) -> Seq<char> {
        match self {
            FeedError::Authentication => "invalid or missing API key"@,
            FeedError::RateLimit { .. } => "rate limit exceeded"@,
            FeedError::NotFound { path } => "not found: "@ + path@,
            FeedError::Validation { message } => message@,
            FeedError::Api { message, .. } => message@,
            FeedError::Timeout { elapsed } => "request timed out after "@ + elapsed@,
            FeedError::Http { detail } => detail@,
            FeedError::Json { detail } => detail@,
            FeedError::Config { message } => "config error: "@ + message@,
        }
    }
}

/// Relies on `earningsfeed::Error`: each variant is carried over one to
/// one; the timeout duration and the wrapped transport and JSON errors are
/// rendered to text on the way.
#[verifier::external_body]
fn feed_error_details(e: earningsfeed::Error) -> (r: FeedError) {
    match e {
        earningsfeed::Error::Authentication => FeedError::Authentication,
        earningsfeed::Error::RateLimit { reset_at } => FeedError::RateLimit { reset_at },
        earningsfeed::Error::NotFound { path } => FeedError::NotFound { path },
        earningsfeed::Error::Validation { message } => FeedError::Validation { message },
        earningsfeed::Error::Api { status, message, code } => FeedError::Api { status, message, code },
        earningsfeed::Error::Timeout(d) => FeedError::Timeout { elapsed: format!("{:?}", d) },
        earningsfeed::Error::Http(inner) => FeedError::Http { detail: inner.to_string() },
        earningsfeed::Error::Json(inner) => FeedError::Json { detail: inner.to_string() },
        earningsfeed::Error::Config(message) => FeedError::Config { message },
    }
}

/// Classify a client-library failure into the taxonomy: total,
/// deterministic, and order-independent over the variants.
pub fn classify(e: FeedError) -> (r: CliError)
    ensures
        r.kind() == e.classified_kind(),
        r.spec_message() == e.classified_message(),
{
    match e {
        FeedError::Authentication => {
            CliError::Authentication(String::from_str("invalid or missing API key"))
        },
        FeedError::RateLimit { .. } => CliError::RateLimit,
        FeedError::NotFound { path } => {
            let mut m = String::from_str("not found: ");
            m.append(path.as_str());
            CliError::NotFound(m)
        },
        FeedError::Validation { message } => CliError::Validation(message),
        FeedError::Api { message, .. } => CliError::General(message),
        FeedError::Timeout { elapsed } => {
            let mut m = String::from_str("request timed out after ");
            m.append(elapsed.as_str());
            CliError::Network(m)
        },
        FeedError::Http { detail } => CliError::Network(detail),
        FeedError::Json { detail } => CliError::General(detail),
        FeedError::Config { message } => CliError::Config(message),
    }
}

/// Classify a failure straight off the client library. Which kind comes
/// out depends on the failure itself; whatever it is, the mapped exit code
/// is a nonzero code of the table.
pub fn from_feed(e: earningsfeed::Error) -> (r: CliError)
    ensures
        1 <= r.spec_exit_code() <= 6,
{
    classify(feed_error_details(e))
}

/// Law: every error kind maps to exactly one exit code, and the mapping is
/// stable: two errors of the same kind get the same code, whatever detail
/// each carries.
pub proof fn lemma_exit_code_stable(e1: CliError, e2: CliError)
    requires
        e1.kind() == e2.kind(),
    ensures
        e1.spec_exit_code() == e2.spec_exit_code(),
{
}

/// Law: the mapping is total, and every classified failure ends the
/// process with a nonzero code between 1 and 6.
pub proof fn lemma_exit_code_total(e: CliError)
    ensures
        1 <= e.spec_exit_code() <= 6,
{
}

} // verus!
