//! The credential store: one optional API key in a per-user config file.
//!
//! The file is keyed by an application name handed in by the caller, so
//! the store can be exercised against a scratch location. The stored
//! record is a single table with at most an `api_key` entry; a missing
//! file is the same as an absent credential. Display always goes through
//! `mask`: the raw key is never echoed in full.

use vstd::prelude::*;
use vstd::string::StrSliceExecFns;
use vstd::string::StringExecFns;
use crate::error::{CliError, ErrorKind};

verus! {

/// The application name of the real per-user config file.
pub const APP_NAME: &'static str = "earningsfeed";

/// The configuration record: at most one credential at a time.
pub struct Config {
    /// API key for the EarningsFeed API, absent until a login stores one.
    pub api_key: Option<String>,
}

/// Relies on `confy::load`: reads the per-user config file of `app` as a
/// string-to-string table (a missing file yields an empty table) and
/// hands out the entry under `field`. What comes back depends on the
/// disk, so nothing is promised of it.
#[verifier::external_body]
fn confy_load_entry(app: &str, field: &str) -> (r: Result<Option<String>, String>) {
    match confy::load::<std::collections::BTreeMap<String, String>>(app, None) {
        Ok(mut table) => Ok(table.remove(field)),
        Err(e) => Err(e.to_string()),
    }
}

/// Relies on `confy::store`: writes the whole record back as a
/// string-to-string table with at most the entry under `field`,
/// overwriting any existing file.
#[verifier::external_body]
fn confy_store_entry(app: &str, field: &str, value: &Option<String>) -> (r: Result<(), String>) {
    let mut table = std::collections::BTreeMap::<String, String>::new();
    match value {
        Some(v) => {
            table.insert(field.to_string(), v.clone());
        },
        None => {},
    }
    match confy::store(app, None, table) {
        Ok(()) => Ok(()),
        Err(e) => Err(e.to_string()),
    }
}

/// Relies on `confy::get_configuration_file_path`: the platform path of
/// the config file of `app`, rendered to text.
#[verifier::external_body]
fn confy_file_path(app: &str) -> (r: Result<String, String>) {
    match confy::get_configuration_file_path(app, None) {
        Ok(p) => Ok(p.display().to_string()),
        Err(e) => Err(e.to_string()),
    }
}

impl core::default::Default for Config {
    /// The first-run record: no credential stored.
    fn default() -> (c: Self)
        ensures
            c.api_key is None,
    {
        Config { api_key: None }
    }
}

impl Config {
    /// Load the record from the config file of `app`. A missing file is
    /// an absent credential, not an error; a file that cannot be read or
    /// parsed is a config-kind failure.
    pub fn load(app: &str) -> (r: Result<Config, CliError>)
        ensures
            r matches Err(e) ==> e.kind() == ErrorKind::Config,
    {
        match confy_load_entry(app, "api_key") {
            Ok(key) => Ok(Config { api_key: key }),
            Err(detail) => Err(CliError::Config(detail)),
        }
    }

    /// Write the whole record to the config file of `app`, overwriting
    /// any existing file. A file that cannot be written is a config-kind
    /// failure.
    pub fn save(&self, app: &str) -> (r: Result<(), CliError>)
        ensures
            r matches Err(e) ==> e.kind() == ErrorKind::Config,
    {
        match confy_store_entry(app, "api_key", &self.api_key) {
            Ok(()) => Ok(()),
            Err(detail) => Err(CliError::Config(detail)),
        }
    }

    /// The path of the config file of `app`.
    pub fn path(app: &str) -> (r: Result<String, CliError>)
        ensures
            r matches Err(e) ==> e.kind() == ErrorKind::Config,
    {
        match confy_file_path(app) {
            Ok(p) => Ok(p),
            Err(detail) => Err(CliError::Config(detail)),
        }
    }

    /// The stored secret, or an authentication-kind failure telling the
    /// user to log in. Every resource operation passes through this gate
    /// before a request goes out.
    pub fn require_api_key(&self) -> (r: Result<&str, CliError>)
        ensures
            match self.api_key {
                Some(k) => r matches Ok(s) && s@ == k@,
                None => r matches Err(e) && e.kind() == ErrorKind::Authentication
                    && e.spec_message() == "not authenticated. Run 'earningsfeed auth login' first."@,
            },
    {
        match &self.api_key {
            Some(k) => Ok(k.as_str()),
            None => Err(
                CliError::Authentication(
                    String::from_str("not authenticated. Run 'earningsfeed auth login' first."),
                ),
            ),
        }
    }
}

/// The masked display form of a secret: a secret of more than 9
/// characters shows its first 6 and last 3 joined by an ellipsis; a
/// shorter one shows only the fixed placeholder, since a 6+3 split would
/// leak most or all of it.
pub open spec fn spec_mask(s: Seq<char>) -> Seq<char> {
    if s.len() > 9 {
        s.subrange(0, 6) + "..."@ + s.subrange(s.len() - 3, s.len() as int)
    } else {
        "***"@
    }
}

/// Mask a secret for display. One-way: the full secret can never be read
/// back off the result.
pub fn mask(secret: &str) -> (r: String)
    ensures
        r@ == spec_mask(secret@),
{
    let n = secret.unicode_len();
    if n > 9 {
        let first = secret.substring_char(0, 6);
        let last = secret.substring_char(n - 3, n);
        let mut out = String::from_str(first);
        out.append("...");
        out.append(last);
        proof {
            assert(out@ =~= spec_mask(secret@));
        }
        out
    } else {
        String::from_str("***")
    }
}

/// Law: masking is a one-way display transform: all short secrets share
/// one masked form, so a masked value cannot identify, let alone restore,
/// the secret behind it.
pub proof fn lemma_mask_not_injective(s1: Seq<char>, s2: Seq<char>)
    requires
        s1.len() <= 9,
        s2.len() <= 9,
    ensures
        spec_mask(s1) == spec_mask(s2),
{
}

} // verus!
