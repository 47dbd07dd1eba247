//! One module per command: authentication, and the four read-only
//! resource operations, each of which turns its parsed action into a
//! typed request.

pub mod auth;
pub mod companies;
pub mod filings;
pub mod insider;
pub mod institutional;
