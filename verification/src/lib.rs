//! Account bookkeeping for Kiro / AWS CodeWhisperer logins: the rules that
//! decide how stored accounts, local token files, JWT claims and usage
//! responses are read, merged and written back.

pub mod text;
pub mod models;
pub mod json;
pub mod timefmt;
pub mod api;
pub mod claims;
pub mod store;
pub mod local;
pub mod sync;
pub mod overage;
