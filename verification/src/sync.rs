//! Refreshing stored accounts: one account's refresh-and-requery, the health
//! check of expired logins, and the lines and summaries they report.

use vstd::prelude::*;
use crate::api::{refresh_plan, refresh_plan_matches, usage_profile, usage_profile_of, RefreshError, RefreshRequest, Tokens, UsageInfo};
use crate::models::Account;
use crate::text::{text_concat, decimal, decimal_of_usize};
use crate::timefmt::{expired_at, is_expired_at, local_now, stamp_in_supported_years};

verus! {

/// The line reporting a successful refresh of the account with `email`.
pub open spec fn ok_line_of(email: Seq<char>) -> Seq<char> {
    "✓ "@ + email
}

/// The line reporting a failed refresh, with the error's text.
pub open spec fn fail_line_of(email: Seq<char>, err: Seq<char>) -> Seq<char> {
    "✗ "@ + email + ": "@ + err
}

/// The line reporting a successful refresh.
pub fn ok_line(email: &str) -> (r: String)
    ensures
        r@ == ok_line_of(email@),
{
    text_concat("✓ ", email)
}

/// The line reporting a failed refresh.
pub fn fail_line(email: &str, err: &str) -> (r: String)
    ensures
        r@ == fail_line_of(email@, err@),
{
    let head = text_concat("✗ ", email);
    let mid = text_concat(head.as_str(), ": ");
    text_concat(mid.as_str(), err)
}

/// What refreshing one stored account asks for next.
pub enum SyncAction {
    /// Send this refresh; hand the new tokens, or the error's text, to
    /// `sync_on_refresh`.
    SendRefresh(RefreshRequest),
    /// Store these tokens for the account (a failure to store is ignored),
    /// then call `sync_after_tokens_stored`.
    StoreTokens(Tokens),
    /// Query the usage of this profile, asking for the e-mail too when
    /// `email_required`; hand the answer (`None` when the query failed) to
    /// `sync_on_usage`.
    QueryUsage { access_token: String, profile_arn: String, email_required: bool },
    /// Store this usage for the account (a failure to store is ignored), then
    /// call `sync_after_usage_stored`.
    StoreUsage(UsageInfo),
    /// The refresh is over: whether it succeeded, and the line reporting it.
    Finished { ok: bool, line: String },
}

/// The refresh of `a` is over with this outcome.
pub open spec fn finished_with(s: SyncAction, ok: bool, line: Seq<char>) -> bool {
    s matches SyncAction::Finished { ok: o, line: l } && o == ok && l@ == line
}

/// Starts refreshing a stored account: the request its login method needs,
/// or a failure line giving why none can be sent.
pub fn sync_start(a: &Account) -> (s: SyncAction)
    ensures
        match s {
            SyncAction::SendRefresh(req) => refresh_plan_matches(*a, Ok(req)),
            SyncAction::Finished { ok, line } => !ok && exists|e: RefreshError| #[trigger] refresh_plan_matches(*a, Err(e))
                && line@ == fail_line_of(a.email@, e.message_of()),
            _ => false,
        },
{
    match refresh_plan(a) {
        Ok(req) => SyncAction::SendRefresh(req),
        Err(e) => {
            let m = e.message();
            SyncAction::Finished { ok: false, line: fail_line(a.email.as_str(), m.as_str()) }
        },
    }
}

/// Continues once the refresh has been answered: new tokens are stored; an
/// error ends the refresh with a failure line.
pub fn sync_on_refresh(a: &Account, r: Result<Tokens, String>) -> (s: SyncAction)
    ensures
        match r {
            Ok(t) => s matches SyncAction::StoreTokens(t2) && t2 == t,
            Err(e) => finished_with(s, false, fail_line_of(a.email@, e@)),
        },
{
    match r {
        Ok(t) => SyncAction::StoreTokens(t),
        Err(e) => SyncAction::Finished { ok: false, line: fail_line(a.email.as_str(), e.as_str()) },
    }
}

/// Continues once the new tokens are stored: the usage is queried with the
/// new access token when the account has a profile to query (its own, else
/// its provider's); otherwise the refresh has succeeded.
pub fn sync_after_tokens_stored(a: &Account, t: &Tokens) -> (s: SyncAction)
    ensures
        match usage_profile_of(*a) {
            Some(p) => s matches SyncAction::QueryUsage { access_token, profile_arn, email_required }
                && access_token@ == t.access_token@ && profile_arn@ == p && !email_required,
            None => finished_with(s, true, ok_line_of(a.email@)),
        },
{
    match usage_profile(a) {
        Some(p) => SyncAction::QueryUsage {
            access_token: t.access_token.clone(),
            profile_arn: p,
            email_required: false,
        },
        None => SyncAction::Finished { ok: true, line: ok_line(a.email.as_str()) },
    }
}

/// Continues once the usage has been queried: an answer is stored; a failed
/// query still counts as a successful refresh.
pub fn sync_on_usage(a: &Account, u: Option<UsageInfo>) -> (s: SyncAction)
    ensures
        match u {
            Some(x) => s matches SyncAction::StoreUsage(y) && y == x,
            None => finished_with(s, true, ok_line_of(a.email@)),
        },
{
    match u {
        Some(x) => SyncAction::StoreUsage(x),
        None => SyncAction::Finished { ok: true, line: ok_line(a.email.as_str()) },
    }
}

/// Ends the refresh once the usage is stored: it has succeeded.
pub fn sync_after_usage_stored(a: &Account) -> (s: SyncAction)
    ensures
        finished_with(s, true, ok_line_of(a.email@)),
{
    SyncAction::Finished { ok: true, line: ok_line(a.email.as_str()) }
}

/// Whether the automatic refresh of all accounts passes this one by: it has
/// no refresh token.
pub fn auto_refresh_skips(a: &Account) -> (r: bool)
    ensures
        r == (a.refresh_token@.len() == 0),
{
    a.refresh_token.as_str().is_empty()
}

/// The summary of an automatic refresh: how many of all accounts refreshed.
pub fn auto_refresh_summary(ok: usize, total: usize) -> (r: String)
    ensures
        r@ == "自动刷新: "@ + decimal(ok as int) + "/"@ + decimal(total as int),
{
    let head = text_concat("自动刷新: ", decimal_of_usize(ok).as_str());
    let mid = text_concat(head.as_str(), "/");
    text_concat(mid.as_str(), decimal_of_usize(total).as_str())
}

/// What the health check asks for next for one account.
pub enum HealthAction {
    /// The login is still valid.
    Valid,
    /// Send this refresh; hand the new tokens, or the error's text, to
    /// `health_on_refresh`.
    SendRefresh(RefreshRequest),
    /// Store these tokens for the account (a failure to store is ignored): the
    /// login was refreshed.
    StoreTokens(Tokens),
    /// The login could not be refreshed.
    Failed,
}

/// How the health check of one account starts when the local clock reads
/// `now`: a login that has not expired is valid; an expired one is refreshed,
/// or failed when no request can be made.
pub open spec fn health_start_matches(a: Account, now: (i64, u32), s: HealthAction) -> bool {
    if !expired_at(a.expires_at@, now) {
        s is Valid
    } else {
        match s {
            HealthAction::SendRefresh(req) => refresh_plan_matches(a, Ok(req)),
            HealthAction::Failed => exists|e: RefreshError| #[trigger] refresh_plan_matches(a, Err(e)),
            _ => false,
        }
    }
}

/// Starts the health check of one account at the local clock reading `now`.
pub fn health_start_at(a: &Account, now: (i64, u32)) -> (s: HealthAction)
    requires
        stamp_in_supported_years(now),
    ensures
        health_start_matches(*a, now, s),
{
    if !is_expired_at(a.expires_at.as_str(), now) {
        return HealthAction::Valid;
    }
    match refresh_plan(a) {
        Ok(req) => HealthAction::SendRefresh(req),
        Err(_) => HealthAction::Failed,
    }
}

/// Starts the health check of one account by the local clock, whose reading
/// is not known here.
pub fn health_start(a: &Account) -> (s: HealthAction)
    ensures
        exists|now: (i64, u32)| stamp_in_supported_years(now) && #[trigger] health_start_matches(*a, now, s),
{
    let now = local_now();
    health_start_at(a, now)
}

/// Continues the health check once the refresh has been answered.
pub fn health_on_refresh(r: Result<Tokens, String>) -> (s: HealthAction)
    ensures
        match r {
            Ok(t) => s matches HealthAction::StoreTokens(t2) && t2 == t,
            Err(_) => s is Failed,
        },
{
    match r {
        Ok(t) => HealthAction::StoreTokens(t),
        Err(_) => HealthAction::Failed,
    }
}

/// The summary of a health check: how many logins were valid, refreshed and
/// failed.
pub fn health_summary(valid: usize, refreshed: usize, failed: usize) -> (r: String)
    ensures
        r@ == "有效 "@ + decimal(valid as int) + ", 已刷新 "@ + decimal(refreshed as int) + ", 无效 "@
            + decimal(failed as int),
{
    let s1 = text_concat("有效 ", decimal_of_usize(valid).as_str());
    let s2 = text_concat(s1.as_str(), ", 已刷新 ");
    let s3 = text_concat(s2.as_str(), decimal_of_usize(refreshed).as_str());
    let s4 = text_concat(s3.as_str(), ", 无效 ");
    text_concat(s4.as_str(), decimal_of_usize(failed).as_str())
}

} // verus!
