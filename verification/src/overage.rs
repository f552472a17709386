//! Enabling overage billing for a stored account: which accounts are passed
//! by, the token and profile the request is sent with, and the answers.

use vstd::prelude::*;
use crate::api::{
    fixed_arn_of, fixed_profile_arn, refresh_plan, refresh_plan_matches, RefreshError, RefreshRequest,
    Tokens, UsageInfo,
};
use crate::models::{str_lower, str_upper, to_lower, to_upper, Account};
use crate::text::{chars_contain, chars_of, text_concat, has_sub, text_eq};
use crate::timefmt::{expired_at, is_expired_at, local_now, stamp_in_supported_years};

verus! {

/// The answer when the asked account is not stored.
pub const ACCOUNT_NOT_FOUND: &'static str = "账号不存在";

/// What enabling overage asks for next.
pub enum OverageAction {
    /// The answer to give.
    Reply(Result<String, String>),
    /// Send this refresh; hand the new tokens, or the error's text, to
    /// `overage_on_refresh`.
    SendRefresh(RefreshRequest),
    /// Store these tokens for the account (a failure to store is ignored),
    /// then call `overage_with_token` with the new access token.
    StoreTokens(Tokens),
    /// List the profiles with this access token; hand the first profile's arn
    /// (`None` when the call failed or gave none) to `overage_on_profiles`.
    ListProfiles(String),
    /// Ask for overage on this profile; hand the outcome (an error's text) to
    /// `overage_on_enabled`.
    EnableOverage { access_token: String, profile_arn: String },
    /// Store these usage values for the account (a failure to store is
    /// ignored), then call `overage_done`.
    StoreUsage(UsageInfo),
}

/// Whether an uppercased overage status says overage is on.
pub fn status_says_enabled(upper: &str) -> (r: bool)
    ensures
        r == (upper@ == "ENABLED"@),
{
    text_eq(upper, "ENABLED")
}

/// A lowercased plan name is a free plan: not empty, mentions `free`, and
/// mentions neither `pro` nor `power`.
pub open spec fn free_plan_text(l: Seq<char>) -> bool {
    l.len() > 0 && has_sub(l, "free"@) && !has_sub(l, "pro"@) && !has_sub(l, "power"@)
}

/// Whether a lowercased plan name is a free plan.
pub fn plan_is_free(lower: &str) -> (r: bool)
    ensures
        r == free_plan_text(lower@),
{
    let lv = chars_of(lower);
    lv.len() > 0 && chars_contain(&lv, &chars_of("free")) && !chars_contain(&lv, &chars_of("pro"))
        && !chars_contain(&lv, &chars_of("power"))
}

/// The account's overage is already on: its status, uppercased, is
/// `ENABLED`.
pub open spec fn overage_already_on(a: Account) -> bool {
    str_upper(a.overage_status@) == "ENABLED"@
}

/// The account is on a free plan: its plan, lowercased, is not empty,
/// mentions `free`, and mentions neither `pro` nor `power`.
pub open spec fn on_free_plan(a: Account) -> bool {
    free_plan_text(str_lower(a.subscription@))
}

/// The answer is this one.
pub open spec fn replies(s: OverageAction, ok: bool, text: Seq<char>) -> bool {
    if ok {
        s matches OverageAction::Reply(Ok(m)) && m@ == text
    } else {
        s matches OverageAction::Reply(Err(m)) && m@ == text
    }
}

/// An error about the account: its e-mail, `: `, and the error's text.
pub open spec fn account_error(a: Account, err: Seq<char>) -> Seq<char> {
    a.email@ + ": "@ + err
}

/// With a usable access token: overage is asked for on the account's own
/// profile, else its provider's; else the profiles are listed first.
pub open spec fn token_stage(a: Account, access: Seq<char>, s: OverageAction) -> bool {
    if a.profile_arn@.len() > 0 {
        s matches OverageAction::EnableOverage { access_token, profile_arn }
            && access_token@ == access && profile_arn@ == a.profile_arn@
    } else if fixed_arn_of(a.provider@).len() > 0 {
        s matches OverageAction::EnableOverage { access_token, profile_arn }
            && access_token@ == access && profile_arn@ == fixed_arn_of(a.provider@)
    } else {
        s matches OverageAction::ListProfiles(t) && t@ == access
    }
}

/// After the pass-by checks, with `expired` telling whether the login has
/// expired: an expired login is refreshed first (or the refusal to build the
/// request is the answer); a valid one goes on with its access token.
pub open spec fn after_checks(a: Account, expired: bool, s: OverageAction) -> bool {
    if expired {
        match s {
            OverageAction::SendRefresh(req) => refresh_plan_matches(a, Ok(req)),
            OverageAction::Reply(Err(m)) => exists|e: RefreshError| #[trigger] refresh_plan_matches(a, Err(e))
                && m@ == account_error(a, e.message_of()),
            _ => false,
        }
    } else {
        token_stage(a, a.access_token@, s)
    }
}

/// How enabling overage starts for an account: it is passed by when overage
/// is already on, or when it is on a free plan; otherwise its login is
/// checked against the local clock reading `now`.
pub open spec fn overage_begin_matches(a: Account, now: (i64, u32), s: OverageAction) -> bool {
    if overage_already_on(a) {
        replies(s, true, a.email@ + " 超额已开启(跳过)"@)
    } else if on_free_plan(a) {
        replies(s, true, a.email@ + " Free订阅不支持超额(跳过)"@)
    } else {
        after_checks(a, expired_at(a.expires_at@, now), s)
    }
}

fn account_error_text(a: &Account, err: &str) -> (r: String)
    ensures
        r@ == account_error(*a, err@),
{
    let head = text_concat(a.email.as_str(), ": ");
    text_concat(head.as_str(), err)
}

/// Continues with a usable access token.
pub fn overage_with_token(a: &Account, access: &str) -> (s: OverageAction)
    ensures
        token_stage(*a, access@, s),
{
    if !a.profile_arn.as_str().is_empty() {
        return OverageAction::EnableOverage { access_token: access.to_string(), profile_arn: a.profile_arn.clone() };
    }
    let fixed = fixed_profile_arn(a.provider.as_str());
    if !fixed.is_empty() {
        OverageAction::EnableOverage { access_token: access.to_string(), profile_arn: fixed.to_string() }
    } else {
        OverageAction::ListProfiles(access.to_string())
    }
}

/// Starts enabling overage for a stored account by the local clock, whose
/// reading is not known here.
pub fn overage_begin(a: &Account) -> (s: OverageAction)
    ensures
        exists|now: (i64, u32)| stamp_in_supported_years(now) && #[trigger] overage_begin_matches(*a, now, s),
{
    let now = local_now();
    overage_begin_at(a, now)
}

/// Starts enabling overage for a stored account at the local clock reading
/// `now`.
pub fn overage_begin_at(a: &Account, now: (i64, u32)) -> (s: OverageAction)
    requires
        stamp_in_supported_years(now),
    ensures
        overage_begin_matches(*a, now, s),
{
    let status = to_upper(a.overage_status.as_str());
    if status_says_enabled(status.as_str()) {
        return OverageAction::Reply(Ok(text_concat(a.email.as_str(), " 超额已开启(跳过)")));
    }
    let lower = to_lower(a.subscription.as_str());
    if plan_is_free(lower.as_str()) {
        return OverageAction::Reply(Ok(text_concat(a.email.as_str(), " Free订阅不支持超额(跳过)")));
    }
    if is_expired_at(a.expires_at.as_str(), now) {
        match refresh_plan(a) {
            Ok(req) => OverageAction::SendRefresh(req),
            Err(e) => {
                let m = e.message();
                OverageAction::Reply(Err(account_error_text(a, m.as_str())))
            },
        }
    } else {
        overage_with_token(a, a.access_token.as_str())
    }
}

/// Continues once the refresh has been answered: new tokens are stored; an
/// error is the answer.
pub fn overage_on_refresh(a: &Account, r: Result<Tokens, String>) -> (s: OverageAction)
    ensures
        match r {
            Ok(t) => s matches OverageAction::StoreTokens(t2) && t2 == t,
            Err(e) => replies(s, false, account_error(*a, e@)),
        },
{
    match r {
        Ok(t) => OverageAction::StoreTokens(t),
        Err(e) => OverageAction::Reply(Err(account_error_text(a, e.as_str()))),
    }
}

/// Continues once the profiles have been listed: without a profile there is
/// nothing to enable overage on.
pub fn overage_on_profiles(a: &Account, access: &str, first_arn: Option<String>) -> (s: OverageAction)
    ensures
        match first_arn {
            Some(p) => if p@.len() > 0 {
                s matches OverageAction::EnableOverage { access_token, profile_arn }
                    && access_token@ == access@ && profile_arn@ == p@
            } else {
                replies(s, false, account_error(*a, "无法获取 profileArn"@))
            },
            None => replies(s, false, account_error(*a, "无法获取 profileArn"@)),
        },
{
    match first_arn {
        Some(p) => if !p.as_str().is_empty() {
            OverageAction::EnableOverage { access_token: access.to_string(), profile_arn: p }
        } else {
            OverageAction::Reply(Err(account_error_text(a, "无法获取 profileArn")))
        },
        None => OverageAction::Reply(Err(account_error_text(a, "无法获取 profileArn"))),
    }
}

/// Continues once overage has been asked for: on success the account's
/// usage is stored again with the status `ENABLED`; an error is the answer.
pub fn overage_on_enabled(a: &Account, r: Result<(), String>) -> (s: OverageAction)
    ensures
        match r {
            Ok(_) => s matches OverageAction::StoreUsage(u) && u.overage_status@ == "ENABLED"@
                && u.usage_limit == a.usage_limit && u.current_usage == a.current_usage
                && u.overage_cap == a.overage_cap && u.current_overages == a.current_overages
                && u.overage_charges_bits == a.overage_charges_bits && u.subscription@ == a.subscription@
                && u.email@ == a.email@,
            Err(e) => replies(s, false, account_error(*a, e@)),
        },
{
    match r {
        Ok(_) => OverageAction::StoreUsage(UsageInfo {
            usage_limit: a.usage_limit,
            current_usage: a.current_usage,
            overage_cap: a.overage_cap,
            current_overages: a.current_overages,
            overage_status: "ENABLED".to_string(),
            overage_charges_bits: a.overage_charges_bits,
            subscription: a.subscription.clone(),
            email: a.email.clone(),
        }),
        Err(e) => OverageAction::Reply(Err(account_error_text(a, e.as_str()))),
    }
}

/// The answer once overage is on and stored.
pub fn overage_done(a: &Account) -> (s: OverageAction)
    ensures
        replies(s, true, a.email@ + " 超额已开启"@),
{
    OverageAction::Reply(Ok(text_concat(a.email.as_str(), " 超额已开启")))
}

/// An account whose overage is already on is passed by, and never asked
/// for overage again, whatever the clock says.
pub proof fn overage_skips_enabled(a: Account, now: (i64, u32), s: OverageAction)
    requires
        overage_already_on(a),
        overage_begin_matches(a, now, s),
    ensures
        s matches OverageAction::Reply(Ok(_)),
{
}

/// An account on a free plan is passed by, and never asked for overage.
pub proof fn overage_skips_free_plan(a: Account, now: (i64, u32), s: OverageAction)
    requires
        on_free_plan(a),
        overage_begin_matches(a, now, s),
    ensures
        s matches OverageAction::Reply(Ok(_)),
{
}

/// Whenever overage is asked for straight from a usable token, it is asked
/// for on a non-empty profile with that token.
pub proof fn overage_asks_with_a_profile(a: Account, access: Seq<char>, s: OverageAction)
    requires
        token_stage(a, access, s),
    ensures
        s matches OverageAction::EnableOverage { access_token, profile_arn } ==> profile_arn@.len() > 0
            && access_token@ == access,
{
}

/// A login that has not expired is used as it is: it is never refreshed
/// first.
pub proof fn overage_keeps_valid_login(a: Account, now: (i64, u32), s: OverageAction)
    requires
        !expired_at(a.expires_at@, now),
        overage_begin_matches(a, now, s),
    ensures
        !(s is SendRefresh),
{
}


/// The stored profile, when there is one, is the one overage is asked for;
/// the provider's shared profile only stands in when there is none.
pub proof fn overage_prefers_stored_profile(a: Account, access: Seq<char>, s: OverageAction)
    requires
        token_stage(a, access, s),
    ensures
        a.profile_arn@.len() > 0 ==> (s matches OverageAction::EnableOverage { profile_arn, .. }
            && profile_arn@ == a.profile_arn@),
        a.profile_arn@.len() == 0 && fixed_arn_of(a.provider@).len() > 0 ==> (s matches
            OverageAction::EnableOverage { profile_arn, .. } && profile_arn@ == fixed_arn_of(a.provider@)),
        s is ListProfiles ==> a.profile_arn@.len() == 0 && fixed_arn_of(a.provider@).len() == 0,
{
}

/// An account is passed by as already enabled exactly when its overage
/// status, uppercased, is `ENABLED`. An account whose status says otherwise
/// is passed by as on a free plan exactly when its plan, lowercased, is
/// non-empty, mentions `free` and mentions neither `pro` nor `power`;
/// otherwise it is never passed by with a success answer: it goes on to a
/// refresh, a profile listing or the overage request, or fails.
pub proof fn overage_passed_by_only_when_enabled(a: Account, now: (i64, u32), s: OverageAction)
    requires
        overage_begin_matches(a, now, s),
    ensures
        (s matches OverageAction::Reply(Ok(m)) && m@ == a.email@ + " 超额已开启(跳过)"@)
            <==> str_upper(a.overage_status@) == "ENABLED"@,
        str_upper(a.overage_status@) != "ENABLED"@ && !({
            let l = str_lower(a.subscription@);
            l.len() > 0 && has_sub(l, "free"@) && !has_sub(l, "pro"@) && !has_sub(l, "power"@)
        }) ==> !(s matches OverageAction::Reply(Ok(_))),
        str_upper(a.overage_status@) != "ENABLED"@ && ({
            let l = str_lower(a.subscription@);
            l.len() > 0 && has_sub(l, "free"@) && !has_sub(l, "pro"@) && !has_sub(l, "power"@)
        }) ==> (s matches OverageAction::Reply(Ok(m)) && m@ == a.email@ + " Free订阅不支持超额(跳过)"@),
{
    reveal_strlit(" 超额已开启(跳过)");
    reveal_strlit(" Free订阅不支持超额(跳过)");
    assert((a.email@ + " 超额已开启(跳过)"@).len() != (a.email@ + " Free订阅不支持超额(跳过)"@).len());
}

} // verus!
