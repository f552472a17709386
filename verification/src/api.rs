//! The Kiro / AWS endpoints the accounts are refreshed and queried against:
//! which request a refresh needs, the addresses of the calls, and how their
//! answers are read.

use vstd::prelude::*;
use crate::json::{
    as_f64_bits_spec, as_i64_spec, as_str_spec, first_spec, index_spec, json_f64_bits_at,
    json_first_at, json_get, json_i64_at, json_str_at, JsonValue,
};
use crate::models::Account;
use crate::text::{text_concat, text_eq};
use vstd::utf8::encode_utf8;

verus! {

/// The Kiro desktop sign-in service.
pub const KIRO_AUTH: &'static str = "https://prod.us-east-1.auth.desktop.kiro.dev";
/// The CodeWhisperer service.
pub const CODEWHISPERER: &'static str = "https://q.us-east-1.amazonaws.com";

/// The profile every account of a provider shares, or empty when the
/// provider has none.
pub open spec fn fixed_arn_of(provider: Seq<char>) -> Seq<char> {
    if provider == "BuilderId"@ {
        "arn:aws:codewhisperer:us-east-1:638616132270:profile/AAAACCCCXXXX"@
    } else if provider == "Github"@ || provider == "Google"@ {
        "arn:aws:codewhisperer:us-east-1:699475941385:profile/EHGA3GRVQMUK"@
    } else {
        ""@
    }
}

/// The profile shared by every account of `provider`, or `""`.
pub fn fixed_profile_arn(provider: &str) -> (r: &'static str)
    ensures
        r@ == fixed_arn_of(provider@),
{
    if text_eq(provider, "BuilderId") {
        "arn:aws:codewhisperer:us-east-1:638616132270:profile/AAAACCCCXXXX"
    } else if text_eq(provider, "Github") || text_eq(provider, "Google") {
        "arn:aws:codewhisperer:us-east-1:699475941385:profile/EHGA3GRVQMUK"
    } else {
        ""
    }
}

/// The address that refreshes a social (Github / Google) login.
pub fn social_refresh_url() -> (r: String)
    ensures
        r@ == KIRO_AUTH@ + "/refreshToken"@,
{
    text_concat(KIRO_AUTH, "/refreshToken")
}

/// The address that refreshes an IAM Identity Center login in `region`.
pub fn idc_refresh_url(region: &str) -> (r: String)
    ensures
        r@ == "https://oidc."@ + region@ + ".amazonaws.com/token"@,
{
    let head = text_concat("https://oidc.", region);
    text_concat(head.as_str(), ".amazonaws.com/token")
}

/// The address that lists the profiles of a login.
pub fn list_profiles_url() -> (r: String)
    ensures
        r@ == CODEWHISPERER@ + "/ListAvailableProfiles"@,
{
    text_concat(CODEWHISPERER, "/ListAvailableProfiles")
}

/// The address that sets a user preference (here: enabling overage).
pub fn set_preference_url() -> (r: String)
    ensures
        r@ == CODEWHISPERER@ + "/setUserPreference"@,
{
    text_concat(CODEWHISPERER, "/setUserPreference")
}

/// A byte that form encoding writes as itself.
pub open spec fn form_unchanged(b: u8) -> bool {
    b == 42 || b == 45 || b == 46 || (48 <= b <= 57) || (65 <= b <= 90) || b == 95 || (97 <= b <= 122)
}

/// An uppercase hexadecimal digit.
pub open spec fn hex_upper(d: int) -> char {
    if d < 10 { ((48 + d) as u8) as char } else { ((55 + d) as u8) as char }
}

/// How form encoding writes one byte: letters, digits and `*-._` as
/// themselves, a space as `+`, anything else as `%XY`.
pub open spec fn form_byte(b: u8) -> Seq<char> {
    if form_unchanged(b) {
        seq![b as char]
    } else if b == 32 {
        seq!['+']
    } else {
        seq!['%', hex_upper(b as int / 16), hex_upper(b as int % 16)]
    }
}

/// The `application/x-www-form-urlencoded` text of a byte string.
pub open spec fn form_encoded(bytes: Seq<u8>) -> Seq<char>
    decreases bytes.len(),
{
    if bytes.len() == 0 {
        Seq::empty()
    } else {
        form_byte(bytes[0]) + form_encoded(bytes.drop_first())
    }
}

/// Trusted: `url::form_urlencoded::byte_serialize`, collected into a string;
/// its source writes each byte as `form_byte` says.
#[verifier::external_body]
pub(crate) fn form_urlencode(bytes: &[u8]) -> (r: String)
    ensures
        r@ == form_encoded(bytes@),
{
    url::form_urlencoded::byte_serialize(bytes).collect::<String>()
}

/// The address that queries the usage of the profile `profile_arn` (its
/// UTF-8 bytes form-encoded), asking for the
/// account's e-mail too when `email_required`.
pub open spec fn usage_url_of(profile_arn: Seq<char>, email_required: bool) -> Seq<char> {
    CODEWHISPERER@ + "/getUsageLimits?profileArn="@ + form_encoded(encode_utf8(profile_arn))
        + if email_required { "&isEmailRequired=true"@ } else { ""@ }
}

/// The address that queries the usage of `profile_arn`.
pub fn usage_url(profile_arn: &str, email_required: bool) -> (r: String)
    ensures
        r@ == usage_url_of(profile_arn@, email_required),
{
    let q = if email_required { "&isEmailRequired=true" } else { "" };
    let head = text_concat(CODEWHISPERER, "/getUsageLimits?profileArn=");
    let arn = form_urlencode(profile_arn.as_bytes());
    let with_arn = text_concat(head.as_str(), arn.as_str());
    text_concat(with_arn.as_str(), q)
}

/// What a token refresh sends, by the account's login method.
pub enum RefreshRequest {
    /// A social login: only the refresh token.
    Social { refresh_token: String },
    /// An IAM Identity Center login: the registered client and its region.
    Idc { client_id: String, client_secret: String, refresh_token: String, region: String },
}

/// Why a refresh cannot be sent.
pub enum RefreshError {
    /// An Identity Center login without its registered client id or secret.
    MissingClientCredentials,
    /// A login method this library does not know; it holds the method.
    UnknownAuthMethod(String),
}

impl RefreshError {
    /// The message shown for the error.
    pub open spec fn message_of(self) -> Seq<char> {
        match self {
            RefreshError::MissingClientCredentials => "缺少 clientId/clientSecret"@,
            RefreshError::UnknownAuthMethod(m) => "未知认证方式: "@ + m@,
        }
    }

    /// The message shown for the error.
    pub fn message(&self) -> (r: String)
        ensures
            r@ == self.message_of(),
    {
        match self {
            RefreshError::MissingClientCredentials => "缺少 clientId/clientSecret".to_string(),
            RefreshError::UnknownAuthMethod(m) => text_concat("未知认证方式: ", m.as_str()),
        }
    }
}

/// The refresh an account needs: social logins send their refresh token;
/// Identity Center logins need a client id and secret and use their region,
/// `us-east-1` when none is stored; any other method is refused.
pub open spec fn refresh_plan_matches(a: Account, r: Result<RefreshRequest, RefreshError>) -> bool {
    if a.auth_method@ == "social"@ {
        r matches Ok(RefreshRequest::Social { refresh_token }) && refresh_token@ == a.refresh_token@
    } else if a.auth_method@ == "IdC"@ {
        if a.client_id@.len() == 0 || a.client_secret@.len() == 0 {
            r matches Err(RefreshError::MissingClientCredentials)
        } else {
            r matches Ok(RefreshRequest::Idc { client_id, client_secret, refresh_token, region })
                && client_id@ == a.client_id@ && client_secret@ == a.client_secret@
                && refresh_token@ == a.refresh_token@
                && region@ == if a.region@.len() == 0 { "us-east-1"@ } else { a.region@ }
        }
    } else {
        r matches Err(RefreshError::UnknownAuthMethod(m)) && m@ == a.auth_method@
    }
}

/// The refresh request for an account, or why none can be sent.
pub fn refresh_plan(a: &Account) -> (r: Result<RefreshRequest, RefreshError>)
    ensures
        refresh_plan_matches(*a, r),
{
    if text_eq(a.auth_method.as_str(), "social") {
        Ok(RefreshRequest::Social { refresh_token: a.refresh_token.clone() })
    } else if text_eq(a.auth_method.as_str(), "IdC") {
        if a.client_id.as_str().is_empty() || a.client_secret.as_str().is_empty() {
            return Err(RefreshError::MissingClientCredentials);
        }
        let region = if a.region.as_str().is_empty() { "us-east-1".to_string() } else { a.region.clone() };
        Ok(RefreshRequest::Idc {
            client_id: a.client_id.clone(),
            client_secret: a.client_secret.clone(),
            refresh_token: a.refresh_token.clone(),
            region,
        })
    } else {
        Err(RefreshError::UnknownAuthMethod(a.auth_method.clone()))
    }
}

/// The `arn` of the first listed profile: `profiles[0].arn` when that is a
/// string.
pub open spec fn first_profile_arn_of(v: JsonValue) -> Option<Seq<char>> {
    match first_spec(index_spec(v, "profiles"@)) {
        Some(p) => as_str_spec(index_spec(p, "arn"@)),
        None => None,
    }
}

/// The `arn` of the first profile in a profile-list answer.
pub fn first_profile_arn(v: &JsonValue) -> (r: Option<String>)
    ensures
        match r {
            Some(s) => first_profile_arn_of(*v) == Some(s@),
            None => first_profile_arn_of(*v) is None,
        },
{
    match json_first_at(v, "profiles") {
        Some(p) => json_str_at(p, "arn"),
        None => None,
    }
}

/// What a usage query reports of an account.
///
/// `overage_charges_bits` is the IEEE-754 bit pattern of the charges.
pub struct UsageInfo {
    pub usage_limit: i64,
    pub current_usage: i64,
    pub overage_cap: i64,
    pub current_overages: i64,
    pub overage_status: String,
    pub overage_charges_bits: u64,
    pub subscription: String,
    pub email: String,
}

/// `b[k1]` as an integer, else `b[k2]`, else 0.
pub open spec fn int_field(b: JsonValue, k1: Seq<char>, k2: Seq<char>) -> i64 {
    match as_i64_spec(index_spec(b, k1)) {
        Some(x) => x,
        None => match as_i64_spec(index_spec(b, k2)) {
            Some(x) => x,
            None => 0,
        },
    }
}

/// A string, or the empty one.
pub open spec fn text_or_empty(s: Option<Seq<char>>) -> Seq<char> {
    match s {
        Some(x) => x,
        None => Seq::empty(),
    }
}

/// The first usage breakdown of a usage answer, or `Null`.
pub open spec fn breakdown_of(v: JsonValue) -> JsonValue {
    match first_spec(index_spec(v, "usageBreakdownList"@)) {
        Some(b) => b,
        None => JsonValue::Null,
    }
}

/// How a usage answer is read: counts come from the first usage breakdown
/// (each from its plain key, else its `...WithPrecision` key, else 0), the
/// overage status from `overageConfiguration`, the plan from
/// `subscriptionInfo` (`subscriptionTitle`, else `type`), and the e-mail from
/// `userInfo`.
pub open spec fn usage_matches(v: JsonValue, u: UsageInfo) -> bool {
    let b = breakdown_of(v);
    let sub = index_spec(v, "subscriptionInfo"@);
    &&& u.usage_limit == int_field(b, "usageLimit"@, "usageLimitWithPrecision"@)
    &&& u.current_usage == int_field(b, "currentUsage"@, "currentUsageWithPrecision"@)
    &&& u.overage_cap == int_field(b, "overageCap"@, "overageCapWithPrecision"@)
    &&& u.current_overages == int_field(b, "currentOverages"@, "currentOveragesWithPrecision"@)
    &&& u.overage_status@ == text_or_empty(as_str_spec(index_spec(index_spec(v, "overageConfiguration"@), "overageStatus"@)))
    &&& u.overage_charges_bits == match as_f64_bits_spec(index_spec(b, "overageCharges"@)) {
        Some(x) => x,
        None => 0u64,
    }
    &&& u.subscription@ == match as_str_spec(index_spec(sub, "subscriptionTitle"@)) {
        Some(t) => t,
        None => text_or_empty(as_str_spec(index_spec(sub, "type"@))),
    }
    &&& u.email@ == text_or_empty(as_str_spec(index_spec(index_spec(v, "userInfo"@), "email"@)))
}

fn int_field_of(b: &JsonValue, k1: &str, k2: &str) -> (r: i64)
    ensures
        r == int_field(*b, k1@, k2@),
{
    match json_i64_at(b, k1) {
        Some(x) => x,
        None => match json_i64_at(b, k2) {
            Some(x) => x,
            None => 0,
        },
    }
}

fn str_or_empty(s: Option<String>) -> (r: String)
    ensures
        r@ == match s {
            Some(x) => x@,
            None => Seq::<char>::empty(),
        },
{
    match s {
        Some(x) => x,
        None => String::new(),
    }
}

/// The member `key` of `v`, or `Null`.
fn index_of<'a>(v: &'a JsonValue, key: &str) -> (r: &'a JsonValue)
    ensures
        *r == index_spec(*v, key@),
{
    match json_get(v, key) {
        Some(x) => x,
        None => &JsonValue::Null,
    }
}

/// Reads a usage answer.
pub fn parse_usage(v: &JsonValue) -> (u: UsageInfo)
    ensures
        usage_matches(*v, u),
{
    let b: &JsonValue = match json_first_at(v, "usageBreakdownList") {
        Some(b) => b,
        None => &JsonValue::Null,
    };
    let sub = index_of(v, "subscriptionInfo");
    let status = json_str_at(index_of(v, "overageConfiguration"), "overageStatus");
    let charges = match json_f64_bits_at(b, "overageCharges") {
        Some(x) => x,
        None => 0u64,
    };
    let subscription = match json_str_at(sub, "subscriptionTitle") {
        Some(t) => t,
        None => str_or_empty(json_str_at(sub, "type")),
    };
    let email = json_str_at(index_of(v, "userInfo"), "email");
    UsageInfo {
        usage_limit: int_field_of(b, "usageLimit", "usageLimitWithPrecision"),
        current_usage: int_field_of(b, "currentUsage", "currentUsageWithPrecision"),
        overage_cap: int_field_of(b, "overageCap", "overageCapWithPrecision"),
        current_overages: int_field_of(b, "currentOverages", "currentOveragesWithPrecision"),
        overage_status: str_or_empty(status),
        overage_charges_bits: charges,
        subscription,
        email: str_or_empty(email),
    }
}


/// The tokens a successful refresh hands back.
pub struct Tokens {
    pub access_token: String,
    pub refresh_token: String,
    pub expires_at: String,
}

/// The profile an account's usage is queried with: its stored profile, else
/// the one its provider shares; `None` when both are empty.
pub open spec fn usage_profile_of(a: Account) -> Option<Seq<char>> {
    if a.profile_arn@.len() > 0 {
        Some(a.profile_arn@)
    } else if fixed_arn_of(a.provider@).len() > 0 {
        Some(fixed_arn_of(a.provider@))
    } else {
        None
    }
}

/// The profile an account's usage is queried with.
pub fn usage_profile(a: &Account) -> (r: Option<String>)
    ensures
        match r {
            Some(p) => usage_profile_of(*a) == Some(p@),
            None => usage_profile_of(*a) is None,
        },
{
    if !a.profile_arn.as_str().is_empty() {
        Some(a.profile_arn.clone())
    } else {
        let fixed = fixed_profile_arn(a.provider.as_str());
        if fixed.is_empty() {
            None
        } else {
            Some(fixed.to_string())
        }
    }
}


/// An Identity Center refresh is only ever sent with a client id, a client
/// secret and a region, all non-empty.
pub proof fn idc_refresh_is_complete(a: Account, req: RefreshRequest)
    requires
        refresh_plan_matches(a, Ok(req)),
        req is Idc,
    ensures
        req matches RefreshRequest::Idc { client_id, client_secret, region, .. } && client_id@.len() > 0
            && client_secret@.len() > 0 && region@.len() > 0,
{
    reveal_strlit("us-east-1");
}

/// A refresh request, when one is sent, carries the account's own login: a
/// social request only for a social login and with its refresh token; an
/// Identity Center request only for an Identity Center login, with its client
/// id, secret and refresh token, and its region whenever it has one.
pub proof fn refresh_sends_the_account_login(a: Account, req: RefreshRequest)
    requires
        refresh_plan_matches(a, Ok(req)),
    ensures
        req matches RefreshRequest::Social { refresh_token } ==> a.auth_method@ == "social"@
            && refresh_token@ == a.refresh_token@,
        req matches RefreshRequest::Idc { client_id, client_secret, refresh_token, region } ==> a.auth_method@ == "IdC"@
            && client_id@ == a.client_id@ && client_secret@ == a.client_secret@ && refresh_token@ == a.refresh_token@
            && (a.region@.len() > 0 ==> region@ == a.region@),
{
}

/// A refresh is refused only for an Identity Center login that lacks its
/// client id or secret, or for a login method other than social and Identity
/// Center, which the refusal names; a social login is never refused.
pub proof fn refresh_refused_only_without_login(a: Account, e: RefreshError)
    requires
        refresh_plan_matches(a, Err(e)),
    ensures
        a.auth_method@ != "social"@,
        e is MissingClientCredentials ==> a.auth_method@ == "IdC"@ && (a.client_id@.len() == 0
            || a.client_secret@.len() == 0),
        e matches RefreshError::UnknownAuthMethod(m) ==> m@ == a.auth_method@ && a.auth_method@ != "IdC"@,
{
}

/// A usage answer is read by name: each count from the member of its own
/// name in the first usage breakdown when that is an integer, the overage
/// status from `overageConfiguration.overageStatus`, the plan from
/// `subscriptionInfo.subscriptionTitle` and the e-mail from `userInfo.email`
/// when those are text.
pub proof fn usage_reads_named_fields(v: JsonValue, u: UsageInfo, b: JsonValue)
    requires
        usage_matches(v, u),
        first_spec(index_spec(v, "usageBreakdownList"@)) == Some(b),
    ensures
        as_i64_spec(index_spec(b, "usageLimit"@)) matches Some(x) ==> u.usage_limit == x,
        as_i64_spec(index_spec(b, "currentUsage"@)) matches Some(x) ==> u.current_usage == x,
        as_i64_spec(index_spec(b, "overageCap"@)) matches Some(x) ==> u.overage_cap == x,
        as_i64_spec(index_spec(b, "currentOverages"@)) matches Some(x) ==> u.current_overages == x,
        as_f64_bits_spec(index_spec(b, "overageCharges"@)) matches Some(x) ==> u.overage_charges_bits == x,
        as_str_spec(index_spec(index_spec(v, "overageConfiguration"@), "overageStatus"@)) matches Some(t)
            ==> u.overage_status@ == t,
        as_str_spec(index_spec(index_spec(v, "subscriptionInfo"@), "subscriptionTitle"@)) matches Some(t)
            ==> u.subscription@ == t,
        as_str_spec(index_spec(index_spec(v, "userInfo"@), "email"@)) matches Some(t) ==> u.email@ == t,
{
}

/// The usage is queried on the account's stored profile whenever it has one;
/// the provider's shared profile stands in only when it has none.
pub proof fn usage_profile_prefers_stored(a: Account)
    ensures
        a.profile_arn@.len() > 0 ==> usage_profile_of(a) == Some(a.profile_arn@),
        a.profile_arn@.len() == 0 && fixed_arn_of(a.provider@).len() > 0 ==> usage_profile_of(a)
            == Some(fixed_arn_of(a.provider@)),
        usage_profile_of(a) matches Some(p) ==> p.len() > 0,
{
}

} // verus!
