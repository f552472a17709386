//! The desktop client's own login files: where they are, how an account is
//! imported from them, and what is written back when an account is injected.

use vstd::prelude::*;
use vstd::utf8::{decode_utf8, encode_utf8, encode_utf8_decode_utf8, is_char_boundary};
use vstd::string::StringSliceAdditionalSpecFns;
use crate::api::{
    fixed_arn_of, fixed_profile_arn, refresh_plan, refresh_plan_matches, RefreshRequest, Tokens,
    UsageInfo,
};
use crate::claims::{identity_of, jwt_identity, payload_of, token_payload};
use crate::json::{as_str_spec, get_spec, index_spec, json_str_at, JsonValue};
use crate::store::{lemma_member_absent, lemma_member_at};
use crate::models::{blank_view, Account, AccountView};
use crate::text::{chars_of, text_concat, text_eq};
use crate::timefmt::{
    is_expired, expired_at, format_stamp, iso_expiry, local_now, normalize_expires, normalized_expiry, stamp_in_supported_years,
    iso_or_hour, stamp_text, to_iso_expires_at, utc_now, FMT_PLAIN,
};

verus! {

/// The login the desktop client keeps in `kiro-auth-token.json`.
pub struct LocalToken {
    pub access_token: String,
    pub refresh_token: String,
    pub expires_at: String,
    pub auth_method: String,
    pub provider: String,
    pub region: String,
    pub client_id_hash: String,
}

/// The name of the desktop client's token file.
pub const TOKEN_FILE: &'static str = "kiro-auth-token.json";

/// `name` placed in the directory `dir`, with `/` as separator: an absolute
/// `name` stands alone, an empty `dir` adds nothing, and a separator is only
/// added when `dir` does not already end with one.
pub open spec fn joined(dir: Seq<char>, name: Seq<char>) -> Seq<char> {
    if name.len() > 0 && name[0] == '/' {
        name
    } else if dir.len() == 0 {
        name
    } else if dir.last() == '/' {
        dir + name
    } else {
        dir + seq!['/'] + name
    }
}

/// `name` placed in the directory `dir`.
pub fn join_path(dir: &str, name: &str) -> (r: String)
    ensures
        r@ == joined(dir@, name@),
{
    let n = chars_of(name);
    let d = chars_of(dir);
    if n.len() > 0 && n[0] == '/' {
        return name.to_string();
    }
    if d.len() == 0 {
        return name.to_string();
    }
    if d[d.len() - 1] == '/' {
        text_concat(dir, name)
    } else {
        let with_sep = text_concat(dir, "/");
        proof {
            reveal_strlit("/");
        }
        text_concat(with_sep.as_str(), name)
    }
}

/// The desktop client's token file in the cache directory `cache_dir`.
pub fn token_path(cache_dir: &str) -> (r: String)
    ensures
        r@ == joined(cache_dir@, TOKEN_FILE@),
{
    join_path(cache_dir, TOKEN_FILE)
}

/// The registration file of the client with this hash.
pub fn client_reg_path(cache_dir: &str, client_id_hash: &str) -> (r: String)
    ensures
        r@ == joined(cache_dir@, client_id_hash@ + ".json"@),
{
    let name = text_concat(client_id_hash, ".json");
    join_path(cache_dir, name.as_str())
}

/// The text of `v[key]` when it is a string, else empty.
pub open spec fn text_member(v: JsonValue, key: Seq<char>) -> Seq<char> {
    match as_str_spec(index_spec(v, key)) {
        Some(s) => s,
        None => Seq::empty(),
    }
}

/// The client id and secret a registration file gives; a file that could not
/// be read gives two empty texts.
pub open spec fn credentials_of(reg: Option<JsonValue>) -> (Seq<char>, Seq<char>) {
    match reg {
        Some(v) => (text_member(v, "clientId"@), text_member(v, "clientSecret"@)),
        None => (Seq::empty(), Seq::empty()),
    }
}

fn text_member_of(v: &JsonValue, key: &str) -> (r: String)
    ensures
        r@ == text_member(*v, key@),
{
    match json_str_at(v, key) {
        Some(s) => s,
        None => String::new(),
    }
}

/// The client id and secret of a parsed registration file.
pub fn client_credentials(reg: &Option<JsonValue>) -> (r: (String, String))
    ensures
        (r.0@, r.1@) == credentials_of(*reg),
{
    match reg {
        Some(v) => (text_member_of(v, "clientId"), text_member_of(v, "clientSecret")),
        None => (String::new(), String::new()),
    }
}

/// The account an import starts from: the token file's login, its expiry in
/// the table's pattern, its region (`us-east-1` when none), nothing else.
pub open spec fn imported_base(tok: LocalToken) -> AccountView {
    AccountView {
        provider: tok.provider@,
        auth_method: tok.auth_method@,
        access_token: tok.access_token@,
        refresh_token: tok.refresh_token@,
        expires_at: normalized_expiry(tok.expires_at@),
        client_id_hash: tok.client_id_hash@,
        region: if tok.region@.len() == 0 { "us-east-1"@ } else { tok.region@ },
        ..blank_view()
    }
}

/// What importing from the desktop client asks for next.
pub enum ImportAction {
    /// Read and parse the registration file of the client with this hash;
    /// hand the result (`None` when it could not be read or parsed) to
    /// `import_on_client_reg`.
    ReadClientReg(String),
    /// Parse these JWT claims as JSON; hand the result (`None` when they are
    /// not JSON) to `import_on_claims`.
    ParseClaims(Vec<u8>),
    /// List the profiles of the login with this access token; hand the first
    /// profile's arn (`None` when the call failed or gave none) to
    /// `import_on_profiles`.
    ListProfiles(String),
    /// Query the usage of this profile, asking for the e-mail too when
    /// `email_required`; hand the answer (`None` when the query failed) to
    /// `import_on_usage`.
    QueryUsage { access_token: String, profile_arn: String, email_required: bool },
    /// The import is complete.
    Done,
}

/// An import in progress: the account as far as it is known, and what it
/// asks for next.
pub struct ImportStep {
    pub account: Account,
    pub next: ImportAction,
}

/// The account with the client id and secret from a registration file.
pub open spec fn with_credentials(v: AccountView, reg: Option<JsonValue>) -> AccountView {
    AccountView { client_id: credentials_of(reg).0, client_secret: credentials_of(reg).1, ..v }
}

/// The account with the e-mail and user id from its JWT claims.
pub open spec fn with_identity(v: AccountView, claims: Option<JsonValue>) -> AccountView {
    AccountView { email: identity_of(claims).0, user_id: identity_of(claims).1, ..v }
}

/// The e-mail an import falls back to: `<provider>_<method>_local`.
pub open spec fn local_email(v: AccountView) -> Seq<char> {
    v.provider + "_"@ + v.auth_method + "_local"@
}

/// The account an import ends with: a missing e-mail is filled with
/// `local_email`.
pub open spec fn finished_view(v: AccountView) -> AccountView {
    if v.email.len() == 0 {
        AccountView { email: local_email(v), ..v }
    } else {
        v
    }
}

/// The import ends with `v`.
pub open spec fn import_finished(v: AccountView, s: ImportStep) -> bool {
    s.next is Done && s.account@ == finished_view(v)
}

/// The import continues with `v` once its profile is known: a usage query
/// when it has one, else the end.
pub open spec fn usage_stage(v: AccountView, s: ImportStep) -> bool {
    if v.profile_arn.len() > 0 {
        &&& s.account@ == v
        &&& s.next matches ImportAction::QueryUsage { access_token, profile_arn, email_required }
            && access_token@ == v.access_token && profile_arn@ == v.profile_arn && email_required
    } else {
        import_finished(v, s)
    }
}

/// The import continues with `v` once its identity is known: the provider's
/// shared profile when it has one, else a profile listing.
pub open spec fn profile_stage(v: AccountView, s: ImportStep) -> bool {
    if fixed_arn_of(v.provider).len() > 0 {
        usage_stage(AccountView { profile_arn: fixed_arn_of(v.provider), ..v }, s)
    } else {
        &&& s.account@ == v
        &&& s.next matches ImportAction::ListProfiles(t) && t@ == v.access_token
    }
}

/// The import continues with `v` once its credentials are settled: its JWT
/// claims are read when the access token has a decodable payload; otherwise
/// it goes on with an empty identity.
pub open spec fn claims_stage(v: AccountView, s: ImportStep) -> bool {
    match payload_of(v.access_token) {
        Some(b) => {
            &&& s.account@ == v
            &&& s.next matches ImportAction::ParseClaims(p) && p@ == b
        },
        None => profile_stage(with_identity(v, None), s),
    }
}

fn finish_import(a: Account) -> (s: ImportStep)
    ensures
        import_finished(a@, s),
{
    let mut a = a;
    if a.email.as_str().is_empty() {
        let p1 = text_concat(a.provider.as_str(), "_");
        let p2 = text_concat(p1.as_str(), a.auth_method.as_str());
        a.email = text_concat(p2.as_str(), "_local");
    }
    ImportStep { account: a, next: ImportAction::Done }
}

fn usage_stage_of(a: Account) -> (s: ImportStep)
    ensures
        usage_stage(a@, s),
{
    if !a.profile_arn.as_str().is_empty() {
        let access_token = a.access_token.clone();
        let profile_arn = a.profile_arn.clone();
        ImportStep {
            account: a,
            next: ImportAction::QueryUsage { access_token, profile_arn, email_required: true },
        }
    } else {
        finish_import(a)
    }
}

fn profile_stage_of(a: Account) -> (s: ImportStep)
    ensures
        profile_stage(a@, s),
{
    let fixed = fixed_profile_arn(a.provider.as_str());
    if !fixed.is_empty() {
        let mut a = a;
        a.profile_arn = fixed.to_string();
        usage_stage_of(a)
    } else {
        let t = a.access_token.clone();
        ImportStep { account: a, next: ImportAction::ListProfiles(t) }
    }
}

fn apply_identity(a: Account, claims: &Option<JsonValue>) -> (r: Account)
    ensures
        r@ == with_identity(a@, *claims),
{
    let (email, sub) = jwt_identity(claims);
    let mut a = a;
    a.email = email;
    a.user_id = sub;
    a
}

fn claims_stage_of(a: Account) -> (s: ImportStep)
    ensures
        claims_stage(a@, s),
{
    match token_payload(a.access_token.as_str()) {
        Some(b) => ImportStep { account: a, next: ImportAction::ParseClaims(b) },
        None => profile_stage_of(apply_identity(a, &None)),
    }
}

/// Starts importing the desktop client's login `tok`: an Identity Center
/// login with a client hash first reads its registration file; any other
/// goes on to its JWT claims.
pub fn import_start(tok: &LocalToken) -> (s: ImportStep)
    ensures
        ({
            let v = imported_base(*tok);
            if v.auth_method == "IdC"@ && v.client_id_hash.len() > 0 {
                &&& s.account@ == v
                &&& s.next matches ImportAction::ReadClientReg(h) && h@ == v.client_id_hash
            } else {
                claims_stage(v, s)
            }
        }),
{
    let mut a = Account::blank();
    a.provider = tok.provider.clone();
    a.auth_method = tok.auth_method.clone();
    a.access_token = tok.access_token.clone();
    a.refresh_token = tok.refresh_token.clone();
    a.expires_at = normalize_expires(tok.expires_at.as_str());
    a.client_id_hash = tok.client_id_hash.clone();
    a.region = if tok.region.as_str().is_empty() { "us-east-1".to_string() } else { tok.region.clone() };
    if text_eq(a.auth_method.as_str(), "IdC") && !a.client_id_hash.as_str().is_empty() {
        let h = a.client_id_hash.clone();
        ImportStep { account: a, next: ImportAction::ReadClientReg(h) }
    } else {
        claims_stage_of(a)
    }
}

/// Continues an import once the registration file has been read.
pub fn import_on_client_reg(a: Account, reg: &Option<JsonValue>) -> (s: ImportStep)
    ensures
        claims_stage(with_credentials(a@, *reg), s),
{
    let (id, secret) = client_credentials(reg);
    let mut a = a;
    a.client_id = id;
    a.client_secret = secret;
    claims_stage_of(a)
}

/// Continues an import once its JWT claims have been read.
pub fn import_on_claims(a: Account, claims: &Option<JsonValue>) -> (s: ImportStep)
    ensures
        profile_stage(with_identity(a@, *claims), s),
{
    profile_stage_of(apply_identity(a, claims))
}

/// Continues an import once its profiles have been listed.
pub fn import_on_profiles(a: Account, first_arn: Option<String>) -> (s: ImportStep)
    ensures
        usage_stage(AccountView {
            profile_arn: match first_arn {
                Some(p) => p@,
                None => Seq::empty(),
            },
            ..a@
        }, s),
{
    let mut a = a;
    a.profile_arn = match first_arn {
        Some(p) => p,
        None => String::new(),
    };
    usage_stage_of(a)
}

/// The account with a usage answer applied, queried at the local time
/// `queried_at`: the answer's e-mail fills a missing one, and its counts,
/// overage state and plan replace the account's.
pub open spec fn with_usage(v: AccountView, u: UsageInfo, queried_at: Seq<char>) -> AccountView {
    AccountView {
        email: if v.email.len() == 0 && u.email@.len() > 0 { u.email@ } else { v.email },
        usage_limit: u.usage_limit,
        current_usage: u.current_usage,
        overage_cap: u.overage_cap,
        current_overages: u.current_overages,
        overage_status: u.overage_status@,
        overage_charges_bits: u.overage_charges_bits,
        subscription: u.subscription@,
        last_query_time: Some(queried_at),
        ..v
    }
}

/// Ends an import once its usage has been queried (`None`: the query
/// failed, and the account is kept as it is). The query time is the local
/// clock's, which is not known here.
pub fn import_on_usage(a: Account, usage: Option<UsageInfo>) -> (s: ImportStep)
    ensures
        match usage {
            Some(u) => exists|t: (i64, u32)| stamp_in_supported_years(t) && #[trigger] stamp_text(t.0, t.1, FMT_PLAIN@) is Some
                && import_finished(with_usage(a@, u, stamp_text(t.0, t.1, FMT_PLAIN@)->0), s),
            None => import_finished(a@, s),
        },
{
    match usage {
        Some(u) => {
            let now = local_now();
            let t = match format_stamp(now.0, now.1, FMT_PLAIN) {
                Some(t) => t,
                None => String::new(),
            };
            import_on_usage_at(a, Some(u), t.as_str())
        },
        None => finish_import(a),
    }
}

/// Ends an import once its usage has been queried, the query having been
/// made at the local time `queried_at`.
pub fn import_on_usage_at(a: Account, usage: Option<UsageInfo>, queried_at: &str) -> (s: ImportStep)
    ensures
        match usage {
            Some(u) => import_finished(with_usage(a@, u, queried_at@), s),
            None => import_finished(a@, s),
        },
{
    match usage {
        Some(u) => {
            let mut a = a;
            if a.email.as_str().is_empty() && !u.email.as_str().is_empty() {
                a.email = u.email;
            }
            a.usage_limit = u.usage_limit;
            a.current_usage = u.current_usage;
            a.overage_cap = u.overage_cap;
            a.current_overages = u.current_overages;
            a.overage_status = u.overage_status;
            a.overage_charges_bits = u.overage_charges_bits;
            a.subscription = u.subscription;
            a.last_query_time = Some(queried_at.to_string());
            finish_import(a)
        },
        None => finish_import(a),
    }
}


/// The message an import gives when the desktop client has no token file.
pub const IMPORT_NO_TOKEN: &'static str = "未找到 kiro-auth-token.json";

/// `true` when `v` is an object whose members are, in order, the keys `keys`
/// with the string values `values`.
pub open spec fn string_object(v: JsonValue, keys: Seq<Seq<char>>, values: Seq<Seq<char>>) -> bool {
    &&& keys.len() == values.len()
    &&& v matches JsonValue::Object(fields) && fields@.len() == keys.len()
        && forall|i: int| 0 <= i < keys.len() ==> (#[trigger] fields@[i]).0@ == keys[i]
            && as_str_spec(fields@[i].1) == Some(values[i])
}

/// The registration file to write next to the token file.
pub struct ClientRegWrite {
    /// The file's name in the cache directory: `<client id hash>.json`.
    pub file_name: String,
    pub client_id: String,
    pub client_secret: String,
}

/// What injecting an account into the desktop client writes.
pub struct InjectPlan {
    /// The contents of the token file.
    pub token: JsonValue,
    /// The registration file to write too, if any.
    pub client_reg: Option<ClientRegWrite>,
}

/// The token file an account is injected as, with `expires` as its expiry:
/// the tokens and expiry, then the login method and provider, and for an
/// Identity Center login also its region and client hash.
pub open spec fn token_doc(a: AccountView, expires: Seq<char>, v: JsonValue) -> bool {
    if a.auth_method == "social"@ {
        string_object(v, seq!["accessToken"@, "refreshToken"@, "expiresAt"@, "authMethod"@, "provider"@],
            seq![a.access_token, a.refresh_token, expires, "social"@, a.provider])
    } else {
        string_object(v, seq!["accessToken"@, "refreshToken"@, "expiresAt"@, "authMethod"@, "provider"@,
            "region"@, "clientIdHash"@],
            seq![a.access_token, a.refresh_token, expires, "IdC"@, a.provider, a.region, a.client_id_hash])
    }
}

/// Whether injecting the account also writes its client registration: an
/// Identity Center login with client id, secret and hash all known.
pub open spec fn writes_client_reg(a: AccountView) -> bool {
    a.auth_method == "IdC"@ && a.client_id.len() > 0 && a.client_secret.len() > 0 && a.client_id_hash.len() > 0
}

fn push_str_member(fields: &mut Vec<(String, JsonValue)>, key: &str, value: String)
    ensures
        final(fields)@.len() == old(fields)@.len() + 1,
        forall|i: int| 0 <= i < old(fields)@.len() ==> final(fields)@[i] == old(fields)@[i],
        final(fields)@[old(fields)@.len() as int].0@ == key@,
        as_str_spec(final(fields)@[old(fields)@.len() as int].1) == Some(value@),
{
    fields.push((key.to_string(), JsonValue::Str(value)));
}

/// Why an account cannot be injected.
pub enum InjectError {
    /// The desktop client does not take this login method; the error holds the
    /// message shown.
    UnsupportedMethod(String),
    /// The stored expiry cannot be read and an hour from now lies past the
    /// last date chrono supports.
    ExpiryOutOfRange,
}

/// Whether the desktop client takes the account's login method.
pub open spec fn injectable(a: AccountView) -> bool {
    a.auth_method == "social"@ || a.auth_method == "IdC"@
}

/// What injecting an account gives at the UTC clock reading `now`: a login
/// method the desktop client does not take (only `social` and `IdC`) is
/// refused; otherwise the token file holds `iso_or_hour` of the stored expiry,
/// and the registration is written when `writes_client_reg` says so.
pub open spec fn inject_matches(a: AccountView, now: (i64, u32), r: Result<InjectPlan, InjectError>) -> bool {
    if !injectable(a) {
        r matches Err(InjectError::UnsupportedMethod(m)) && m@ == "不支持的认证方式: "@ + a.auth_method
    } else {
        match iso_or_hour(a.expires_at, now) {
            Some(e) => r matches Ok(p) && token_doc(a, e, p.token) && match p.client_reg {
                Some(c) => writes_client_reg(a) && c.file_name@ == a.client_id_hash + ".json"@
                    && c.client_id@ == a.client_id && c.client_secret@ == a.client_secret,
                None => !writes_client_reg(a),
            },
            None => r matches Err(InjectError::ExpiryOutOfRange),
        }
    }
}

/// What injecting an account writes at the UTC clock reading `now`.
pub fn inject_plan_at(a: &Account, now: (i64, u32)) -> (r: Result<InjectPlan, InjectError>)
    requires
        stamp_in_supported_years(now),
    ensures
        inject_matches(a@, now, r),
{
    let social = text_eq(a.auth_method.as_str(), "social");
    let idc = text_eq(a.auth_method.as_str(), "IdC");
    if !social && !idc {
        return Err(InjectError::UnsupportedMethod(text_concat("不支持的认证方式: ", a.auth_method.as_str())));
    }
    let expires = match to_iso_expires_at(a.expires_at.as_str(), now) {
        Some(x) => x,
        None => return Err(InjectError::ExpiryOutOfRange),
    };
    let ghost e = expires@;
    let mut fields: Vec<(String, JsonValue)> = Vec::new();
    push_str_member(&mut fields, "accessToken", a.access_token.clone());
    push_str_member(&mut fields, "refreshToken", a.refresh_token.clone());
    push_str_member(&mut fields, "expiresAt", expires);
    if social {
        push_str_member(&mut fields, "authMethod", "social".to_string());
        push_str_member(&mut fields, "provider", a.provider.clone());
    } else {
        push_str_member(&mut fields, "authMethod", "IdC".to_string());
        push_str_member(&mut fields, "provider", a.provider.clone());
        push_str_member(&mut fields, "region", a.region.clone());
        push_str_member(&mut fields, "clientIdHash", a.client_id_hash.clone());
    }
    let token = JsonValue::Object(fields);
    assert(token_doc(a@, e, token));
    let client_reg = if idc && !a.client_id.as_str().is_empty() && !a.client_secret.as_str().is_empty()
        && !a.client_id_hash.as_str().is_empty() {
        Some(ClientRegWrite {
            file_name: text_concat(a.client_id_hash.as_str(), ".json"),
            client_id: a.client_id.clone(),
            client_secret: a.client_secret.clone(),
        })
    } else {
        None
    };
    Ok(InjectPlan { token, client_reg })
}

/// What injecting an account writes, by the UTC clock, whose reading is not
/// known here.
pub fn inject_plan(a: &Account) -> (r: Result<InjectPlan, InjectError>)
    ensures
        exists|now: (i64, u32)| stamp_in_supported_years(now) && #[trigger] inject_matches(a@, now, r),
        r matches Err(InjectError::UnsupportedMethod(_)) <==> !injectable(a@),
{
    let now = utc_now();
    inject_plan_at(a, now)
}

/// The contents of a registration file: the client id, its secret, and when
/// the secret expires.
pub fn client_reg_document(client_id: &str, client_secret: &str, expires_at: &str) -> (v: JsonValue)
    ensures
        string_object(v, seq!["clientId"@, "clientSecret"@, "expiresAt"@],
            seq![client_id@, client_secret@, expires_at@]),
{
    let mut fields: Vec<(String, JsonValue)> = Vec::new();
    push_str_member(&mut fields, "clientId", client_id.to_string());
    push_str_member(&mut fields, "clientSecret", client_secret.to_string());
    push_str_member(&mut fields, "expiresAt", expires_at.to_string());
    JsonValue::Object(fields)
}

/// What refreshing the desktop client's own login asks for next.
pub enum LocalRefreshAction {
    /// Read the registration file of the client with this hash and hand it
    /// to `local_refresh_on_client_reg`: `None` when the file could not be
    /// read, `Some(None)` when it is not JSON.
    ReadClientReg(String),
    /// Send this refresh and hand the new tokens, or the error's text, to
    /// `local_refresh_on_refresh`.
    SendRefresh(RefreshRequest),
    /// Inject the step's account into the desktop client and hand the
    /// outcome to `local_refresh_on_injected`.
    Inject,
    /// The answer to give.
    Reply(Result<String, String>),
}

/// A refresh of the desktop client's login in progress.
pub struct LocalRefreshStep {
    pub account: Account,
    pub next: LocalRefreshAction,
}

/// The account a refresh of the desktop client's login works on: the token
/// file's login and tokens, its region (`us-east-1` when none) and client
/// hash, nothing else.
pub open spec fn local_refresh_base(tok: LocalToken) -> AccountView {
    AccountView {
        provider: tok.provider@,
        auth_method: tok.auth_method@,
        access_token: tok.access_token@,
        refresh_token: tok.refresh_token@,
        client_id_hash: tok.client_id_hash@,
        region: if tok.region@.len() == 0 { "us-east-1"@ } else { tok.region@ },
        ..blank_view()
    }
}

/// The refresh of `v` is sent when a request can be made, else refused with
/// the reason.
pub open spec fn send_stage(v: AccountView, s: LocalRefreshStep) -> bool {
    &&& s.account@ == v
    &&& match s.next {
        LocalRefreshAction::SendRefresh(req) => exists|acc: Account| acc@ == v && #[trigger] refresh_plan_matches(acc, Ok(req)),
        LocalRefreshAction::Reply(Err(m)) => exists|acc: Account, e: crate::api::RefreshError| acc@ == v
            && #[trigger] refresh_plan_matches(acc, Err(e)) && m@ == e.message_of(),
        _ => false,
    }
}

fn send_stage_of(a: Account) -> (s: LocalRefreshStep)
    ensures
        send_stage(a@, s),
{
    match refresh_plan(&a) {
        Ok(req) => LocalRefreshStep { account: a, next: LocalRefreshAction::SendRefresh(req) },
        Err(e) => {
            let m = e.message();
            LocalRefreshStep { account: a, next: LocalRefreshAction::Reply(Err(m)) }
        },
    }
}

/// Starts refreshing the desktop client's own login (`None`: it has no
/// token file, which is refused): an Identity Center login with a client hash
/// first reads its registration file.
pub fn local_refresh_start(tok: &Option<LocalToken>) -> (s: LocalRefreshStep)
    ensures
        match *tok {
            None => s.next matches LocalRefreshAction::Reply(Err(m)) && m@ == "本地无 Token"@,
            Some(t) => {
                let v = local_refresh_base(t);
                if v.auth_method == "IdC"@ && v.client_id_hash.len() > 0 {
                    &&& s.account@ == v
                    &&& s.next matches LocalRefreshAction::ReadClientReg(h) && h@ == v.client_id_hash
                } else {
                    send_stage(v, s)
                }
            },
        },
{
    match tok {
        None => LocalRefreshStep {
            account: Account::blank(),
            next: LocalRefreshAction::Reply(Err("本地无 Token".to_string())),
        },
        Some(t) => {
            let mut a = Account::blank();
            a.auth_method = t.auth_method.clone();
            a.provider = t.provider.clone();
            a.access_token = t.access_token.clone();
            a.refresh_token = t.refresh_token.clone();
            a.region = if t.region.as_str().is_empty() { "us-east-1".to_string() } else { t.region.clone() };
            a.client_id_hash = t.client_id_hash.clone();
            if text_eq(a.auth_method.as_str(), "IdC") && !a.client_id_hash.as_str().is_empty() {
                let h = a.client_id_hash.clone();
                LocalRefreshStep { account: a, next: LocalRefreshAction::ReadClientReg(h) }
            } else {
                send_stage_of(a)
            }
        },
    }
}

/// Continues once the registration file has been looked for: a missing file
/// is refused; a file that is not JSON leaves the credentials empty; otherwise
/// its client id and secret are used. Then the refresh is sent.
pub fn local_refresh_on_client_reg(a: Account, file: &Option<Option<JsonValue>>) -> (s: LocalRefreshStep)
    ensures
        match *file {
            None => s.next matches LocalRefreshAction::Reply(Err(m)) && m@ == "缺少 clientRegistration 文件"@,
            Some(None) => send_stage(a@, s),
            Some(Some(v)) => send_stage(with_credentials(a@, Some(v)), s),
        },
{
    match file {
        None => LocalRefreshStep {
            account: a,
            next: LocalRefreshAction::Reply(Err("缺少 clientRegistration 文件".to_string())),
        },
        Some(None) => send_stage_of(a),
        Some(Some(v)) => {
            let mut a = a;
            a.client_id = text_member_of(v, "clientId");
            a.client_secret = text_member_of(v, "clientSecret");
            send_stage_of(a)
        },
    }
}

/// Continues once the refresh has been answered: an error is passed on; new
/// tokens replace the account's and the account is injected.
pub fn local_refresh_on_refresh(a: Account, r: Result<Tokens, String>) -> (s: LocalRefreshStep)
    ensures
        match r {
            Err(e) => s.next matches LocalRefreshAction::Reply(Err(m)) && m@ == e@,
            Ok(t) => s.next is Inject && s.account@ == AccountView {
                access_token: t.access_token@,
                refresh_token: t.refresh_token@,
                expires_at: t.expires_at@,
                ..a@
            },
        },
{
    match r {
        Err(e) => LocalRefreshStep { account: a, next: LocalRefreshAction::Reply(Err(e)) },
        Ok(t) => {
            let mut a = a;
            a.access_token = t.access_token;
            a.refresh_token = t.refresh_token;
            a.expires_at = t.expires_at;
            LocalRefreshStep { account: a, next: LocalRefreshAction::Inject }
        },
    }
}

/// The answer once the refreshed login has been injected.
pub fn local_refresh_on_injected(r: Result<(), String>) -> (out: Result<String, String>)
    ensures
        match r {
            Err(e) => out matches Err(m) && m@ == e@,
            Ok(_) => out matches Ok(m) && m@ == "本地 Token 已刷新"@,
        },
{
    match r {
        Err(e) => Err(e),
        Ok(_) => Ok("本地 Token 已刷新".to_string()),
    }
}

/// `s` cut to its first `max` bytes followed by `…` when it is longer than
/// that; the cut must fall between characters.
pub fn truncate_str(s: &str, max: usize) -> (r: String)
    requires
        s.spec_bytes().len() <= max || is_char_boundary(s.spec_bytes(), max as int),
    ensures
        s.spec_bytes().len() <= max ==> r@ == s@,
        s.spec_bytes().len() > max ==> r@ == decode_utf8(s.spec_bytes().subrange(0, max as int)) + "…"@,
{
    let n = s.as_bytes().len();
    if n <= max {
        s.to_string()
    } else {
        let (head, _tail) = s.split_at(max);
        proof {
            encode_utf8_decode_utf8(head@);
            assert(head.spec_bytes() == s.spec_bytes().subrange(0, max as int));
            assert(decode_utf8(s.spec_bytes().subrange(0, max as int)) == head@);
        }
        text_concat(head, "…")
    }
}

/// What the desktop client's token file is shown as.
pub struct LocalTokenInfo {
    pub auth_method: String,
    pub provider: String,
    pub region: String,
    pub expires_at: String,
    pub client_id_hash: String,
    pub access_token_preview: String,
    pub refresh_token_preview: String,
    pub is_expired: bool,
}

/// The first 60 bytes of a token and `…`, or the whole token.
pub open spec fn preview_of(s: Seq<char>) -> Seq<char> {
    if encode_utf8(s).len() <= 60 {
        s
    } else {
        decode_utf8(encode_utf8(s).subrange(0, 60)) + "…"@
    }
}

/// A token can be cut after 60 bytes.
pub open spec fn previewable(s: Seq<char>) -> bool {
    encode_utf8(s).len() <= 60 || is_char_boundary(encode_utf8(s), 60)
}

/// Whether a token can be cut after 60 bytes.
pub fn previewable_text(s: &str) -> (r: bool)
    ensures
        r == previewable(s@),
{
    s.as_bytes().len() <= 60 || s.is_char_boundary(60)
}

/// How the desktop client's token file is shown: its fields, the tokens cut
/// to 60 bytes, and whether it has expired by the local clock (which is not
/// known here).
pub fn local_token_info(t: &LocalToken) -> (r: LocalTokenInfo)
    requires
        previewable(t.access_token@),
        previewable(t.refresh_token@),
    ensures
        r.auth_method@ == t.auth_method@,
        r.provider@ == t.provider@,
        r.region@ == t.region@,
        r.expires_at@ == t.expires_at@,
        r.client_id_hash@ == t.client_id_hash@,
        r.access_token_preview@ == preview_of(t.access_token@),
        r.refresh_token_preview@ == preview_of(t.refresh_token@),
        exists|now: (i64, u32)| stamp_in_supported_years(now) && r.is_expired == expired_at(t.expires_at@, now),
{
    LocalTokenInfo {
        auth_method: t.auth_method.clone(),
        provider: t.provider.clone(),
        region: t.region.clone(),
        expires_at: t.expires_at.clone(),
        client_id_hash: t.client_id_hash.clone(),
        access_token_preview: truncate_str(t.access_token.as_str(), 60),
        refresh_token_preview: truncate_str(t.refresh_token.as_str(), 60),
        is_expired: is_expired(t.expires_at.as_str()),
    }
}


/// An import never ends without an e-mail: a login that gives none is named
/// after its provider and method.
pub proof fn import_always_names_the_account(v: AccountView)
    ensures
        finished_view(v).email.len() > 0,
{
    reveal_strlit("_local");
}

/// The e-mail read from the JWT comes first: a usage answer only fills an
/// e-mail that is still missing.
pub proof fn jwt_email_comes_first(v: AccountView, u: UsageInfo, t: Seq<char>)
    requires
        v.email.len() > 0,
    ensures
        with_usage(v, u, t).email == v.email,
{
}

/// In a string object, the member under a key is the value paired with that
/// key's first occurrence.
proof fn lemma_string_member(v: JsonValue, keys: Seq<Seq<char>>, values: Seq<Seq<char>>, i: int)
    requires
        string_object(v, keys, values),
        0 <= i < keys.len(),
        forall|j: int| 0 <= j < i ==> keys[j] != keys[i],
    ensures
        as_str_spec(index_spec(v, keys[i])) == Some(values[i]),
{
    let fields = v->Object_0@;
    assert(fields[i].0@ == keys[i]);
    assert forall|j: int| 0 <= j < i implies fields[j].0@ != keys[i] by {
        assert(fields[j].0@ == keys[j]);
    }
    lemma_member_at(fields, keys[i], i);
}

/// A string object has no member under a key it does not list.
proof fn lemma_string_member_absent(v: JsonValue, keys: Seq<Seq<char>>, values: Seq<Seq<char>>, key: Seq<char>)
    requires
        string_object(v, keys, values),
        forall|j: int| 0 <= j < keys.len() ==> keys[j] != key,
    ensures
        get_spec(v, key) is None,
{
    let fields = v->Object_0@;
    assert forall|j: int| 0 <= j < fields.len() implies fields[j].0@ != key by {
        assert(fields[j].0@ == keys[j]);
    }
    lemma_member_absent(fields, key);
}

/// The keys a token file is written with, in order.
spec fn token_file_keys() -> Seq<Seq<char>> {
    seq!["accessToken"@, "refreshToken"@, "expiresAt"@, "authMethod"@, "provider"@, "region"@, "clientIdHash"@]
}

proof fn lemma_token_file_keys_distinct()
    ensures
        forall|i: int, j: int| 0 <= i < 7 && 0 <= j < 7 && i != j ==> token_file_keys()[i] != token_file_keys()[j],
        forall|i: int| 0 <= i < 5 ==> token_file_keys()[i] != "region"@ && token_file_keys()[i] != "clientIdHash"@,
{
    reveal_strlit("accessToken");
    reveal_strlit("refreshToken");
    reveal_strlit("expiresAt");
    reveal_strlit("authMethod");
    reveal_strlit("provider");
    reveal_strlit("region");
    reveal_strlit("clientIdHash");
    let k = token_file_keys();
    assert forall|i: int, j: int| 0 <= i < 7 && 0 <= j < 7 && i != j implies k[i] != k[j] by {
        if k[i] == k[j] {
            assert(k[i].len() == k[j].len());
            assert(k[i][0] == k[j][0]);
            assert(k[i][k[i].len() - 1] == k[j][k[j].len() - 1]);
        }
    }
    assert(k[5] == "region"@ && k[6] == "clientIdHash"@);
}

/// Injecting an account writes its own access and refresh tokens, login
/// method and provider into the token file, and its stored expiry when that
/// can be read. An Identity Center login also gets its own region and client
/// hash there; a social login gets neither member. The registration written
/// holds the account's own client id and secret, under its client hash.
pub proof fn inject_writes_the_account(a: AccountView, now: (i64, u32), p: InjectPlan)
    requires
        inject_matches(a, now, Ok(p)),
    ensures
        as_str_spec(index_spec(p.token, "accessToken"@)) == Some(a.access_token),
        as_str_spec(index_spec(p.token, "refreshToken"@)) == Some(a.refresh_token),
        as_str_spec(index_spec(p.token, "authMethod"@)) == Some(a.auth_method),
        as_str_spec(index_spec(p.token, "provider"@)) == Some(a.provider),
        iso_expiry(a.expires_at) matches Some(x) ==> as_str_spec(index_spec(p.token, "expiresAt"@)) == Some(x),
        a.auth_method == "IdC"@ ==> as_str_spec(index_spec(p.token, "region"@)) == Some(a.region)
            && as_str_spec(index_spec(p.token, "clientIdHash"@)) == Some(a.client_id_hash),
        a.auth_method == "social"@ ==> get_spec(p.token, "region"@) is None
            && get_spec(p.token, "clientIdHash"@) is None,
        p.client_reg matches Some(c) ==> c.client_id@ == a.client_id && c.client_secret@ == a.client_secret
            && c.file_name@ == a.client_id_hash + ".json"@,
{
    reveal_strlit("social");
    reveal_strlit("IdC");
    lemma_token_file_keys_distinct();
    let e = iso_or_hour(a.expires_at, now)->0;
    if a.auth_method == "social"@ {
        let keys = seq!["accessToken"@, "refreshToken"@, "expiresAt"@, "authMethod"@, "provider"@];
        assert(keys =~= token_file_keys().take(5));
        assert("social"@.len() != "IdC"@.len());
        let values = seq![a.access_token, a.refresh_token, e, "social"@, a.provider];
        assert(string_object(p.token, keys, values));
        lemma_string_member(p.token, keys, values, 0);
        lemma_string_member(p.token, keys, values, 1);
        lemma_string_member(p.token, keys, values, 2);
        lemma_string_member(p.token, keys, values, 3);
        lemma_string_member(p.token, keys, values, 4);
        lemma_string_member_absent(p.token, keys, values, "region"@);
        lemma_string_member_absent(p.token, keys, values, "clientIdHash"@);
    } else {
        let keys = seq!["accessToken"@, "refreshToken"@, "expiresAt"@, "authMethod"@, "provider"@,
            "region"@, "clientIdHash"@];
        assert(keys =~= token_file_keys());
        let values = seq![a.access_token, a.refresh_token, e, "IdC"@, a.provider, a.region, a.client_id_hash];
        assert(string_object(p.token, keys, values));
        lemma_string_member(p.token, keys, values, 0);
        lemma_string_member(p.token, keys, values, 1);
        lemma_string_member(p.token, keys, values, 2);
        lemma_string_member(p.token, keys, values, 3);
        lemma_string_member(p.token, keys, values, 4);
        lemma_string_member(p.token, keys, values, 5);
        lemma_string_member(p.token, keys, values, 6);
    }
}

/// An import takes the e-mail of the JWT's `email` claim whenever that claim
/// is text, before any other source.
pub proof fn import_takes_email_claim(v: AccountView, c: JsonValue, e: Seq<char>)
    requires
        as_str_spec(index_spec(c, "email"@)) == Some(e),
    ensures
        with_identity(v, Some(c)).email == e,
{
    crate::claims::jwt_email_claim_wins(c);
}

/// An import starts from the token file's own login: its tokens, method,
/// provider and client hash as they are, its region (`us-east-1` when empty),
/// and no identity, profile or usage yet.
pub proof fn import_starts_from_the_token_file(tok: LocalToken)
    ensures
        imported_base(tok).access_token == tok.access_token@,
        imported_base(tok).refresh_token == tok.refresh_token@,
        imported_base(tok).auth_method == tok.auth_method@,
        imported_base(tok).provider == tok.provider@,
        imported_base(tok).client_id_hash == tok.client_id_hash@,
        tok.region@.len() > 0 ==> imported_base(tok).region == tok.region@,
        tok.region@.len() == 0 ==> imported_base(tok).region == "us-east-1"@,
        imported_base(tok).email.len() == 0 && imported_base(tok).user_id.len() == 0,
        imported_base(tok).profile_arn.len() == 0,
        imported_base(tok).client_id.len() == 0 && imported_base(tok).client_secret.len() == 0,
{
}

/// The client id and secret an import takes are the registration file's
/// `clientId` and `clientSecret` texts; nothing else fills them.
pub proof fn import_takes_registered_client(v: AccountView, reg: JsonValue)
    ensures
        as_str_spec(index_spec(reg, "clientId"@)) matches Some(c) ==> with_credentials(v, Some(reg)).client_id == c,
        as_str_spec(index_spec(reg, "clientSecret"@)) matches Some(c)
            ==> with_credentials(v, Some(reg)).client_secret == c,
        as_str_spec(index_spec(reg, "clientId"@)) is None ==> with_credentials(v, Some(reg)).client_id.len() == 0,
        with_credentials(v, None).client_id.len() == 0 && with_credentials(v, None).client_secret.len() == 0,
        with_credentials(v, Some(reg)).access_token == v.access_token
            && with_credentials(v, Some(reg)).email == v.email,
{
}

/// A usage answer applied at import replaces the account's counts, overage
/// state and plan with the answer's, records the query time, and leaves its
/// login untouched; its e-mail is taken only when the account has none.
pub proof fn import_usage_replaces_counts(v: AccountView, u: UsageInfo, t: Seq<char>)
    ensures
        with_usage(v, u, t).usage_limit == u.usage_limit,
        with_usage(v, u, t).current_usage == u.current_usage,
        with_usage(v, u, t).overage_cap == u.overage_cap,
        with_usage(v, u, t).current_overages == u.current_overages,
        with_usage(v, u, t).overage_status == u.overage_status@,
        with_usage(v, u, t).overage_charges_bits == u.overage_charges_bits,
        with_usage(v, u, t).subscription == u.subscription@,
        with_usage(v, u, t).last_query_time == Some(t),
        with_usage(v, u, t).access_token == v.access_token && with_usage(v, u, t).refresh_token == v.refresh_token,
        with_usage(v, u, t).profile_arn == v.profile_arn && with_usage(v, u, t).user_id == v.user_id,
        v.email.len() == 0 ==> with_usage(v, u, t).email == u.email@,
{
}

} // verus!
