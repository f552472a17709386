use kiro_accounts::json::{json_str_at, JsonValue};
use kiro_accounts::local::{
    client_credentials, client_reg_document, client_reg_path, import_on_claims, import_on_client_reg,
    import_on_profiles, import_on_usage, import_on_usage_at, import_start, inject_plan, inject_plan_at, join_path, InjectError, local_refresh_on_client_reg,
    local_refresh_on_injected, local_refresh_on_refresh, local_refresh_start, local_token_info, token_path,
    truncate_str, ImportAction, LocalRefreshAction, LocalToken,
};
use kiro_accounts::api::{fixed_profile_arn, RefreshRequest, Tokens, UsageInfo};
use kiro_accounts::models::Account;
use kiro_accounts::store::{
    account_from_row, export_entry, find_account, get_account, parse_json_account, upsert_after_email_lookup,
    upsert_after_user_lookup, upsert_start, AccountRow, UpsertAction,
};

fn s(x: &str) -> JsonValue {
    JsonValue::Str(x.to_string())
}

fn obj(fields: Vec<(&str, JsonValue)>) -> JsonValue {
    JsonValue::Object(fields.into_iter().map(|(k, v)| (k.to_string(), v)).collect())
}

fn empty_row(id: i64) -> AccountRow {
    AccountRow {
        id,
        email: None,
        provider: None,
        auth_method: None,
        access_token: None,
        refresh_token: None,
        expires_at: None,
        client_id: None,
        client_secret: None,
        client_id_hash: None,
        region: None,
        profile_arn: None,
        user_id: None,
        usage_limit: None,
        current_usage: None,
        overage_cap: None,
        current_overages: None,
        overage_status: None,
        overage_charges_bits: None,
        subscription: String::new(),
        last_query_time: None,
    }
}

fn token(method: &str, provider: &str, access: &str, hash: &str, region: &str) -> LocalToken {
    LocalToken {
        access_token: access.to_string(),
        refresh_token: "rt".to_string(),
        expires_at: "2024-01-31T12:34:56.789Z".to_string(),
        auth_method: method.to_string(),
        provider: provider.to_string(),
        region: region.to_string(),
        client_id_hash: hash.to_string(),
    }
}

#[test]
fn rows_with_nulls_get_defaults() {
    let a = account_from_row(empty_row(7));
    assert_eq!(a.id, 7);
    assert_eq!(a.email, "");
    assert_eq!(a.region, "us-east-1");
    assert_eq!(a.usage_limit, 0);
    assert_eq!(a.overage_charges_bits, 0);
    assert_eq!(a.last_query_time, None);
    let mut row = empty_row(8);
    row.region = Some(String::new());
    row.usage_limit = Some(500);
    row.overage_charges_bits = Some(2.5f64.to_bits());
    row.last_query_time = Some("2024-01-01 00:00:00".to_string());
    let b = account_from_row(row);
    assert_eq!(b.region, "");
    assert_eq!(b.usage_limit, 500);
    assert_eq!(f64::from_bits(b.overage_charges_bits), 2.5);
    assert_eq!(b.last_query_time, Some("2024-01-01 00:00:00".to_string()));
}

#[test]
fn find_account_takes_first_match() {
    let mut a = Account::blank();
    a.id = 3;
    a.email = "first".to_string();
    let mut b = Account::blank();
    b.id = 3;
    b.email = "second".to_string();
    let list = vec![Account::blank(), a, b];
    assert_eq!(find_account(&list, 3), Some(1));
    assert_eq!(find_account(&list, 9), None);
    assert_eq!(get_account(&list, 3).map(|x| x.email), Some("first".to_string()));
    assert!(get_account(&list, 9).is_none());
}

#[test]
fn upsert_matches_user_id_then_email() {
    let mut a = Account::blank();
    a.user_id = "u1".to_string();
    a.email = "e@x".to_string();
    assert!(matches!(upsert_start(&a), UpsertAction::FindByUserId(ref u) if u == "u1"));
    assert!(matches!(upsert_after_user_lookup(&a, Some(4)), UpsertAction::Update(4)));
    assert!(matches!(upsert_after_user_lookup(&a, None), UpsertAction::FindByEmail(ref e) if e == "e@x"));
    assert!(matches!(upsert_after_email_lookup(Some(5)), UpsertAction::Update(5)));
    assert!(matches!(upsert_after_email_lookup(None), UpsertAction::Insert));
    let mut b = Account::blank();
    b.email = "e@x".to_string();
    assert!(matches!(upsert_start(&b), UpsertAction::FindByEmail(_)));
    assert!(matches!(upsert_start(&Account::blank()), UpsertAction::Insert));
    let mut c = Account::blank();
    c.user_id = "u2".to_string();
    assert!(matches!(upsert_after_user_lookup(&c, None), UpsertAction::Insert));
}

#[test]
fn export_then_import_keeps_exchanged_fields() {
    let mut a = Account::blank();
    a.id = 12;
    a.email = "e@x".to_string();
    a.provider = "Github".to_string();
    a.auth_method = "social".to_string();
    a.access_token = "at".to_string();
    a.refresh_token = "rt".to_string();
    a.expires_at = "2024-01-31 12:00:00".to_string();
    a.client_id = "cid".to_string();
    a.client_secret = "sec".to_string();
    a.client_id_hash = "h".to_string();
    a.profile_arn = "arn".to_string();
    a.user_id = "u".to_string();
    a.usage_limit = 9;
    let v = export_entry(&a);
    assert_eq!(json_str_at(&v, "authMethod"), Some("social".to_string()));
    let b = parse_json_account(&v);
    assert_eq!(b.email, a.email);
    assert_eq!(b.provider, a.provider);
    assert_eq!(b.auth_method, a.auth_method);
    assert_eq!(b.access_token, a.access_token);
    assert_eq!(b.refresh_token, a.refresh_token);
    assert_eq!(b.expires_at, a.expires_at);
    assert_eq!(b.client_id, a.client_id);
    assert_eq!(b.client_secret, a.client_secret);
    assert_eq!(b.client_id_hash, a.client_id_hash);
    assert_eq!(b.region, "us-east-1");
    assert_eq!(b.profile_arn, a.profile_arn);
    assert_eq!(b.user_id, a.user_id);
    assert_eq!(b.id, 0);
    assert_eq!(b.usage_limit, 0);
}

#[test]
fn parse_json_account_ignores_non_text() {
    let v = obj(vec![("email", JsonValue::Null), ("region", s("ap-south-1")), ("provider", s("Google"))]);
    let a = parse_json_account(&v);
    assert_eq!(a.email, "");
    assert_eq!(a.region, "ap-south-1");
    assert_eq!(a.provider, "Google");
}

#[test]
fn paths() {
    assert_eq!(join_path("/home/u/.aws/sso/cache", "x.json"), "/home/u/.aws/sso/cache/x.json");
    assert_eq!(join_path("/cache/", "x.json"), "/cache/x.json");
    assert_eq!(join_path("", "x.json"), "x.json");
    assert_eq!(join_path("/cache", "/abs.json"), "/abs.json");
    assert_eq!(token_path("/c"), "/c/kiro-auth-token.json");
    assert_eq!(client_reg_path("/c", "abc"), "/c/abc.json");
}

#[test]
fn client_credentials_cases() {
    let reg = Some(obj(vec![("clientId", s("cid")), ("clientSecret", s("sec"))]));
    assert_eq!(client_credentials(&reg), ("cid".to_string(), "sec".to_string()));
    assert_eq!(client_credentials(&None), (String::new(), String::new()));
}

#[test]
fn import_idc_flow() {
    let tok = token("IdC", "Enterprise", "h.eyJlbWFpbCI6ImFAYi5jIiwic3ViIjoidTEifQ.s", "hash1", "");
    let step = import_start(&tok);
    assert_eq!(step.account.expires_at, "2024-01-31 12:34:56");
    assert_eq!(step.account.region, "us-east-1");
    assert!(matches!(step.next, ImportAction::ReadClientReg(ref h) if h == "hash1"));
    let reg = Some(obj(vec![("clientId", s("cid")), ("clientSecret", s("sec"))]));
    let step = import_on_client_reg(step.account, &reg);
    assert_eq!(step.account.client_id, "cid");
    assert!(matches!(step.next, ImportAction::ParseClaims(_)));
    let claims = Some(obj(vec![("email", s("a@b.c")), ("sub", s("u1"))]));
    let step = import_on_claims(step.account, &claims);
    assert_eq!(step.account.email, "a@b.c");
    assert_eq!(step.account.user_id, "u1");
    assert!(matches!(step.next, ImportAction::ListProfiles(_)));
    let step = import_on_profiles(step.account, Some("arn:p".to_string()));
    assert!(matches!(
        step.next,
        ImportAction::QueryUsage { ref profile_arn, email_required, .. } if profile_arn == "arn:p" && email_required
    ));
    let usage = UsageInfo {
        usage_limit: 100,
        current_usage: 1,
        overage_cap: 2,
        current_overages: 3,
        overage_status: "DISABLED".to_string(),
        overage_charges_bits: 0,
        subscription: "KIRO PRO".to_string(),
        email: "other@x".to_string(),
    };
    let step = import_on_usage(step.account, Some(usage));
    assert!(matches!(step.next, ImportAction::Done));
    assert_eq!(step.account.email, "a@b.c");
    assert_eq!(step.account.usage_limit, 100);
    assert_eq!(step.account.subscription, "KIRO PRO");
    assert_eq!(step.account.last_query_time.map(|t| t.len()), Some(19));
}

#[test]
fn import_social_without_claims_or_profile() {
    let tok = token("social", "Github", "opaque-token", "", "eu-west-1");
    let step = import_start(&tok);
    assert_eq!(step.account.region, "eu-west-1");
    assert_eq!(step.account.profile_arn, fixed_profile_arn("Github"));
    assert!(matches!(step.next, ImportAction::QueryUsage { .. }));
    let step = import_on_usage(step.account, None);
    assert!(matches!(step.next, ImportAction::Done));
    assert_eq!(step.account.email, "Github_social_local");
    assert_eq!(step.account.last_query_time, None);
    let tok = token("social", "Other", "opaque", "", "");
    let step = import_start(&tok);
    let step = import_on_profiles(step.account, None);
    assert!(matches!(step.next, ImportAction::Done));
    assert_eq!(step.account.email, "Other_social_local");
}

#[test]
fn inject_plans() {
    let mut a = Account::blank();
    a.auth_method = "social".to_string();
    a.provider = "Github".to_string();
    a.access_token = "at".to_string();
    a.refresh_token = "rt".to_string();
    a.expires_at = "2024-01-31 12:00:00".to_string();
    let p = inject_plan(&a).ok().expect("social is injectable");
    assert_eq!(json_str_at(&p.token, "expiresAt"), Some("2024-01-31T12:00:00.000Z".to_string()));
    assert_eq!(json_str_at(&p.token, "authMethod"), Some("social".to_string()));
    assert_eq!(json_str_at(&p.token, "region"), None);
    assert!(p.client_reg.is_none());
    a.auth_method = "IdC".to_string();
    a.client_id = "cid".to_string();
    a.client_secret = "sec".to_string();
    a.client_id_hash = "hh".to_string();
    a.region = "us-east-1".to_string();
    let p = inject_plan(&a).ok().expect("IdC is injectable");
    assert_eq!(json_str_at(&p.token, "clientIdHash"), Some("hh".to_string()));
    let reg = p.client_reg.expect("registration is written");
    assert_eq!(reg.file_name, "hh.json");
    a.auth_method = "password".to_string();
    match inject_plan(&a) {
        Err(InjectError::UnsupportedMethod(m)) => assert_eq!(m, "不支持的认证方式: password"),
        _ => panic!("password logins are not injectable"),
    }
    a.auth_method = "Social".to_string();
    assert!(matches!(inject_plan(&a), Err(InjectError::UnsupportedMethod(_))));
    a.auth_method = String::new();
    assert!(matches!(inject_plan(&a), Err(InjectError::UnsupportedMethod(_))));
    a.auth_method = "social".to_string();
    a.expires_at = "unreadable".to_string();
    // 2024-01-31 12:00:00 UTC; the fallback is an hour later.
    let p = inject_plan_at(&a, (1706702400, 0)).ok().expect("social is injectable");
    assert_eq!(json_str_at(&p.token, "expiresAt"), Some("2024-01-31T13:00:00.000Z".to_string()));
    let doc = client_reg_document("cid", "sec", "2024-01-31T12:00:00.000Z");
    assert_eq!(json_str_at(&doc, "clientSecret"), Some("sec".to_string()));
}

#[test]
fn local_refresh_flow() {
    match local_refresh_start(&None).next {
        LocalRefreshAction::Reply(Err(m)) => assert_eq!(m, "本地无 Token"),
        _ => panic!("a missing token file is refused"),
    }
    let tok = token("IdC", "Enterprise", "at", "hash1", "");
    let step = local_refresh_start(&Some(tok));
    assert!(matches!(step.next, LocalRefreshAction::ReadClientReg(_)));
    let missing = local_refresh_on_client_reg(step.account.clone(), &None);
    match missing.next {
        LocalRefreshAction::Reply(Err(m)) => assert_eq!(m, "缺少 clientRegistration 文件"),
        _ => panic!("a missing registration is refused"),
    }
    let unreadable = local_refresh_on_client_reg(step.account.clone(), &Some(None));
    assert!(matches!(unreadable.next, LocalRefreshAction::Reply(Err(_))));
    let reg = Some(Some(obj(vec![("clientId", s("cid")), ("clientSecret", s("sec"))])));
    let step = local_refresh_on_client_reg(step.account, &reg);
    assert!(matches!(step.next, LocalRefreshAction::SendRefresh(RefreshRequest::Idc { .. })));
    let t = Tokens { access_token: "a2".to_string(), refresh_token: "r2".to_string(), expires_at: "e2".to_string() };
    let step = local_refresh_on_refresh(step.account, Ok(t));
    assert!(matches!(step.next, LocalRefreshAction::Inject));
    assert_eq!(step.account.access_token, "a2");
    let failed = local_refresh_on_refresh(Account::blank(), Err("boom".to_string()));
    assert!(matches!(failed.next, LocalRefreshAction::Reply(Err(ref m)) if m == "boom"));
    assert_eq!(local_refresh_on_injected(Ok(())), Ok("本地 Token 已刷新".to_string()));
    assert_eq!(local_refresh_on_injected(Err("disk".to_string())), Err("disk".to_string()));
}

#[test]
fn truncate_and_token_info() {
    assert_eq!(truncate_str("abc", 5), "abc");
    assert_eq!(truncate_str("abcdef", 3), "abc…");
    assert_eq!(truncate_str("héllo", 3), "hé…");
    let mut tok = token("social", "Github", &"a".repeat(70), "", "");
    tok.expires_at = "2000-01-01 00:00:00".to_string();
    let info = local_token_info(&tok);
    assert_eq!(info.access_token_preview, format!("{}…", "a".repeat(60)));
    assert_eq!(info.refresh_token_preview, "rt");
    assert!(info.is_expired);
    assert_eq!(info.provider, "Github");
}

#[test]
fn import_on_usage_at_records_query_time() {
    let mut a = Account::blank();
    a.provider = "Github".to_string();
    a.auth_method = "social".to_string();
    let usage = UsageInfo {
        usage_limit: 5,
        current_usage: 1,
        overage_cap: 0,
        current_overages: 0,
        overage_status: String::new(),
        overage_charges_bits: 0,
        subscription: String::new(),
        email: "u@x".to_string(),
    };
    let step = import_on_usage_at(a, Some(usage), "2024-01-31 12:00:00");
    assert!(matches!(step.next, ImportAction::Done));
    assert_eq!(step.account.email, "u@x");
    assert_eq!(step.account.last_query_time, Some("2024-01-31 12:00:00".to_string()));
}
