use kiro_accounts::api::{RefreshRequest, Tokens, UsageInfo};
use kiro_accounts::models::Account;
use kiro_accounts::overage::{
    overage_begin, overage_begin_at, overage_done, overage_on_enabled, overage_on_profiles, overage_on_refresh, overage_with_token,
    OverageAction, ACCOUNT_NOT_FOUND,
};
use kiro_accounts::sync::{
    auto_refresh_skips, auto_refresh_summary, fail_line, health_on_refresh, health_start, health_start_at,
    health_summary, ok_line,
    sync_after_tokens_stored, sync_after_usage_stored, sync_on_refresh, sync_on_usage, sync_start, HealthAction,
    SyncAction,
};

fn tokens() -> Tokens {
    Tokens { access_token: "new-at".to_string(), refresh_token: "new-rt".to_string(), expires_at: "e".to_string() }
}

fn social(email: &str) -> Account {
    let mut a = Account::blank();
    a.email = email.to_string();
    a.auth_method = "social".to_string();
    a.provider = "Github".to_string();
    a.refresh_token = "rt".to_string();
    a.access_token = "at".to_string();
    a
}

fn usage() -> UsageInfo {
    UsageInfo {
        usage_limit: 1,
        current_usage: 0,
        overage_cap: 0,
        current_overages: 0,
        overage_status: String::new(),
        overage_charges_bits: 0,
        subscription: String::new(),
        email: String::new(),
    }
}

#[test]
fn report_lines_and_summaries() {
    assert_eq!(ok_line("a@b"), "✓ a@b");
    assert_eq!(fail_line("a@b", "boom"), "✗ a@b: boom");
    assert_eq!(auto_refresh_summary(2, 5), "自动刷新: 2/5");
    assert_eq!(health_summary(3, 1, 0), "有效 3, 已刷新 1, 无效 0");
}

#[test]
fn sync_success_path() {
    let a = social("a@b");
    assert!(matches!(sync_start(&a), SyncAction::SendRefresh(RefreshRequest::Social { .. })));
    let t = tokens();
    match sync_on_refresh(&a, Ok(t)) {
        SyncAction::StoreTokens(t) => {
            match sync_after_tokens_stored(&a, &t) {
                SyncAction::QueryUsage { access_token, profile_arn, email_required } => {
                    assert!(!email_required);
                    assert_eq!(access_token, "new-at");
                    assert_eq!(profile_arn, "arn:aws:codewhisperer:us-east-1:699475941385:profile/EHGA3GRVQMUK");
                }
                _ => panic!("the usage is queried"),
            }
        }
        _ => panic!("tokens are stored"),
    }
    assert!(matches!(sync_on_usage(&a, Some(usage())), SyncAction::StoreUsage(_)));
    match sync_after_usage_stored(&a) {
        SyncAction::Finished { ok, line } => {
            assert!(ok);
            assert_eq!(line, "✓ a@b");
        }
        _ => panic!("finished"),
    }
    match sync_on_usage(&a, None) {
        SyncAction::Finished { ok, .. } => assert!(ok),
        _ => panic!("a failed usage query still succeeds"),
    }
}

#[test]
fn sync_failures() {
    let mut a = social("a@b");
    match sync_on_refresh(&a, Err("network".to_string())) {
        SyncAction::Finished { ok, line } => {
            assert!(!ok);
            assert_eq!(line, "✗ a@b: network");
        }
        _ => panic!("finished"),
    }
    a.auth_method = "weird".to_string();
    match sync_start(&a) {
        SyncAction::Finished { ok, line } => {
            assert!(!ok);
            assert_eq!(line, "✗ a@b: 未知认证方式: weird");
        }
        _ => panic!("refused"),
    }
    let mut b = social("b@c");
    b.provider = "Enterprise".to_string();
    match sync_after_tokens_stored(&b, &tokens()) {
        SyncAction::Finished { ok, line } => {
            assert!(ok);
            assert_eq!(line, "✓ b@c");
        }
        _ => panic!("no profile to query"),
    }
}

#[test]
fn auto_refresh_skips_missing_refresh_token() {
    let mut a = social("a@b");
    assert!(!auto_refresh_skips(&a));
    a.refresh_token = String::new();
    assert!(auto_refresh_skips(&a));
}

#[test]
fn health_check_steps() {
    let mut a = social("a@b");
    a.expires_at = "9999-01-01 00:00:00".to_string();
    assert!(matches!(health_start(&a), HealthAction::Valid));
    a.expires_at = "2000-01-01 00:00:00".to_string();
    assert!(matches!(health_start(&a), HealthAction::SendRefresh(_)));
    a.auth_method = "weird".to_string();
    assert!(matches!(health_start(&a), HealthAction::Failed));
    assert!(matches!(health_on_refresh(Ok(tokens())), HealthAction::StoreTokens(_)));
    assert!(matches!(health_on_refresh(Err("x".to_string())), HealthAction::Failed));
}

#[test]
fn overage_passes_by_enabled_and_free() {
    let mut a = social("a@b");
    a.overage_status = "enabled".to_string();
    match overage_begin(&a) {
        OverageAction::Reply(Ok(m)) => assert_eq!(m, "a@b 超额已开启(跳过)"),
        _ => panic!("already enabled"),
    }
    a.overage_status = String::new();
    a.subscription = "KIRO FREE".to_string();
    match overage_begin(&a) {
        OverageAction::Reply(Ok(m)) => assert_eq!(m, "a@b Free订阅不支持超额(跳过)"),
        _ => panic!("free plan"),
    }
    a.subscription = "Free to Pro".to_string();
    a.expires_at = "9999-01-01 00:00:00".to_string();
    assert!(matches!(overage_begin(&a), OverageAction::EnableOverage { .. }));
    assert_eq!(ACCOUNT_NOT_FOUND, "账号不存在");
}

#[test]
fn overage_token_and_profile_steps() {
    let mut a = social("a@b");
    a.expires_at = "2000-01-01 00:00:00".to_string();
    assert!(matches!(overage_begin(&a), OverageAction::SendRefresh(_)));
    assert!(matches!(overage_on_refresh(&a, Ok(tokens())), OverageAction::StoreTokens(_)));
    match overage_on_refresh(&a, Err("boom".to_string())) {
        OverageAction::Reply(Err(m)) => assert_eq!(m, "a@b: boom"),
        _ => panic!("refresh error"),
    }
    a.provider = "Enterprise".to_string();
    assert!(matches!(overage_with_token(&a, "tok"), OverageAction::ListProfiles(ref t) if t == "tok"));
    match overage_on_profiles(&a, "tok", None) {
        OverageAction::Reply(Err(m)) => assert_eq!(m, "a@b: 无法获取 profileArn"),
        _ => panic!("no profile"),
    }
    match overage_on_profiles(&a, "tok", Some("arn:x".to_string())) {
        OverageAction::EnableOverage { access_token, profile_arn } => {
            assert_eq!(access_token, "tok");
            assert_eq!(profile_arn, "arn:x");
        }
        _ => panic!("enable"),
    }
    a.profile_arn = "arn:own".to_string();
    assert!(matches!(overage_with_token(&a, "tok"), OverageAction::EnableOverage { ref profile_arn, .. } if profile_arn == "arn:own"));
}

#[test]
fn overage_enabled_and_done() {
    let mut a = social("a@b");
    a.usage_limit = 10;
    a.subscription = "KIRO PRO".to_string();
    match overage_on_enabled(&a, Ok(())) {
        OverageAction::StoreUsage(u) => {
            assert_eq!(u.overage_status, "ENABLED");
            assert_eq!(u.usage_limit, 10);
            assert_eq!(u.subscription, "KIRO PRO");
        }
        _ => panic!("usage stored"),
    }
    match overage_on_enabled(&a, Err("denied".to_string())) {
        OverageAction::Reply(Err(m)) => assert_eq!(m, "a@b: denied"),
        _ => panic!("error"),
    }
    match overage_done(&a) {
        OverageAction::Reply(Ok(m)) => assert_eq!(m, "a@b 超额已开启"),
        _ => panic!("done"),
    }
}

// 2024-01-31 12:00:00 as seconds since 1970-01-01 00:00:00.
const NOON: i64 = 1706702400;

#[test]
fn health_start_at_fixed_clock() {
    let mut a = social("a@b");
    a.expires_at = "2024-01-31 12:10:00".to_string();
    assert!(matches!(health_start_at(&a, (NOON, 0)), HealthAction::Valid));
    a.expires_at = "2024-01-31 12:03:00".to_string();
    assert!(matches!(health_start_at(&a, (NOON, 0)), HealthAction::SendRefresh(_)));
}

#[test]
fn overage_begin_at_fixed_clock() {
    let mut a = social("a@b");
    a.expires_at = "2024-01-31 12:10:00".to_string();
    match overage_begin_at(&a, (NOON, 0)) {
        OverageAction::EnableOverage { access_token, .. } => assert_eq!(access_token, "at"),
        _ => panic!("a valid login is used as it is"),
    }
    a.expires_at = "2024-01-31 11:00:00".to_string();
    assert!(matches!(overage_begin_at(&a, (NOON, 0)), OverageAction::SendRefresh(_)));
}
