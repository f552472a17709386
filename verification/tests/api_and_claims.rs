use kiro_accounts::api::{
    first_profile_arn, fixed_profile_arn, idc_refresh_url, list_profiles_url, parse_usage, refresh_plan,
    set_preference_url, social_refresh_url, usage_profile, usage_url, RefreshError, RefreshRequest,
};
use kiro_accounts::claims::{
    jwt_identity, second_dot_part, secret_expiry_after_payload, secret_expiry_after_serialized,
    secret_expiry_start, token_payload, SecretExpiryStep,
};
use kiro_accounts::json::{json_get, json_i64_at, json_str_at, JsonNumber, JsonValue};
use kiro_accounts::models::Account;

fn s(x: &str) -> JsonValue {
    JsonValue::Str(x.to_string())
}

fn num(x: i64) -> JsonValue {
    JsonValue::Number(JsonNumber { int: Some(x), float_bits: (x as f64).to_bits() })
}

fn float(x: f64) -> JsonValue {
    JsonValue::Number(JsonNumber { int: None, float_bits: x.to_bits() })
}

fn obj(fields: Vec<(&str, JsonValue)>) -> JsonValue {
    JsonValue::Object(fields.into_iter().map(|(k, v)| (k.to_string(), v)).collect())
}

#[test]
fn fixed_profile_arns() {
    assert_eq!(fixed_profile_arn("BuilderId"), "arn:aws:codewhisperer:us-east-1:638616132270:profile/AAAACCCCXXXX");
    assert_eq!(fixed_profile_arn("Github"), "arn:aws:codewhisperer:us-east-1:699475941385:profile/EHGA3GRVQMUK");
    assert_eq!(fixed_profile_arn("Google"), fixed_profile_arn("Github"));
    assert_eq!(fixed_profile_arn("Enterprise"), "");
    assert_eq!(fixed_profile_arn("github"), "");
}

#[test]
fn endpoint_addresses() {
    assert_eq!(social_refresh_url(), "https://prod.us-east-1.auth.desktop.kiro.dev/refreshToken");
    assert_eq!(idc_refresh_url("eu-west-1"), "https://oidc.eu-west-1.amazonaws.com/token");
    assert_eq!(list_profiles_url(), "https://q.us-east-1.amazonaws.com/ListAvailableProfiles");
    assert_eq!(set_preference_url(), "https://q.us-east-1.amazonaws.com/setUserPreference");
}

#[test]
fn usage_url_form_encodes_the_profile() {
    assert_eq!(
        usage_url("arn:aws:codewhisperer:us-east-1:638616132270:profile/AAAACCCCXXXX", true),
        "https://q.us-east-1.amazonaws.com/getUsageLimits?profileArn=arn%3Aaws%3Acodewhisperer%3Aus-east-1%3A638616132270%3Aprofile%2FAAAACCCCXXXX&isEmailRequired=true"
    );
    assert_eq!(usage_url("a b*._-~é", false), "https://q.us-east-1.amazonaws.com/getUsageLimits?profileArn=a+b*._-%7E%C3%A9");
}

#[test]
fn refresh_plan_social() {
    let mut a = Account::blank();
    a.auth_method = "social".to_string();
    a.refresh_token = "rt".to_string();
    match refresh_plan(&a) {
        Ok(RefreshRequest::Social { refresh_token }) => assert_eq!(refresh_token, "rt"),
        _ => panic!("expected a social refresh"),
    }
}

#[test]
fn refresh_plan_idc_defaults_region() {
    let mut a = Account::blank();
    a.auth_method = "IdC".to_string();
    a.client_id = "cid".to_string();
    a.client_secret = "sec".to_string();
    a.refresh_token = "rt".to_string();
    match refresh_plan(&a) {
        Ok(RefreshRequest::Idc { client_id, client_secret, refresh_token, region }) => {
            assert_eq!(client_id, "cid");
            assert_eq!(client_secret, "sec");
            assert_eq!(refresh_token, "rt");
            assert_eq!(region, "us-east-1");
        }
        _ => panic!("expected an IdC refresh"),
    }
    a.region = "eu-central-1".to_string();
    match refresh_plan(&a) {
        Ok(RefreshRequest::Idc { region, .. }) => assert_eq!(region, "eu-central-1"),
        _ => panic!("expected an IdC refresh"),
    }
}

#[test]
fn refresh_plan_errors() {
    let mut a = Account::blank();
    a.auth_method = "IdC".to_string();
    a.client_id = "cid".to_string();
    match refresh_plan(&a) {
        Err(e @ RefreshError::MissingClientCredentials) => assert_eq!(e.message(), "缺少 clientId/clientSecret"),
        _ => panic!("expected missing credentials"),
    }
    a.auth_method = "password".to_string();
    match refresh_plan(&a) {
        Err(e) => assert_eq!(e.message(), "未知认证方式: password"),
        _ => panic!("expected an unknown method"),
    }
}

#[test]
fn json_reading() {
    let v = obj(vec![("a", num(1)), ("b", s("x")), ("a", num(2))]);
    assert!(json_get(&v, "missing").is_none());
    assert_eq!(json_i64_at(&v, "a"), Some(1));
    assert_eq!(json_str_at(&v, "b"), Some("x".to_string()));
    assert_eq!(json_str_at(&v, "a"), None);
    assert!(json_get(&s("x"), "a").is_none());
}

#[test]
fn parse_usage_reads_breakdown_with_fallbacks() {
    let v = obj(vec![
        (
            "usageBreakdownList",
            JsonValue::Array(vec![
                obj(vec![
                    ("usageLimit", float(50.5)),
                    ("usageLimitWithPrecision", num(50)),
                    ("currentUsage", num(7)),
                    ("overageCap", s("10")),
                    ("overageCharges", float(1.25)),
                ]),
                obj(vec![("usageLimit", num(999))]),
            ]),
        ),
        ("subscriptionInfo", obj(vec![("type", s("Q_DEVELOPER_STANDALONE_PRO"))])),
        ("overageConfiguration", obj(vec![("overageStatus", s("ENABLED"))])),
        ("userInfo", obj(vec![("email", s("me@x.io"))])),
    ]);
    let u = parse_usage(&v);
    assert_eq!(u.usage_limit, 50);
    assert_eq!(u.current_usage, 7);
    assert_eq!(u.overage_cap, 0);
    assert_eq!(u.current_overages, 0);
    assert_eq!(f64::from_bits(u.overage_charges_bits), 1.25);
    assert_eq!(u.overage_status, "ENABLED");
    assert_eq!(u.subscription, "Q_DEVELOPER_STANDALONE_PRO");
    assert_eq!(u.email, "me@x.io");
}

#[test]
fn parse_usage_of_empty_answer() {
    let u = parse_usage(&JsonValue::Null);
    assert_eq!(u.usage_limit, 0);
    assert_eq!(u.overage_charges_bits, 0);
    assert_eq!(u.subscription, "");
    assert_eq!(u.email, "");
    let v = obj(vec![("subscriptionInfo", obj(vec![("subscriptionTitle", s("KIRO PRO")), ("type", s("X"))]))]);
    assert_eq!(parse_usage(&v).subscription, "KIRO PRO");
}

#[test]
fn first_profile_arn_takes_first_only() {
    let v = obj(vec![("profiles", JsonValue::Array(vec![obj(vec![("name", s("p"))]), obj(vec![("arn", s("second"))])]))]);
    assert_eq!(first_profile_arn(&v), None);
    let v = obj(vec![("profiles", JsonValue::Array(vec![obj(vec![("arn", s("first"))])]))]);
    assert_eq!(first_profile_arn(&v), Some("first".to_string()));
    assert_eq!(first_profile_arn(&obj(vec![("profiles", JsonValue::Array(vec![]))])), None);
}

#[test]
fn usage_profile_prefers_stored() {
    let mut a = Account::blank();
    a.provider = "Github".to_string();
    assert_eq!(usage_profile(&a), Some(fixed_profile_arn("Github").to_string()));
    a.profile_arn = "mine".to_string();
    assert_eq!(usage_profile(&a), Some("mine".to_string()));
    let b = Account::blank();
    assert_eq!(usage_profile(&b), None);
}

#[test]
fn second_dot_part_cases() {
    assert_eq!(second_dot_part("abc"), None);
    assert_eq!(second_dot_part(""), None);
    assert_eq!(second_dot_part("a.b"), Some("b".to_string()));
    assert_eq!(second_dot_part("a.b.c.d"), Some("b".to_string()));
    assert_eq!(second_dot_part("a..c"), Some(String::new()));
}

#[test]
fn jwt_payload_and_identity() {
    let token = "h.eyJlbWFpbCI6ImFAYi5jIiwic3ViIjoidTEifQ.sig";
    let payload = token_payload(token).expect("payload decodes");
    assert_eq!(payload, br#"{"email":"a@b.c","sub":"u1"}"#.to_vec());
    assert_eq!(token_payload("h.!!!.s"), None);
    assert_eq!(token_payload("nodots"), None);
    let claims = Some(obj(vec![("email", s("a@b.c")), ("sub", s("u1"))]));
    assert_eq!(jwt_identity(&claims), ("a@b.c".to_string(), "u1".to_string()));
    let claims = Some(obj(vec![("email", num(3)), ("preferred_username", s("pu"))]));
    assert_eq!(jwt_identity(&claims), ("pu".to_string(), String::new()));
    assert_eq!(jwt_identity(&None), (String::new(), String::new()));
}

#[test]
fn secret_expiry_steps() {
    let secret = "x.eyJzZXJpYWxpemVkIjogIntcImV4cGlyYXRpb25UaW1lc3RhbXBcIjogMTcwMDAwMDAwMH0ifQ.y";
    match secret_expiry_start(secret) {
        SecretExpiryStep::ParsePayload(b) => {
            assert_eq!(b, br#"{"serialized": "{\"expirationTimestamp\": 1700000000}"}"#.to_vec())
        }
        _ => panic!("expected the payload to be read"),
    }
    let payload = Some(obj(vec![("serialized", s("{\"expirationTimestamp\": 1700000000}"))]));
    match secret_expiry_after_payload(&payload) {
        SecretExpiryStep::ParseSerialized(t) => assert_eq!(t, "{\"expirationTimestamp\": 1700000000}"),
        _ => panic!("expected the serialized text"),
    }
    match secret_expiry_after_payload(&Some(obj(vec![]))) {
        SecretExpiryStep::ParseSerialized(t) => assert_eq!(t, "{}"),
        _ => panic!("expected the default serialized text"),
    }
    let ser = Some(obj(vec![("expirationTimestamp", num(1700000000))]));
    assert_eq!(secret_expiry_after_serialized(&ser), Some("2023-11-14T22:13:20.000Z".to_string()));
    assert_eq!(secret_expiry_after_serialized(&Some(obj(vec![]))), Some("1970-01-01T00:00:00.000Z".to_string()));
    let fallback = secret_expiry_after_serialized(&None).expect("ninety days from now is representable");
    assert_eq!(fallback.len(), 24);
    assert!(fallback.ends_with(".000Z"));
    assert!(matches!(secret_expiry_start("nodots"), SecretExpiryStep::Done(_)));
}
