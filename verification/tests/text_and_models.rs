use kiro_accounts::models::{format_subscription, subscription_label, Account};
use kiro_accounts::text::{
    chars_contain, chars_of, text_concat, decimal_of_i64, decimal_of_usize, string_of, text_contains, text_eq,
};

#[test]
fn format_subscription_empty_is_dash() {
    assert_eq!(format_subscription(""), "-");
}

#[test]
fn format_subscription_table_entries() {
    assert_eq!(format_subscription("KIRO_PRO_PLUS"), "Pro+");
    assert_eq!(format_subscription("kiro pro plus"), "Pro+");
    assert_eq!(format_subscription("Kiro Pro"), "Pro");
    assert_eq!(format_subscription("kiro_free"), "Free");
    assert_eq!(format_subscription("KIRO POWER"), "Power");
    assert_eq!(format_subscription("Q_DEVELOPER_STANDALONE_PRO_PLUS"), "Pro+");
    assert_eq!(format_subscription("Q Developer Standalone Pro"), "Pro");
    assert_eq!(format_subscription("q_developer_standalone_free"), "Free");
    assert_eq!(format_subscription("Q_DEVELOPER_STANDALONE_POWER"), "Power");
    assert_eq!(format_subscription("Q_DEVELOPER_STANDALONE"), "Free");
}

#[test]
fn format_subscription_fallbacks() {
    assert_eq!(format_subscription("Enterprise Pro"), "Pro");
    assert_eq!(format_subscription("trial free tier"), "Free");
    assert_eq!(format_subscription("Team"), "Team");
    assert_eq!(format_subscription("  "), "  ");
}

#[test]
fn subscription_label_uses_given_uppercase() {
    // The raw text is returned untouched when the uppercase form matches nothing.
    assert_eq!(subscription_label("kiro pro", "NOTHING"), "kiro pro");
    assert_eq!(subscription_label("x", "A KIRO PRO B"), "Pro");
    assert_eq!(subscription_label("", "KIRO_PRO"), "-");
}

#[test]
fn usage_str_is_current_over_limit() {
    let mut a = Account::blank();
    a.current_usage = 5;
    a.usage_limit = 100;
    assert_eq!(a.usage_str(), "5/100");
    a.current_usage = -3;
    a.usage_limit = 0;
    assert_eq!(a.usage_str(), "-3/0");
}

#[test]
fn subscription_display_uses_format() {
    let mut a = Account::blank();
    a.subscription = "KIRO FREE".to_string();
    assert_eq!(a.subscription_display(), "Free");
    a.subscription = String::new();
    assert_eq!(a.subscription_display(), "-");
}

#[test]
fn decimal_edges() {
    assert_eq!(decimal_of_i64(0), "0");
    assert_eq!(decimal_of_i64(10), "10");
    assert_eq!(decimal_of_i64(-7), "-7");
    assert_eq!(decimal_of_i64(i64::MIN), "-9223372036854775808");
    assert_eq!(decimal_of_i64(i64::MAX), "9223372036854775807");
    assert_eq!(decimal_of_usize(1234), "1234");
}

#[test]
fn text_helpers() {
    assert!(text_eq("abc", "abc"));
    assert!(!text_eq("abc", "abd"));
    assert!(text_contains("hello world", "o w"));
    assert!(text_contains("abc", ""));
    assert!(!text_contains("ab", "abc"));
    assert!(chars_contain(&chars_of("xxPROxx"), &chars_of("PRO")));
    assert_eq!(text_concat("a", "é"), "aé");
    assert_eq!(string_of(&vec!['h', 'é']), "hé");
}

#[test]
fn account_clone_keeps_fields() {
    let mut a = Account::blank();
    a.email = "a@b.c".to_string();
    a.last_query_time = Some("t".to_string());
    let b = a.clone();
    assert_eq!(b.email, "a@b.c");
    assert_eq!(b.last_query_time, Some("t".to_string()));
}

#[test]
fn plan_label_depends_on_normalized_text() {
    assert_eq!(format_subscription("kiro pro"), format_subscription("KIRO_PRO"));
    assert_eq!(format_subscription("Q Developer Standalone"), format_subscription("q_developer_standalone"));
    assert_eq!(format_subscription("kiro pro"), "Pro");
}
