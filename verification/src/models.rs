//! The stored account record and how its plan name and usage are shown.

use vstd::prelude::*;
use crate::text::{chars_contain, chars_of, chars_replace, text_concat, decimal, decimal_of_i64, has_sub, replace_char, string_of};

verus! {

/// One stored login, as kept in the accounts table.
///
/// `overage_charges_bits` is the IEEE-754 bit pattern of the overage charges
/// (a float in the table); the library carries it without reading it.
pub struct Account {
    pub id: i64,
    pub email: String,
    pub provider: String,
    pub auth_method: String,
    pub access_token: String,
    pub refresh_token: String,
    pub expires_at: String,
    pub client_id: String,
    pub client_secret: String,
    pub client_id_hash: String,
    pub region: String,
    pub profile_arn: String,
    pub user_id: String,
    pub usage_limit: i64,
    pub current_usage: i64,
    pub overage_cap: i64,
    pub current_overages: i64,
    pub overage_status: String,
    pub overage_charges_bits: u64,
    pub subscription: String,
    pub last_query_time: Option<String>,
}

/// The contents of an account: texts as character sequences.
pub struct AccountView {
    pub id: i64,
    pub email: Seq<char>,
    pub provider: Seq<char>,
    pub auth_method: Seq<char>,
    pub access_token: Seq<char>,
    pub refresh_token: Seq<char>,
    pub expires_at: Seq<char>,
    pub client_id: Seq<char>,
    pub client_secret: Seq<char>,
    pub client_id_hash: Seq<char>,
    pub region: Seq<char>,
    pub profile_arn: Seq<char>,
    pub user_id: Seq<char>,
    pub usage_limit: i64,
    pub current_usage: i64,
    pub overage_cap: i64,
    pub current_overages: i64,
    pub overage_status: Seq<char>,
    pub overage_charges_bits: u64,
    pub subscription: Seq<char>,
    pub last_query_time: Option<Seq<char>>,
}

/// The text of an optional string.
pub open spec fn opt_text(s: Option<String>) -> Option<Seq<char>> {
    match s {
        Some(x) => Some(x@),
        None => None,
    }
}

impl View for Account {
    type V = AccountView;

    open spec fn view(&self) -> AccountView {
        AccountView {
            id: self.id,
            email: self.email@,
            provider: self.provider@,
            auth_method: self.auth_method@,
            access_token: self.access_token@,
            refresh_token: self.refresh_token@,
            expires_at: self.expires_at@,
            client_id: self.client_id@,
            client_secret: self.client_secret@,
            client_id_hash: self.client_id_hash@,
            region: self.region@,
            profile_arn: self.profile_arn@,
            user_id: self.user_id@,
            usage_limit: self.usage_limit,
            current_usage: self.current_usage,
            overage_cap: self.overage_cap,
            current_overages: self.current_overages,
            overage_status: self.overage_status@,
            overage_charges_bits: self.overage_charges_bits,
            subscription: self.subscription@,
            last_query_time: opt_text(self.last_query_time),
        }
    }
}

/// The contents of the blank account.
pub open spec fn blank_view() -> AccountView {
    AccountView {
        id: 0,
        email: Seq::empty(),
        provider: Seq::empty(),
        auth_method: Seq::empty(),
        access_token: Seq::empty(),
        refresh_token: Seq::empty(),
        expires_at: Seq::empty(),
        client_id: Seq::empty(),
        client_secret: Seq::empty(),
        client_id_hash: Seq::empty(),
        region: Seq::empty(),
        profile_arn: Seq::empty(),
        user_id: Seq::empty(),
        usage_limit: 0,
        current_usage: 0,
        overage_cap: 0,
        current_overages: 0,
        overage_status: Seq::empty(),
        overage_charges_bits: 0,
        subscription: Seq::empty(),
        last_query_time: None,
    }
}

/// A copy of an optional string that keeps its contents.
fn copy_opt(s: &Option<String>) -> (r: Option<String>)
    ensures
        r == *s,
{
    match s {
        Some(x) => Some(x.clone()),
        None => None,
    }
}

impl Account {
    /// The blank record: empty texts, zero counts, zero charges.
    pub fn blank() -> (a: Account)
        ensures
            a@ == blank_view(),
    {
        Account {
            id: 0,
            email: String::new(),
            provider: String::new(),
            auth_method: String::new(),
            access_token: String::new(),
            refresh_token: String::new(),
            expires_at: String::new(),
            client_id: String::new(),
            client_secret: String::new(),
            client_id_hash: String::new(),
            region: String::new(),
            profile_arn: String::new(),
            user_id: String::new(),
            usage_limit: 0,
            current_usage: 0,
            overage_cap: 0,
            current_overages: 0,
            overage_status: String::new(),
            overage_charges_bits: 0,
            subscription: String::new(),
            last_query_time: None,
        }
    }

    /// The shown usage: `current/limit`, both in decimal.
    pub open spec fn usage_text(self) -> Seq<char> {
        decimal(self.current_usage as int) + seq!['/'] + decimal(self.usage_limit as int)
    }

    /// Usage as `current/limit`.
    pub fn usage_str(&self) -> (s: String)
        ensures
            s@ == self.usage_text(),
    {
        let cur = decimal_of_i64(self.current_usage);
        let lim = decimal_of_i64(self.usage_limit);
        let mut v = chars_of(cur.as_str());
        v.push('/');
        let with_slash = string_of(&v);
        text_concat(with_slash.as_str(), lim.as_str())
    }

    /// The plan name shown for this account.
    pub fn subscription_display(&self) -> (s: String)
        ensures
            s@ == subscription_label_of(self.subscription@, str_upper(self.subscription@)),
    {
        format_subscription(self.subscription.as_str())
    }
}

impl Clone for Account {
    fn clone(&self) -> (r: Self)
        ensures
            r == *self,
    {
        Account {
            id: self.id,
            email: self.email.clone(),
            provider: self.provider.clone(),
            auth_method: self.auth_method.clone(),
            access_token: self.access_token.clone(),
            refresh_token: self.refresh_token.clone(),
            expires_at: self.expires_at.clone(),
            client_id: self.client_id.clone(),
            client_secret: self.client_secret.clone(),
            client_id_hash: self.client_id_hash.clone(),
            region: self.region.clone(),
            profile_arn: self.profile_arn.clone(),
            user_id: self.user_id.clone(),
            usage_limit: self.usage_limit,
            current_usage: self.current_usage,
            overage_cap: self.overage_cap,
            current_overages: self.current_overages,
            overage_status: self.overage_status.clone(),
            overage_charges_bits: self.overage_charges_bits,
            subscription: self.subscription.clone(),
            last_query_time: copy_opt(&self.last_query_time),
        }
    }
}

/// What `str::to_uppercase` returns for a string: the Unicode uppercase
/// mapping, which can change lengths.
pub uninterp spec fn str_upper(s: Seq<char>) -> Seq<char>;

/// What `str::to_lowercase` returns for a string: the Unicode lowercase
/// mapping, which can change lengths.
pub uninterp spec fn str_lower(s: Seq<char>) -> Seq<char>;

/// Trusted: `str::to_uppercase`; the contract says that the result is the
/// uppercase mapping of the input, named `str_upper`, and that it is empty
/// exactly when the input is (every character maps to at least one).
#[verifier::external_body]
pub(crate) fn to_upper(s: &str) -> (r: String)
    ensures
        r@ == str_upper(s@),
        (r@.len() == 0) == (s@.len() == 0),
{
    s.to_uppercase()
}

/// Trusted: `str::to_lowercase`; the contract says only that the result is
/// the lowercase mapping of the input, named `str_lower`.
#[verifier::external_body]
pub(crate) fn to_lower(s: &str) -> (r: String)
    ensures
        r@ == str_lower(s@),
{
    s.to_lowercase()
}

/// The plan name for a raw subscription string `raw` whose uppercase form is
/// `upper`: `-` for an empty string; otherwise the first entry of the plan
/// table whose key occurs in `upper` (spaces read as `_`); otherwise `Pro` or
/// `Free` when those words occur; otherwise `raw` itself.
pub open spec fn subscription_label_of(raw: Seq<char>, upper: Seq<char>) -> Seq<char> {
    let u = replace_char(upper, ' ', '_');
    if raw.len() == 0 {
        "-"@
    } else if has_sub(u, "KIRO_PRO_PLUS"@) {
        "Pro+"@
    } else if has_sub(u, "KIRO_PRO"@) {
        "Pro"@
    } else if has_sub(u, "KIRO_FREE"@) {
        "Free"@
    } else if has_sub(u, "KIRO_POWER"@) {
        "Power"@
    } else if has_sub(u, "Q_DEVELOPER_STANDALONE_PRO_PLUS"@) {
        "Pro+"@
    } else if has_sub(u, "Q_DEVELOPER_STANDALONE_PRO"@) {
        "Pro"@
    } else if has_sub(u, "Q_DEVELOPER_STANDALONE_FREE"@) {
        "Free"@
    } else if has_sub(u, "Q_DEVELOPER_STANDALONE_POWER"@) {
        "Power"@
    } else if has_sub(u, "Q_DEVELOPER_STANDALONE"@) {
        "Free"@
    } else if has_sub(u, "PRO"@) {
        "Pro"@
    } else if has_sub(u, "FREE"@) {
        "Free"@
    } else {
        raw
    }
}

/// The plan name for `raw`, given `upper`, its uppercase form.
pub fn subscription_label(raw: &str, upper: &str) -> (s: String)
    ensures
        s@ == subscription_label_of(raw@, upper@),
{
    let rv = chars_of(raw);
    if rv.len() == 0 {
        return "-".to_string();
    }
    let uv = chars_of(upper);
    let u = chars_replace(&uv, ' ', '_');
    if chars_contain(&u, &chars_of("KIRO_PRO_PLUS")) {
        "Pro+".to_string()
    } else if chars_contain(&u, &chars_of("KIRO_PRO")) {
        "Pro".to_string()
    } else if chars_contain(&u, &chars_of("KIRO_FREE")) {
        "Free".to_string()
    } else if chars_contain(&u, &chars_of("KIRO_POWER")) {
        "Power".to_string()
    } else if chars_contain(&u, &chars_of("Q_DEVELOPER_STANDALONE_PRO_PLUS")) {
        "Pro+".to_string()
    } else if chars_contain(&u, &chars_of("Q_DEVELOPER_STANDALONE_PRO")) {
        "Pro".to_string()
    } else if chars_contain(&u, &chars_of("Q_DEVELOPER_STANDALONE_FREE")) {
        "Free".to_string()
    } else if chars_contain(&u, &chars_of("Q_DEVELOPER_STANDALONE_POWER")) {
        "Power".to_string()
    } else if chars_contain(&u, &chars_of("Q_DEVELOPER_STANDALONE")) {
        "Free".to_string()
    } else if chars_contain(&u, &chars_of("PRO")) {
        "Pro".to_string()
    } else if chars_contain(&u, &chars_of("FREE")) {
        "Free".to_string()
    } else {
        raw.to_string()
    }
}

/// The plan name shown for a raw subscription string.
pub fn format_subscription(raw: &str) -> (s: String)
    ensures
        s@ == subscription_label_of(raw@, str_upper(raw@)),
{
    let upper = to_upper(raw);
    subscription_label(raw, upper.as_str())
}


/// The plan name that the normalised text `u` (uppercased, spaces read as
/// `_`) gives by itself, or `None` when only the raw text can name the plan.
pub open spec fn normalized_label(u: Seq<char>) -> Option<Seq<char>> {
    if has_sub(u, "KIRO_PRO_PLUS"@) {
        Some("Pro+"@)
    } else if has_sub(u, "KIRO_PRO"@) {
        Some("Pro"@)
    } else if has_sub(u, "KIRO_FREE"@) {
        Some("Free"@)
    } else if has_sub(u, "KIRO_POWER"@) {
        Some("Power"@)
    } else if has_sub(u, "Q_DEVELOPER_STANDALONE_PRO_PLUS"@) {
        Some("Pro+"@)
    } else if has_sub(u, "Q_DEVELOPER_STANDALONE_PRO"@) {
        Some("Pro"@)
    } else if has_sub(u, "Q_DEVELOPER_STANDALONE_FREE"@) {
        Some("Free"@)
    } else if has_sub(u, "Q_DEVELOPER_STANDALONE_POWER"@) {
        Some("Power"@)
    } else if has_sub(u, "Q_DEVELOPER_STANDALONE"@) {
        Some("Free"@)
    } else if has_sub(u, "PRO"@) {
        Some("Pro"@)
    } else if has_sub(u, "FREE"@) {
        Some("Free"@)
    } else {
        None
    }
}

/// The plan name of a non-empty subscription depends only on its
/// case- and space-normalised text whenever that text names a plan: two raw
/// texts with the same normalised text get the same name.
pub proof fn plan_label_depends_on_normalized_text(raw1: Seq<char>, raw2: Seq<char>)
    requires
        raw1.len() > 0,
        raw2.len() > 0,
        replace_char(str_upper(raw1), ' ', '_') == replace_char(str_upper(raw2), ' ', '_'),
        normalized_label(replace_char(str_upper(raw1), ' ', '_')) is Some,
    ensures
        subscription_label_of(raw1, str_upper(raw1)) == subscription_label_of(raw2, str_upper(raw2)),
        subscription_label_of(raw1, str_upper(raw1)) == normalized_label(replace_char(str_upper(raw1), ' ', '_'))->0,
{
}

} // verus!
