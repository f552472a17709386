//! The accounts table: reading rows into accounts, finding an account, the
//! insert-or-update rule, and the JSON exchange format of accounts.

use vstd::prelude::*;
use crate::json::{as_str_spec, get_spec, index_spec, json_str_at, member_of, JsonValue};
use crate::models::Account;

verus! {

/// One row of the accounts table as read, before defaults are applied.
///
/// `overage_charges_bits` is the IEEE-754 bit pattern of the stored charges.
pub struct AccountRow {
    pub id: i64,
    pub email: Option<String>,
    pub provider: Option<String>,
    pub auth_method: Option<String>,
    pub access_token: Option<String>,
    pub refresh_token: Option<String>,
    pub expires_at: Option<String>,
    pub client_id: Option<String>,
    pub client_secret: Option<String>,
    pub client_id_hash: Option<String>,
    pub region: Option<String>,
    pub profile_arn: Option<String>,
    pub user_id: Option<String>,
    pub usage_limit: Option<i64>,
    pub current_usage: Option<i64>,
    pub overage_cap: Option<i64>,
    pub current_overages: Option<i64>,
    pub overage_status: Option<String>,
    pub overage_charges_bits: Option<u64>,
    pub subscription: String,
    pub last_query_time: Option<String>,
}

/// A stored text, or the empty text when the column is NULL.
pub open spec fn text_or_blank(s: Option<String>) -> Seq<char> {
    match s {
        Some(x) => x@,
        None => Seq::empty(),
    }
}

/// A stored count, or 0 when the column is NULL.
pub open spec fn count_or_zero(n: Option<i64>) -> i64 {
    match n {
        Some(x) => x,
        None => 0,
    }
}

/// The account a row stands for: NULL texts read as empty, NULL counts and
/// charges as zero, and a NULL region as `us-east-1`.
pub open spec fn row_account_matches(row: AccountRow, a: Account) -> bool {
    &&& a.id == row.id
    &&& a.email@ == text_or_blank(row.email)
    &&& a.provider@ == text_or_blank(row.provider)
    &&& a.auth_method@ == text_or_blank(row.auth_method)
    &&& a.access_token@ == text_or_blank(row.access_token)
    &&& a.refresh_token@ == text_or_blank(row.refresh_token)
    &&& a.expires_at@ == text_or_blank(row.expires_at)
    &&& a.client_id@ == text_or_blank(row.client_id)
    &&& a.client_secret@ == text_or_blank(row.client_secret)
    &&& a.client_id_hash@ == text_or_blank(row.client_id_hash)
    &&& a.region@ == match row.region {
        Some(r) => r@,
        None => "us-east-1"@,
    }
    &&& a.profile_arn@ == text_or_blank(row.profile_arn)
    &&& a.user_id@ == text_or_blank(row.user_id)
    &&& a.usage_limit == count_or_zero(row.usage_limit)
    &&& a.current_usage == count_or_zero(row.current_usage)
    &&& a.overage_cap == count_or_zero(row.overage_cap)
    &&& a.current_overages == count_or_zero(row.current_overages)
    &&& a.overage_status@ == text_or_blank(row.overage_status)
    &&& a.overage_charges_bits == match row.overage_charges_bits {
        Some(b) => b,
        None => 0u64,
    }
    &&& a.subscription@ == row.subscription@
    &&& a.last_query_time == row.last_query_time
}

fn or_blank(s: Option<String>) -> (r: String)
    ensures
        r@ == text_or_blank(s),
{
    match s {
        Some(x) => x,
        None => String::new(),
    }
}

/// The account a row of the accounts table stands for.
pub fn account_from_row(row: AccountRow) -> (a: Account)
    ensures
        row_account_matches(row, a),
{
    let region = match row.region {
        Some(r) => r,
        None => "us-east-1".to_string(),
    };
    Account {
        id: row.id,
        email: or_blank(row.email),
        provider: or_blank(row.provider),
        auth_method: or_blank(row.auth_method),
        access_token: or_blank(row.access_token),
        refresh_token: or_blank(row.refresh_token),
        expires_at: or_blank(row.expires_at),
        client_id: or_blank(row.client_id),
        client_secret: or_blank(row.client_secret),
        client_id_hash: or_blank(row.client_id_hash),
        region,
        profile_arn: or_blank(row.profile_arn),
        user_id: or_blank(row.user_id),
        usage_limit: match row.usage_limit { Some(x) => x, None => 0 },
        current_usage: match row.current_usage { Some(x) => x, None => 0 },
        overage_cap: match row.overage_cap { Some(x) => x, None => 0 },
        current_overages: match row.current_overages { Some(x) => x, None => 0 },
        overage_status: or_blank(row.overage_status),
        overage_charges_bits: match row.overage_charges_bits { Some(b) => b, None => 0u64 },
        subscription: row.subscription,
        last_query_time: row.last_query_time,
    }
}

/// The position of the first account in `accounts` whose id is `id`.
pub fn find_account(accounts: &Vec<Account>, id: i64) -> (r: Option<usize>)
    ensures
        match r {
            Some(i) => i < accounts.len() && accounts@[i as int].id == id
                && forall|j: int| 0 <= j < i ==> accounts@[j].id != id,
            None => forall|j: int| 0 <= j < accounts.len() ==> accounts@[j].id != id,
        },
{
    let mut i: usize = 0;
    while i < accounts.len()
        invariant
            i <= accounts.len(),
            forall|j: int| 0 <= j < i ==> accounts@[j].id != id,
        decreases accounts.len() - i,
    {
        if accounts[i].id == id {
            return Some(i);
        }
        i = i + 1;
    }
    None
}

/// The first account in `accounts` whose id is `id`.
pub fn get_account(accounts: &Vec<Account>, id: i64) -> (r: Option<Account>)
    ensures
        match r {
            Some(a) => exists|i: int| 0 <= i < accounts.len() && accounts@[i] == a && a.id == id
                && forall|j: int| 0 <= j < i ==> accounts@[j].id != id,
            None => forall|j: int| 0 <= j < accounts.len() ==> accounts@[j].id != id,
        },
{
    match find_account(accounts, id) {
        Some(i) => Some(accounts[i].clone()),
        None => None,
    }
}

/// The next thing saving an account asks of the table.
pub enum UpsertAction {
    /// Look up the id of the row whose user id is this one.
    FindByUserId(String),
    /// Look up the id of the row whose e-mail is this one.
    FindByEmail(String),
    /// Overwrite the row with this id with the account.
    Update(i64),
    /// Add the account as a new row.
    Insert,
}

/// The first step of saving `a`: match by user id when it has one, else by
/// e-mail when it has one, else insert.
pub open spec fn upsert_first(a: Account) -> UpsertAction {
    if a.user_id@.len() > 0 {
        UpsertAction::FindByUserId(a.user_id)
    } else if a.email@.len() > 0 {
        UpsertAction::FindByEmail(a.email)
    } else {
        UpsertAction::Insert
    }
}

/// The step after the lookup by user id found `found`.
pub open spec fn upsert_after_user(a: Account, found: Option<i64>) -> UpsertAction {
    match found {
        Some(id) => UpsertAction::Update(id),
        None => if a.email@.len() > 0 { UpsertAction::FindByEmail(a.email) } else { UpsertAction::Insert },
    }
}

/// The step after the lookup by e-mail found `found`.
pub open spec fn upsert_after_email(found: Option<i64>) -> UpsertAction {
    match found {
        Some(id) => UpsertAction::Update(id),
        None => UpsertAction::Insert,
    }
}

/// The first step of saving an account.
pub fn upsert_start(a: &Account) -> (r: UpsertAction)
    ensures
        r == upsert_first(*a),
{
    if !a.user_id.as_str().is_empty() {
        UpsertAction::FindByUserId(a.user_id.clone())
    } else if !a.email.as_str().is_empty() {
        UpsertAction::FindByEmail(a.email.clone())
    } else {
        UpsertAction::Insert
    }
}

/// The step after looking the account up by user id.
pub fn upsert_after_user_lookup(a: &Account, found: Option<i64>) -> (r: UpsertAction)
    ensures
        r == upsert_after_user(*a, found),
{
    match found {
        Some(id) => UpsertAction::Update(id),
        None => if !a.email.as_str().is_empty() {
            UpsertAction::FindByEmail(a.email.clone())
        } else {
            UpsertAction::Insert
        },
    }
}

/// The step after looking the account up by e-mail.
pub fn upsert_after_email_lookup(found: Option<i64>) -> (r: UpsertAction)
    ensures
        r == upsert_after_email(found),
{
    match found {
        Some(id) => UpsertAction::Update(id),
        None => UpsertAction::Insert,
    }
}

/// What saving `a` ends in, when the table's row with its user id is
/// `by_user` and the row with its e-mail is `by_email`.
pub open spec fn upsert_outcome(a: Account, by_user: Option<i64>, by_email: Option<i64>) -> UpsertAction {
    match upsert_first(a) {
        UpsertAction::FindByUserId(_) => match upsert_after_user(a, by_user) {
            UpsertAction::FindByEmail(_) => upsert_after_email(by_email),
            other => other,
        },
        UpsertAction::FindByEmail(_) => upsert_after_email(by_email),
        other => other,
    }
}

/// Saving an account overwrites the row that has its user id, when it has a
/// user id and such a row exists, whatever row has its e-mail.
pub proof fn upsert_prefers_user_id(a: Account, by_user: i64, by_email: Option<i64>)
    requires
        a.user_id@.len() > 0,
    ensures
        upsert_outcome(a, Some(by_user), by_email) == UpsertAction::Update(by_user),
{
}

/// Saving an account inserts a new row exactly when neither a non-empty user
/// id nor a non-empty e-mail of it matches a row; otherwise it overwrites the
/// row matched first.
pub proof fn upsert_inserts_only_without_match(a: Account, by_user: Option<i64>, by_email: Option<i64>)
    ensures
        (upsert_outcome(a, by_user, by_email) is Insert) <==> ((a.user_id@.len() == 0 || by_user is None)
            && (a.email@.len() == 0 || by_email is None)),
        upsert_outcome(a, by_user, by_email) matches UpsertAction::Update(id) ==> ((a.user_id@.len() > 0
            && by_user == Some(id)) || (a.email@.len() > 0 && by_email == Some(id))),
{
}

/// The text member `key` of an exchanged account, or empty.
pub open spec fn member_text(v: JsonValue, key: Seq<char>) -> Seq<char> {
    match as_str_spec(index_spec(v, key)) {
        Some(s) => s,
        None => Seq::empty(),
    }
}

/// The account an exchanged JSON record stands for: its twelve text members
/// (empty when absent or not text), a region of `us-east-1` when none is
/// given, and every other field blank.
pub open spec fn imported_account_matches(v: JsonValue, a: Account) -> bool {
    &&& a.email@ == member_text(v, "email"@)
    &&& a.provider@ == member_text(v, "provider"@)
    &&& a.auth_method@ == member_text(v, "authMethod"@)
    &&& a.access_token@ == member_text(v, "accessToken"@)
    &&& a.refresh_token@ == member_text(v, "refreshToken"@)
    &&& a.expires_at@ == member_text(v, "expiresAt"@)
    &&& a.client_id@ == member_text(v, "clientId"@)
    &&& a.client_secret@ == member_text(v, "clientSecret"@)
    &&& a.client_id_hash@ == member_text(v, "clientIdHash"@)
    &&& a.region@ == if member_text(v, "region"@).len() == 0 { "us-east-1"@ } else { member_text(v, "region"@) }
    &&& a.profile_arn@ == member_text(v, "profileArn"@)
    &&& a.user_id@ == member_text(v, "userId"@)
    &&& a.id == 0
    &&& a.usage_limit == 0
    &&& a.current_usage == 0
    &&& a.overage_cap == 0
    &&& a.current_overages == 0
    &&& a.overage_status@.len() == 0
    &&& a.overage_charges_bits == 0
    &&& a.subscription@.len() == 0
    &&& a.last_query_time is None
}

fn member_or_blank(v: &JsonValue, key: &str) -> (r: String)
    ensures
        r@ == member_text(*v, key@),
{
    match json_str_at(v, key) {
        Some(s) => s,
        None => String::new(),
    }
}

/// The account an exchanged JSON record stands for.
pub fn parse_json_account(v: &JsonValue) -> (a: Account)
    ensures
        imported_account_matches(*v, a),
{
    let r = member_or_blank(v, "region");
    let region = if r.as_str().is_empty() { "us-east-1".to_string() } else { r };
    Account {
        id: 0,
        email: member_or_blank(v, "email"),
        provider: member_or_blank(v, "provider"),
        auth_method: member_or_blank(v, "authMethod"),
        access_token: member_or_blank(v, "accessToken"),
        refresh_token: member_or_blank(v, "refreshToken"),
        expires_at: member_or_blank(v, "expiresAt"),
        client_id: member_or_blank(v, "clientId"),
        client_secret: member_or_blank(v, "clientSecret"),
        client_id_hash: member_or_blank(v, "clientIdHash"),
        region,
        profile_arn: member_or_blank(v, "profileArn"),
        user_id: member_or_blank(v, "userId"),
        usage_limit: 0,
        current_usage: 0,
        overage_cap: 0,
        current_overages: 0,
        overage_status: String::new(),
        overage_charges_bits: 0,
        subscription: String::new(),
        last_query_time: None,
    }
}

/// The keys of an exported account record, in order.
pub open spec fn export_keys() -> Seq<Seq<char>> {
    seq!["email"@, "provider"@, "authMethod"@, "accessToken"@, "refreshToken"@, "expiresAt"@,
        "clientId"@, "clientSecret"@, "clientIdHash"@, "region"@, "profileArn"@, "userId"@]
}

/// The values of an exported account record, in the order of `export_keys`.
pub open spec fn export_values(a: Account) -> Seq<Seq<char>> {
    seq![a.email@, a.provider@, a.auth_method@, a.access_token@, a.refresh_token@, a.expires_at@,
        a.client_id@, a.client_secret@, a.client_id_hash@, a.region@, a.profile_arn@, a.user_id@]
}

/// The JSON record an account is exported as: an object of the twelve
/// exported members, each a string.
pub open spec fn export_matches(a: Account, v: JsonValue) -> bool {
    v matches JsonValue::Object(fields) && fields@.len() == 12
        && forall|i: int| 0 <= i < 12 ==> (#[trigger] fields@[i]).0@ == export_keys()[i]
            && as_str_spec(fields@[i].1) == Some(export_values(a)[i])
}

/// The JSON record an account is exported as.
pub fn export_entry(a: &Account) -> (v: JsonValue)
    ensures
        export_matches(*a, v),
{
    let fields: Vec<(String, JsonValue)> = vec![
        ("email".to_string(), JsonValue::Str(a.email.clone())),
        ("provider".to_string(), JsonValue::Str(a.provider.clone())),
        ("authMethod".to_string(), JsonValue::Str(a.auth_method.clone())),
        ("accessToken".to_string(), JsonValue::Str(a.access_token.clone())),
        ("refreshToken".to_string(), JsonValue::Str(a.refresh_token.clone())),
        ("expiresAt".to_string(), JsonValue::Str(a.expires_at.clone())),
        ("clientId".to_string(), JsonValue::Str(a.client_id.clone())),
        ("clientSecret".to_string(), JsonValue::Str(a.client_secret.clone())),
        ("clientIdHash".to_string(), JsonValue::Str(a.client_id_hash.clone())),
        ("region".to_string(), JsonValue::Str(a.region.clone())),
        ("profileArn".to_string(), JsonValue::Str(a.profile_arn.clone())),
        ("userId".to_string(), JsonValue::Str(a.user_id.clone())),
    ];
    JsonValue::Object(fields)
}

/// The first member with a key is the one read under that key.
pub(crate) proof fn lemma_member_at(fields: Seq<(String, JsonValue)>, key: Seq<char>, k: int)
    requires
        0 <= k < fields.len(),
        fields[k].0@ == key,
        forall|j: int| 0 <= j < k ==> fields[j].0@ != key,
    ensures
        member_of(fields, key) == Some(fields[k].1),
    decreases k,
{
    if k > 0 {
        assert(fields[0].0@ != key);
        let rest = fields.drop_first();
        assert forall|j: int| 0 <= j < k - 1 implies rest[j].0@ != key by {
            assert(rest[j] == fields[j + 1]);
        }
        lemma_member_at(rest, key, k - 1);
    }
}

/// A key that no member has is read as absent.
pub(crate) proof fn lemma_member_absent(fields: Seq<(String, JsonValue)>, key: Seq<char>)
    requires
        forall|j: int| 0 <= j < fields.len() ==> fields[j].0@ != key,
    ensures
        member_of(fields, key) is None,
    decreases fields.len(),
{
    if fields.len() > 0 {
        assert(fields[0].0@ != key);
        let rest = fields.drop_first();
        assert forall|j: int| 0 <= j < rest.len() implies rest[j].0@ != key by {
            assert(rest[j] == fields[j + 1]);
        }
        lemma_member_absent(rest, key);
    }
}

proof fn lemma_export_keys_distinct()
    ensures
        forall|i: int, j: int| 0 <= i < 12 && 0 <= j < 12 && i != j ==> export_keys()[i] != export_keys()[j],
{
    reveal_strlit("email");
    reveal_strlit("provider");
    reveal_strlit("authMethod");
    reveal_strlit("accessToken");
    reveal_strlit("refreshToken");
    reveal_strlit("expiresAt");
    reveal_strlit("clientId");
    reveal_strlit("clientSecret");
    reveal_strlit("clientIdHash");
    reveal_strlit("region");
    reveal_strlit("profileArn");
    reveal_strlit("userId");
    assert forall|i: int, j: int| 0 <= i < 12 && 0 <= j < 12 && i != j implies export_keys()[i] != export_keys()[j] by {
        if export_keys()[i] == export_keys()[j] {
            assert(export_keys()[i].len() == export_keys()[j].len());
            assert(export_keys()[i][0] == export_keys()[j][0]);
            assert(export_keys()[i][export_keys()[i].len() - 1] == export_keys()[j][export_keys()[j].len() - 1]);
        }
    }
}

proof fn lemma_export_member(a: Account, v: JsonValue, i: int)
    requires
        export_matches(a, v),
        0 <= i < 12,
    ensures
        member_text(v, export_keys()[i]) == export_values(a)[i],
        as_str_spec(index_spec(v, export_keys()[i])) == Some(export_values(a)[i]),
{
    lemma_export_keys_distinct();
    let fields = v->Object_0@;
    assert forall|j: int| 0 <= j < i implies fields[j].0@ != export_keys()[i] by {
        assert(fields[j].0@ == export_keys()[j]);
    }
    lemma_member_at(fields, export_keys()[i], i);
    assert(get_spec(v, export_keys()[i]) == Some(fields[i].1));
}

/// Exporting an account and importing the record gives back its twelve
/// exchanged texts, with an empty region read as `us-east-1`; what is not
/// exchanged comes back blank.
pub proof fn export_then_import(a: Account, v: JsonValue, b: Account)
    requires
        export_matches(a, v),
        imported_account_matches(v, b),
    ensures
        b.email@ == a.email@,
        b.provider@ == a.provider@,
        b.auth_method@ == a.auth_method@,
        b.access_token@ == a.access_token@,
        b.refresh_token@ == a.refresh_token@,
        b.expires_at@ == a.expires_at@,
        b.client_id@ == a.client_id@,
        b.client_secret@ == a.client_secret@,
        b.client_id_hash@ == a.client_id_hash@,
        b.region@ == if a.region@.len() == 0 { "us-east-1"@ } else { a.region@ },
        b.profile_arn@ == a.profile_arn@,
        b.user_id@ == a.user_id@,
        b.id == 0,
        b.last_query_time is None,
{
    lemma_export_member(a, v, 0);
    lemma_export_member(a, v, 1);
    lemma_export_member(a, v, 2);
    lemma_export_member(a, v, 3);
    lemma_export_member(a, v, 4);
    lemma_export_member(a, v, 5);
    lemma_export_member(a, v, 6);
    lemma_export_member(a, v, 7);
    lemma_export_member(a, v, 8);
    lemma_export_member(a, v, 9);
    lemma_export_member(a, v, 10);
    lemma_export_member(a, v, 11);
}

/// Each exported member carries the account field of its own name: the
/// record's `email` is the account's e-mail, its `accessToken` the access
/// token, its `refreshToken` the refresh token, and so on for all twelve.
pub proof fn export_names_each_member(a: Account, v: JsonValue)
    requires
        export_matches(a, v),
    ensures
        as_str_spec(index_spec(v, "email"@)) == Some(a.email@),
        as_str_spec(index_spec(v, "provider"@)) == Some(a.provider@),
        as_str_spec(index_spec(v, "authMethod"@)) == Some(a.auth_method@),
        as_str_spec(index_spec(v, "accessToken"@)) == Some(a.access_token@),
        as_str_spec(index_spec(v, "refreshToken"@)) == Some(a.refresh_token@),
        as_str_spec(index_spec(v, "expiresAt"@)) == Some(a.expires_at@),
        as_str_spec(index_spec(v, "clientId"@)) == Some(a.client_id@),
        as_str_spec(index_spec(v, "clientSecret"@)) == Some(a.client_secret@),
        as_str_spec(index_spec(v, "clientIdHash"@)) == Some(a.client_id_hash@),
        as_str_spec(index_spec(v, "region"@)) == Some(a.region@),
        as_str_spec(index_spec(v, "profileArn"@)) == Some(a.profile_arn@),
        as_str_spec(index_spec(v, "userId"@)) == Some(a.user_id@),
{
    lemma_export_member(a, v, 0);
    lemma_export_member(a, v, 1);
    lemma_export_member(a, v, 2);
    lemma_export_member(a, v, 3);
    lemma_export_member(a, v, 4);
    lemma_export_member(a, v, 5);
    lemma_export_member(a, v, 6);
    lemma_export_member(a, v, 7);
    lemma_export_member(a, v, 8);
    lemma_export_member(a, v, 9);
    lemma_export_member(a, v, 10);
    lemma_export_member(a, v, 11);
}

/// Importing a record takes each account field from the text member of its
/// own name (empty when that member is absent or not text; a missing or empty
/// `region` is `us-east-1`), and starts the usage and plan afresh.
pub proof fn import_reads_each_member(v: JsonValue, b: Account)
    requires
        imported_account_matches(v, b),
    ensures
        as_str_spec(index_spec(v, "email"@)) matches Some(t) ==> b.email@ == t,
        as_str_spec(index_spec(v, "provider"@)) matches Some(t) ==> b.provider@ == t,
        as_str_spec(index_spec(v, "authMethod"@)) matches Some(t) ==> b.auth_method@ == t,
        as_str_spec(index_spec(v, "accessToken"@)) matches Some(t) ==> b.access_token@ == t,
        as_str_spec(index_spec(v, "refreshToken"@)) matches Some(t) ==> b.refresh_token@ == t,
        as_str_spec(index_spec(v, "expiresAt"@)) matches Some(t) ==> b.expires_at@ == t,
        as_str_spec(index_spec(v, "clientId"@)) matches Some(t) ==> b.client_id@ == t,
        as_str_spec(index_spec(v, "clientSecret"@)) matches Some(t) ==> b.client_secret@ == t,
        as_str_spec(index_spec(v, "clientIdHash"@)) matches Some(t) ==> b.client_id_hash@ == t,
        as_str_spec(index_spec(v, "profileArn"@)) matches Some(t) ==> b.profile_arn@ == t,
        as_str_spec(index_spec(v, "userId"@)) matches Some(t) ==> b.user_id@ == t,
        as_str_spec(index_spec(v, "region"@)) matches Some(t) ==> (t.len() > 0 ==> b.region@ == t),
        !(as_str_spec(index_spec(v, "region"@)) matches Some(t) && t.len() > 0) ==> b.region@ == "us-east-1"@,
        as_str_spec(index_spec(v, "email"@)) is None ==> b.email@.len() == 0,
        as_str_spec(index_spec(v, "accessToken"@)) is None ==> b.access_token@.len() == 0,
        as_str_spec(index_spec(v, "refreshToken"@)) is None ==> b.refresh_token@.len() == 0,
        as_str_spec(index_spec(v, "userId"@)) is None ==> b.user_id@.len() == 0,
        b.id == 0 && b.usage_limit == 0 && b.current_usage == 0 && b.overage_cap == 0
            && b.current_overages == 0 && b.overage_charges_bits == 0,
        b.overage_status@.len() == 0 && b.subscription@.len() == 0 && b.last_query_time is None,
{
}

/// Reading a row copies each column that is not NULL into the account field
/// of the same name; a NULL text reads as empty, a NULL count or charge as
/// zero, and a NULL region as `us-east-1`.
pub proof fn row_columns_are_copied(row: AccountRow, a: Account)
    requires
        row_account_matches(row, a),
    ensures
        a.id == row.id,
        row.email matches Some(x) ==> a.email@ == x@,
        row.provider matches Some(x) ==> a.provider@ == x@,
        row.auth_method matches Some(x) ==> a.auth_method@ == x@,
        row.access_token matches Some(x) ==> a.access_token@ == x@,
        row.refresh_token matches Some(x) ==> a.refresh_token@ == x@,
        row.expires_at matches Some(x) ==> a.expires_at@ == x@,
        row.client_id matches Some(x) ==> a.client_id@ == x@,
        row.client_secret matches Some(x) ==> a.client_secret@ == x@,
        row.client_id_hash matches Some(x) ==> a.client_id_hash@ == x@,
        row.region matches Some(x) ==> a.region@ == x@,
        row.profile_arn matches Some(x) ==> a.profile_arn@ == x@,
        row.user_id matches Some(x) ==> a.user_id@ == x@,
        row.usage_limit matches Some(x) ==> a.usage_limit == x,
        row.current_usage matches Some(x) ==> a.current_usage == x,
        row.overage_cap matches Some(x) ==> a.overage_cap == x,
        row.current_overages matches Some(x) ==> a.current_overages == x,
        row.overage_status matches Some(x) ==> a.overage_status@ == x@,
        row.overage_charges_bits matches Some(x) ==> a.overage_charges_bits == x,
        a.subscription@ == row.subscription@,
        a.last_query_time == row.last_query_time,
        row.email is None ==> a.email@.len() == 0,
        row.provider is None ==> a.provider@.len() == 0,
        row.auth_method is None ==> a.auth_method@.len() == 0,
        row.access_token is None ==> a.access_token@.len() == 0,
        row.refresh_token is None ==> a.refresh_token@.len() == 0,
        row.expires_at is None ==> a.expires_at@.len() == 0,
        row.client_id is None ==> a.client_id@.len() == 0,
        row.client_secret is None ==> a.client_secret@.len() == 0,
        row.client_id_hash is None ==> a.client_id_hash@.len() == 0,
        row.region is None ==> a.region@ == "us-east-1"@,
        row.profile_arn is None ==> a.profile_arn@.len() == 0,
        row.user_id is None ==> a.user_id@.len() == 0,
        row.usage_limit is None ==> a.usage_limit == 0,
        row.current_usage is None ==> a.current_usage == 0,
        row.overage_cap is None ==> a.overage_cap == 0,
        row.current_overages is None ==> a.current_overages == 0,
        row.overage_status is None ==> a.overage_status@.len() == 0,
        row.overage_charges_bits is None ==> a.overage_charges_bits == 0,
{
}

} // verus!
