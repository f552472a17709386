//! Dotted tokens (`header.payload.signature`): finding the payload, decoding
//! it, and reading the claims the library needs from it.

use vstd::prelude::*;
use crate::json::{as_i64_spec, as_str_spec, index_spec, json_i64_at, json_str_at, JsonValue};
use crate::text::{chars_of, string_of};
use crate::timefmt::{format_stamp, iso_after, iso_after_now, opt_view, stamp_in_supported_years, stamp_text, FMT_ISO_OUT};
use vstd::utf8::encode_utf8;
use base64::Engine;

verus! {

/// The first position at or after `from` that holds `c`, or the length of
/// `s` when there is none.
pub open spec fn find_char(s: Seq<char>, c: char, from: int) -> int
    recommends
        0 <= from,
    decreases s.len() - from,
{
    if from >= s.len() {
        s.len() as int
    } else if s[from] == c {
        from
    } else {
        find_char(s, c, from + 1)
    }
}

proof fn lemma_find_char_range(s: Seq<char>, c: char, from: int)
    requires
        0 <= from <= s.len(),
    ensures
        from <= find_char(s, c, from) <= s.len(),
    decreases s.len() - from,
{
    if from < s.len() && s[from] != c {
        lemma_find_char_range(s, c, from + 1);
    }
}

/// The second `.`-separated part of `s` (the payload of a dotted token), or
/// `None` when `s` holds no `.`.
pub open spec fn second_part(s: Seq<char>) -> Option<Seq<char>> {
    let i = find_char(s, '.', 0);
    if i >= s.len() {
        None
    } else {
        Some(s.subrange(i + 1, find_char(s, '.', i + 1)))
    }
}

fn find_char_from(v: &Vec<char>, c: char, from: usize) -> (r: usize)
    requires
        from <= v.len(),
    ensures
        r == find_char(v@, c, from as int),
        from <= r <= v.len(),
{
    let mut i = from;
    proof {
        lemma_find_char_range(v@, c, from as int);
    }
    while i < v.len()
        invariant
            from <= i <= v.len(),
            find_char(v@, c, from as int) == find_char(v@, c, i as int),
        decreases v.len() - i,
    {
        if v[i] == c {
            return i;
        }
        i = i + 1;
    }
    i
}

/// The second `.`-separated part of `s`.
pub fn second_dot_part(s: &str) -> (r: Option<String>)
    ensures
        match r {
            Some(p) => second_part(s@) == Some(p@),
            None => second_part(s@) is None,
        },
{
    let v = chars_of(s);
    let i = find_char_from(&v, '.', 0);
    if i >= v.len() {
        return None;
    }
    let j = find_char_from(&v, '.', i + 1);
    let mut part: Vec<char> = Vec::new();
    let mut k = i + 1;
    while k < j
        invariant
            i + 1 <= k <= j <= v.len(),
            part@ == v@.subrange(i + 1, k as int),
        decreases j - k,
    {
        part.push(v[k]);
        proof {
            assert(v@.subrange(i + 1, k + 1) == v@.subrange(i + 1, k as int).push(v@[k as int]));
        }
        k = k + 1;
    }
    Some(string_of(&part))
}

/// What the URL-safe, unpadded base64 engine of the `base64` crate decodes
/// from a byte string; `None` when the text is not valid for it.
pub uninterp spec fn base64_url_decoded(text: Seq<u8>) -> Option<Seq<u8>>;

/// Trusted: `base64::engine::general_purpose::URL_SAFE_NO_PAD.decode`, its
/// error turned into `None`. The result is the named `base64_url_decoded`.
#[verifier::external_body]
pub(crate) fn base64_url_decode(text: &[u8]) -> (r: Option<Vec<u8>>)
    ensures
        match r {
            Some(b) => base64_url_decoded(text@) == Some(b@),
            None => base64_url_decoded(text@) is None,
        },
{
    base64::engine::general_purpose::URL_SAFE_NO_PAD.decode(text).ok()
}

/// The decoded payload of a dotted token: its second part, as UTF-8 bytes,
/// base64-decoded.
pub open spec fn payload_of(token: Seq<char>) -> Option<Seq<u8>> {
    match second_part(token) {
        Some(p) => base64_url_decoded(encode_utf8(p)),
        None => None,
    }
}

/// The decoded payload of a dotted token (a JWT, or a registered client's
/// secret), or `None` when it has no second part or that part does not decode.
pub fn token_payload(token: &str) -> (r: Option<Vec<u8>>)
    ensures
        match r {
            Some(b) => payload_of(token@) == Some(b@),
            None => payload_of(token@) is None,
        },
{
    match second_dot_part(token) {
        Some(p) => base64_url_decode(p.as_str().as_bytes()),
        None => None,
    }
}

/// The text of an optional string, or the empty text.
pub open spec fn or_empty(s: Option<Seq<char>>) -> Seq<char> {
    match s {
        Some(x) => x,
        None => Seq::empty(),
    }
}

/// The e-mail and subject a JWT's claims give: the e-mail is `email`, else
/// `preferred_username`, else empty; the subject is `sub`, else empty. Claims
/// that could not be read give two empty texts.
pub open spec fn identity_of(claims: Option<JsonValue>) -> (Seq<char>, Seq<char>) {
    match claims {
        Some(v) => (
            match as_str_spec(index_spec(v, "email"@)) {
                Some(e) => e,
                None => or_empty(as_str_spec(index_spec(v, "preferred_username"@))),
            },
            or_empty(as_str_spec(index_spec(v, "sub"@))),
        ),
        None => (Seq::empty(), Seq::empty()),
    }
}

/// The e-mail and subject of a JWT, from its parsed claims (`None` when the
/// token had no readable claims).
pub fn jwt_identity(claims: &Option<JsonValue>) -> (r: (String, String))
    ensures
        (r.0@, r.1@) == identity_of(*claims),
{
    match claims {
        Some(v) => {
            let email = match json_str_at(v, "email") {
                Some(e) => e,
                None => match json_str_at(v, "preferred_username") {
                    Some(p) => p,
                    None => String::new(),
                },
            };
            let sub = match json_str_at(v, "sub") {
                Some(s) => s,
                None => String::new(),
            };
            (email, sub)
        },
        None => (String::new(), String::new()),
    }
}

/// Where working out a client secret's expiry stands.
pub enum SecretExpiryStep {
    /// The secret's payload must be read as JSON; the answer goes to
    /// `secret_expiry_after_payload`.
    ParsePayload(Vec<u8>),
    /// This text (the payload's `serialized` member) must be read as JSON; the
    /// answer goes to `secret_expiry_after_serialized`.
    ParseSerialized(String),
    /// The expiry text; `None` only when it falls back to ninety days from
    /// now and that lies past the last date chrono supports.
    Done(Option<String>),
}

/// Ninety days, in seconds: how long a client secret is taken to last when
/// its own expiry cannot be read.
pub const SECRET_FALLBACK_SECS: i64 = 7_776_000;

/// `t` is the fallback expiry: ninety days after some reading of the UTC
/// clock, printed as `FMT_ISO_OUT`.
pub open spec fn is_secret_fallback(t: Option<String>) -> bool {
    exists|now: (i64, u32)| stamp_in_supported_years(now) && #[trigger] iso_after(now, SECRET_FALLBACK_SECS as int)
        == opt_view(t)
}

/// Starts working out when a registered client's secret expires: a secret
/// with a decodable payload asks for that payload to be read; any other ends
/// at ninety days from now.
pub fn secret_expiry_start(secret: &str) -> (r: SecretExpiryStep)
    ensures
        match payload_of(secret@) {
            Some(b) => r matches SecretExpiryStep::ParsePayload(p) && p@ == b,
            None => r matches SecretExpiryStep::Done(t) && is_secret_fallback(t),
        },
{
    match token_payload(secret) {
        Some(b) => SecretExpiryStep::ParsePayload(b),
        None => SecretExpiryStep::Done(iso_after_now(SECRET_FALLBACK_SECS)),
    }
}

/// The `serialized` text of a secret's payload, `{}` when it has none.
pub open spec fn serialized_of(payload: JsonValue) -> Seq<char> {
    match as_str_spec(index_spec(payload, "serialized"@)) {
        Some(s) => s,
        None => "{}"@,
    }
}

/// Continues once the payload has been read (`None`: it was not JSON, which
/// ends at ninety days from now): its `serialized` text must be read next.
pub fn secret_expiry_after_payload(payload: &Option<JsonValue>) -> (r: SecretExpiryStep)
    ensures
        match *payload {
            Some(v) => r matches SecretExpiryStep::ParseSerialized(s) && s@ == serialized_of(v),
            None => r matches SecretExpiryStep::Done(t) && is_secret_fallback(t),
        },
{
    match payload {
        Some(v) => {
            let s = match json_str_at(v, "serialized") {
                Some(s) => s,
                None => "{}".to_string(),
            };
            SecretExpiryStep::ParseSerialized(s)
        },
        None => SecretExpiryStep::Done(iso_after_now(SECRET_FALLBACK_SECS)),
    }
}

/// The expiry a secret's serialized registration states: its
/// `expirationTimestamp` (0 when absent) printed as `FMT_ISO_OUT`, when that
/// instant can be printed.
pub open spec fn stated_expiry(serialized: JsonValue) -> Option<Seq<char>> {
    let ts: i64 = match as_i64_spec(index_spec(serialized, "expirationTimestamp"@)) {
        Some(t) => t,
        None => 0,
    };
    stamp_text(ts, 0, FMT_ISO_OUT@)
}

/// Ends once the serialized registration has been read (`None`: it was not
/// JSON): the expiry it states, else ninety days from now.
pub fn secret_expiry_after_serialized(serialized: &Option<JsonValue>) -> (r: Option<String>)
    ensures
        match *serialized {
            Some(v) if stated_expiry(v) is Some => opt_view(r) == stated_expiry(v),
            _ => is_secret_fallback(r),
        },
{
    match serialized {
        Some(v) => {
            let ts: i64 = match json_i64_at(v, "expirationTimestamp") {
                Some(t) => t,
                None => 0,
            };
            match format_stamp(ts, 0, FMT_ISO_OUT) {
                Some(s) => Some(s),
                None => iso_after_now(SECRET_FALLBACK_SECS),
            }
        },
        None => iso_after_now(SECRET_FALLBACK_SECS),
    }
}

/// The e-mail of a JWT is its `email` claim whenever that claim is text,
/// whatever `preferred_username` holds; `preferred_username` is read only when
/// `email` is not text. The subject is the `sub` claim when that is text.
/// Claims that could not be read give neither.
pub proof fn jwt_email_claim_wins(v: JsonValue)
    ensures
        as_str_spec(index_spec(v, "email"@)) matches Some(e) ==> identity_of(Some(v)).0 == e,
        as_str_spec(index_spec(v, "email"@)) is None ==> (as_str_spec(index_spec(v, "preferred_username"@))
            matches Some(p) ==> identity_of(Some(v)).0 == p),
        as_str_spec(index_spec(v, "email"@)) is None && as_str_spec(index_spec(v, "preferred_username"@)) is None
            ==> identity_of(Some(v)).0.len() == 0,
        as_str_spec(index_spec(v, "sub"@)) matches Some(u) ==> identity_of(Some(v)).1 == u,
        as_str_spec(index_spec(v, "sub"@)) is None ==> identity_of(Some(v)).1.len() == 0,
        identity_of(None).0.len() == 0 && identity_of(None).1.len() == 0,
{
}

} // verus!
