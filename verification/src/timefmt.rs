//! Date-time texts: reading them in the patterns the library knows, printing
//! them, and telling whether a stored expiry has passed.
//!
//! An instant is held as a pair `(secs, nanos)`: seconds since
//! 1970-01-01 00:00:00 of the wall clock it was read on, and nanoseconds
//! within that second (at or above 1e9 only inside a leap second). Ordering
//! pairs lexicographically orders the instants.

use vstd::prelude::*;
use chrono::TimeZone;

verus! {

/// `2024-01-31T12:00:00.000Z`, as stored by the desktop client.
pub const FMT_ISO_MILLIS: &'static str = "%Y-%m-%dT%H:%M:%S%.3fZ";
/// `2024-01-31 12:00:00`, as kept in the accounts table.
pub const FMT_PLAIN: &'static str = "%Y-%m-%d %H:%M:%S";
/// `2024/01/31 12:00:00`.
pub const FMT_SLASH: &'static str = "%Y/%m/%d %H:%M:%S";
/// `2024-01-31T12:00:00.000Z` with the milliseconds always written as zero.
pub const FMT_ISO_OUT: &'static str = "%Y-%m-%dT%H:%M:%S.000Z";

/// What `chrono::NaiveDateTime::parse_from_str(text, fmt)` reads, as a
/// `(secs, nanos)` pair.
pub uninterp spec fn parsed_stamp(text: Seq<char>, fmt: Seq<char>) -> Option<(i64, u32)>;

/// What printing the instant `(secs, nanos)` with the pattern `fmt` gives
/// (`chrono::DateTime::from_timestamp` then `format`); `None` when the instant
/// is outside the supported dates.
pub uninterp spec fn stamp_text(secs: i64, nanos: u32, fmt: Seq<char>) -> Option<Seq<char>>;

/// The seconds and nanoseconds of an instant whose year lies in the range
/// that chrono supports (-262144 to 262143).
pub open spec fn stamp_in_supported_years(t: (i64, u32)) -> bool {
    &&& -10_000_000_000_000 < t.0 < 10_000_000_000_000
    &&& t.1 < 2_000_000_000
}

/// The patterns this library prints with.
pub open spec fn printable_format(fmt: Seq<char>) -> bool {
    fmt == FMT_PLAIN@ || fmt == FMT_ISO_OUT@
}

/// Trusted: `chrono::NaiveDateTime::parse_from_str`. The result is the named
/// `parsed_stamp`; a parsed value is a date-time chrono supports, so it lies in
/// the supported years and can be printed again.
#[verifier::external_body]
pub(crate) fn parse_stamp(text: &str, fmt: &str) -> (r: Option<(i64, u32)>)
    ensures
        r == parsed_stamp(text@, fmt@),
        r matches Some(t) ==> stamp_in_supported_years(t)
            && stamp_text(t.0, t.1, FMT_PLAIN@) is Some
            && stamp_text(t.0, t.1, FMT_ISO_OUT@) is Some,
{
    match chrono::NaiveDateTime::parse_from_str(text, fmt) {
        Ok(dt) => {
            let u = dt.and_utc();
            Some((u.timestamp(), u.timestamp_subsec_nanos()))
        },
        Err(_) => None,
    }
}

/// Trusted: `chrono::DateTime::<Utc>::from_timestamp` followed by
/// `format(fmt)`; `None` when `from_timestamp` is. The result is the named
/// `stamp_text`. `fmt` is one of the library's own patterns, which chrono
/// always prints without error.
#[verifier::external_body]
pub(crate) fn format_stamp(secs: i64, nanos: u32, fmt: &str) -> (r: Option<String>)
    requires
        printable_format(fmt@),
    ensures
        match r {
            Some(s) => stamp_text(secs, nanos, fmt@) == Some(s@),
            None => stamp_text(secs, nanos, fmt@) is None,
        },
{
    match chrono::DateTime::from_timestamp(secs, nanos) {
        Some(d) => Some(d.naive_utc().format(fmt).to_string()),
        None => None,
    }
}

/// Trusted: `chrono::Local::now().naive_local()`, the local wall clock, as a
/// `(secs, nanos)` pair. Nothing is stated of which instant it is, only that it
/// is a date-time chrono supports, which can therefore be printed.
#[verifier::external_body]
pub(crate) fn local_now() -> (r: (i64, u32))
    ensures
        stamp_in_supported_years(r),
        stamp_text(r.0, r.1, FMT_PLAIN@) is Some,
{
    let u = chrono::Local::now().naive_local().and_utc();
    (u.timestamp(), u.timestamp_subsec_nanos())
}

/// Trusted: `chrono::Utc::now()`, the UTC clock, as a `(secs, nanos)` pair.
/// Nothing is stated of which instant it is, only that it is one chrono
/// supports.
#[verifier::external_body]
pub(crate) fn utc_now() -> (r: (i64, u32))
    ensures
        stamp_in_supported_years(r),
{
    let u = chrono::Utc::now();
    (u.timestamp(), u.timestamp_subsec_nanos())
}

/// Trusted: `chrono::Local.offset_from_utc_datetime`, the machine's UTC
/// offset at the instant `secs`, in seconds east of UTC; `None` when
/// `chrono::DateTime::from_timestamp(secs, 0)` is. Which offset it is depends
/// on the machine's time zone, so only chrono's bound on offsets (strictly
/// within a day) is stated.
#[verifier::external_body]
pub(crate) fn local_offset_at(secs: i64) -> (r: Option<i32>)
    ensures
        r matches Some(off) ==> -86_400 < off < 86_400,
{
    match chrono::DateTime::from_timestamp(secs, 0) {
        Some(d) => Some(chrono::Local.offset_from_utc_datetime(&d.naive_utc()).local_minus_utc()),
        None => None,
    }
}

/// The instant `(a_secs, a_nanos)` comes strictly before `(b_secs, b_nanos)`.
pub open spec fn stamp_before(a_secs: int, a_nanos: int, b_secs: int, b_nanos: int) -> bool {
    a_secs < b_secs || (a_secs == b_secs && a_nanos < b_nanos)
}

/// The instant read from `text` in the first of the given patterns that
/// reads it.
pub open spec fn first_parse(text: Seq<char>, f1: Seq<char>, f2: Seq<char>, f3: Seq<char>) -> Option<(i64, u32)> {
    if parsed_stamp(text, f1) is Some {
        parsed_stamp(text, f1)
    } else if parsed_stamp(text, f2) is Some {
        parsed_stamp(text, f2)
    } else {
        parsed_stamp(text, f3)
    }
}

/// Whether an expiry text counts as expired when the clock reads `now`: an
/// empty or unreadable text always does; otherwise it does when it comes
/// before five minutes after `now`.
pub open spec fn expired_at(expires_at: Seq<char>, now: (i64, u32)) -> bool {
    if expires_at.len() == 0 {
        true
    } else {
        match first_parse(expires_at, FMT_ISO_MILLIS@, FMT_PLAIN@, FMT_SLASH@) {
            Some(t) => stamp_before(t.0 as int, t.1 as int, now.0 + 300, now.1 as int),
            None => true,
        }
    }
}

/// Whether an expiry read as `parsed` (`None`: unreadable) counts as expired
/// when the clock reads `now`: an unreadable one does; a read one does when it
/// comes before five minutes after `now`.
pub fn expired_by(parsed: Option<(i64, u32)>, now: (i64, u32)) -> (r: bool)
    requires
        stamp_in_supported_years(now),
    ensures
        r == match parsed {
            Some(t) => stamp_before(t.0 as int, t.1 as int, now.0 + 300, now.1 as int),
            None => true,
        },
{
    match parsed {
        Some(t) => t.0 < now.0 + 300 || (t.0 == now.0 + 300 && t.1 < now.1),
        None => true,
    }
}

/// Whether `expires_at` has passed, or passes within five minutes, when the
/// local clock reads `now`.
pub fn is_expired_at(expires_at: &str, now: (i64, u32)) -> (r: bool)
    requires
        stamp_in_supported_years(now),
    ensures
        r == expired_at(expires_at@, now),
{
    if expires_at.is_empty() {
        return true;
    }
    let p1 = parse_stamp(expires_at, FMT_ISO_MILLIS);
    let p = match p1 {
        Some(t) => Some(t),
        None => {
            let p2 = parse_stamp(expires_at, FMT_PLAIN);
            match p2 {
                Some(t) => Some(t),
                None => parse_stamp(expires_at, FMT_SLASH),
            }
        },
    };
    expired_by(p, now)
}

/// Whether `expires_at` has passed, or passes within five minutes, by the
/// local clock. The clock reading is not known here; the result is that of
/// `expired_at` at some reading, so an empty or unreadable text is always
/// expired.
pub fn is_expired(expires_at: &str) -> (r: bool)
    ensures
        exists|now: (i64, u32)| stamp_in_supported_years(now) && r == expired_at(expires_at@, now),
        expires_at@.len() == 0 ==> r,
        first_parse(expires_at@, FMT_ISO_MILLIS@, FMT_PLAIN@, FMT_SLASH@) is None ==> r,
{
    let now = local_now();
    is_expired_at(expires_at, now)
}

/// The lifetime used for a token whose reported lifetime is `secs`: an hour
/// when none (or a non-positive one) is reported.
pub open spec fn lifetime_of(secs: i64) -> i64 {
    if secs <= 0 { 3600 } else { secs }
}

/// The largest number of seconds chrono accepts as a duration.
pub const MAX_DURATION_SECS: i64 = 9_223_372_036_854_775;

/// The expiry text for a token that lives `secs` seconds from the UTC clock
/// reading `now`, printed on a local clock that is `offset` seconds ahead of
/// UTC at that instant; `None` where the expiry cannot be represented.
pub open spec fn expiry_text(now: (i64, u32), offset: i32, secs: i64) -> Option<Seq<char>> {
    let life = lifetime_of(secs);
    if life > MAX_DURATION_SECS {
        None
    } else {
        stamp_text((now.0 + life + offset) as i64, now.1, FMT_PLAIN@)
    }
}

/// The expiry text for a token living `secs` seconds from `now`, printed with
/// the local offset `offset`.
pub fn expiry_text_at(now: (i64, u32), offset: i32, secs: i64) -> (r: Option<String>)
    requires
        stamp_in_supported_years(now),
        -86_400 < offset < 86_400,
    ensures
        opt_view(r) == expiry_text(now, offset, secs),
{
    let life: i64 = if secs <= 0 { 3600 } else { secs };
    if life > MAX_DURATION_SECS {
        return None;
    }
    format_stamp(now.0 + life + offset as i64, now.1, FMT_PLAIN)
}

/// The text of an optional string.
pub open spec fn opt_view(r: Option<String>) -> Option<Seq<char>> {
    match r {
        Some(s) => Some(s@),
        None => None,
    }
}

/// The local expiry text for a token that lives `secs` seconds from now (an
/// hour when `secs` is not positive), printed with the machine's UTC offset at
/// that instant; `None` where that instant cannot be represented. Neither the
/// clock reading nor the offset is known here: the result is that of
/// `expiry_text` at some reading and some offset within a day.
pub fn expires_in_to_ts(secs: i64) -> (r: Option<String>)
    ensures
        exists|now: (i64, u32), offset: i32| stamp_in_supported_years(now) && -86_400 < offset < 86_400
            && #[trigger] expiry_text(now, offset, secs) == opt_view(r),
{
    let now = utc_now();
    let life: i64 = if secs <= 0 { 3600 } else { secs };
    if life > MAX_DURATION_SECS {
        let r: Option<String> = None;
        assert(expiry_text(now, 0, secs) == opt_view(r));
        return r;
    }
    match local_offset_at(now.0 + life) {
        Some(offset) => {
            let r = expiry_text_at(now, offset, secs);
            assert(expiry_text(now, offset, secs) == opt_view(r));
            r
        },
        None => {
            // No offset exists for an instant chrono cannot represent; printing
            // it unshifted is then refused by chrono as well.
            let r = expiry_text_at(now, 0, secs);
            assert(expiry_text(now, 0, secs) == opt_view(r));
            r
        },
    }
}

/// How a stored expiry is shown in the accounts table: an empty text stays
/// empty; a `FMT_ISO_MILLIS` text is printed again as `FMT_PLAIN`; any other
/// text is kept.
pub open spec fn normalized_expiry(e: Seq<char>) -> Seq<char> {
    if e.len() == 0 {
        e
    } else {
        match parsed_stamp(e, FMT_ISO_MILLIS@) {
            Some(t) => stamp_text(t.0, t.1, FMT_PLAIN@).unwrap(),
            None => e,
        }
    }
}

/// Brings a stored expiry into the accounts table's pattern.
pub fn normalize_expires(e: &str) -> (r: String)
    ensures
        r@ == normalized_expiry(e@),
{
    if e.is_empty() {
        return String::new();
    }
    match parse_stamp(e, FMT_ISO_MILLIS) {
        Some(t) => match format_stamp(t.0, t.1, FMT_PLAIN) {
            Some(s) => s,
            None => e.to_string(),
        },
        None => e.to_string(),
    }
}

/// The ISO text for a stored expiry, when one of the known patterns reads
/// it: the first of `FMT_PLAIN`, `FMT_SLASH`, `FMT_ISO_MILLIS` that does,
/// printed as `FMT_ISO_OUT`.
pub open spec fn iso_expiry(e: Seq<char>) -> Option<Seq<char>> {
    if e.len() == 0 {
        None
    } else {
        match first_parse(e, FMT_PLAIN@, FMT_SLASH@, FMT_ISO_MILLIS@) {
            Some(t) => stamp_text(t.0, t.1, FMT_ISO_OUT@),
            None => None,
        }
    }
}

/// The ISO text for a stored expiry, or `None` when it is empty or no known
/// pattern reads it.
pub fn iso_expiry_of(e: &str) -> (r: Option<String>)
    ensures
        match r {
            Some(s) => iso_expiry(e@) == Some(s@),
            None => iso_expiry(e@) is None,
        },
{
    if e.is_empty() {
        return None;
    }
    let p1 = parse_stamp(e, FMT_PLAIN);
    let p = match p1 {
        Some(t) => Some(t),
        None => {
            let p2 = parse_stamp(e, FMT_SLASH);
            match p2 {
                Some(t) => Some(t),
                None => parse_stamp(e, FMT_ISO_MILLIS),
            }
        },
    };
    match p {
        Some(t) => format_stamp(t.0, t.1, FMT_ISO_OUT),
        None => None,
    }
}

/// The ISO text of the UTC clock reading `now` plus `secs` seconds; `None`
/// when `secs` is longer than a duration chrono accepts or the instant cannot
/// be printed.
pub open spec fn iso_after(now: (i64, u32), secs: int) -> Option<Seq<char>> {
    if secs > MAX_DURATION_SECS || secs < -MAX_DURATION_SECS {
        None
    } else {
        stamp_text((now.0 + secs) as i64, now.1, FMT_ISO_OUT@)
    }
}

/// The ISO text of the UTC clock reading `now` plus `secs` seconds.
pub fn iso_after_at(now: (i64, u32), secs: i64) -> (r: Option<String>)
    requires
        stamp_in_supported_years(now),
    ensures
        opt_view(r) == iso_after(now, secs as int),
{
    if secs > MAX_DURATION_SECS || secs < -MAX_DURATION_SECS {
        return None;
    }
    format_stamp(now.0 + secs, now.1, FMT_ISO_OUT)
}

/// The ISO text of the UTC clock plus `secs` seconds. The clock reading is
/// not known here: the text is `iso_after` at some reading (`None` when
/// `secs` is too long a duration or that instant lies outside the dates chrono
/// supports).
pub fn iso_after_now(secs: i64) -> (r: Option<String>)
    ensures
        exists|now: (i64, u32)| stamp_in_supported_years(now) && #[trigger] iso_after(now, secs as int) == opt_view(r),
{
    let now = utc_now();
    iso_after_at(now, secs)
}

/// The expiry written to the desktop client's token file at the UTC clock
/// reading `now`: the ISO text of the stored expiry when it can be read,
/// otherwise that of an hour after `now`.
pub open spec fn iso_or_hour(e: Seq<char>, now: (i64, u32)) -> Option<Seq<char>> {
    match iso_expiry(e) {
        Some(x) => Some(x),
        None => iso_after(now, 3600),
    }
}

/// The expiry written to the desktop client's token file at the UTC clock
/// reading `now`.
pub fn to_iso_expires_at(e: &str, now: (i64, u32)) -> (r: Option<String>)
    requires
        stamp_in_supported_years(now),
    ensures
        opt_view(r) == iso_or_hour(e@, now),
{
    match iso_expiry_of(e) {
        Some(s) => Some(s),
        None => iso_after_at(now, 3600),
    }
}

/// The expiry written to the desktop client's token file: the ISO text of
/// the stored expiry when it can be read, otherwise an hour from now by the
/// UTC clock, whose reading is not known here. `None` only when that hour
/// lies past the last date chrono supports.
pub fn to_iso_expires(e: &str) -> (r: Option<String>)
    ensures
        exists|now: (i64, u32)| stamp_in_supported_years(now) && #[trigger] iso_or_hour(e@, now) == opt_view(r),
        iso_expiry(e@) matches Some(x) ==> r matches Some(s) && s@ == x,
{
    let now = utc_now();
    to_iso_expires_at(e, now)
}

} // verus!
