//! Time resolution: a time expression (`now`, an epoch-seconds integer, a
//! natural-language phrase, or an RFC 3339 timestamp) to epoch seconds, and
//! epoch seconds back to text.

use vstd::prelude::*;

use crate::errors::{DatadogError, ErrorView};
use crate::text::{
    chars_of, i64_literal, lower_of, lowercase, parse_i64, push_str, same_chars, signed_decimal,
    signed_decimal_chars, push_all, string_of, trim_chars, trimmed,
};

verus! {

// ---------------------------------------------------------------------------
// What the outside crates compute

/// Relies on chrono's `Utc::now`: the current time in whole epoch seconds.
/// Nothing is promised of the value.
#[verifier::external_body]
fn current_timestamp() -> (r: i64) {
    chrono::Utc::now().timestamp()
}

/// The instant that interim reads in a natural-language phrase, relative to
/// `now` (epoch seconds), in the US dialect.
pub uninterp spec fn natural_time(s: Seq<char>, now: i64) -> Option<i64>;

/// Relies on interim's `parse_date_string` (US dialect), with `now` turned
/// into a chrono `DateTime<Utc>` by `DateTime::from_timestamp`: the result
/// depends on the phrase and on `now` alone. interim reads numbers of at
/// most four digits and moves dates with chrono's checked operations, so
/// no input makes it panic.
#[verifier::external_body]
fn parse_natural(s: &str, now: i64) -> (r: Option<i64>)
    ensures
        r == natural_time(s@, now),
{
    let base = chrono::DateTime::from_timestamp(now, 0)?;
    match interim::parse_date_string(s, base, interim::Dialect::Us) {
        Ok(dt) => Some(dt.timestamp()),
        Err(_) => None,
    }
}

/// The instant, in epoch seconds, that an RFC 3339 timestamp denotes.
pub uninterp spec fn rfc3339_instant(s: Seq<char>) -> Option<i64>;

/// Relies on chrono's `DateTime::parse_from_rfc3339` and `timestamp`.
#[verifier::external_body]
fn parse_rfc3339(s: &str) -> (r: Option<i64>)
    ensures
        r == rfc3339_instant(s@),
{
    match chrono::DateTime::parse_from_rfc3339(s) {
        Ok(dt) => Some(dt.timestamp()),
        Err(_) => None,
    }
}

/// The RFC 3339 text of an instant in UTC; none outside chrono's range.
pub uninterp spec fn rfc3339_text(t: i64) -> Option<Seq<char>>;

/// Relies on chrono's `DateTime::from_timestamp` and `to_rfc3339`.
#[verifier::external_body]
fn format_rfc3339(t: i64) -> (r: Option<String>)
    ensures
        r matches Some(s) ==> rfc3339_text(t) == Some(s@),
        r is None ==> rfc3339_text(t) is None,
{
    let dt = chrono::DateTime::from_timestamp(t, 0)?;
    Some(dt.to_rfc3339())
}

/// The text `YYYY-MM-DD HH:MM:SS UTC` of an instant; none outside chrono's range.
pub uninterp spec fn utc_text(t: i64) -> Option<Seq<char>>;

/// Relies on chrono's `DateTime::from_timestamp` and `format` with the
/// pattern `%Y-%m-%d %H:%M:%S UTC`.
#[verifier::external_body]
fn format_utc(t: i64) -> (r: Option<String>)
    ensures
        r matches Some(s) ==> utc_text(t) == Some(s@),
        r is None ==> utc_text(t) is None,
{
    let dt = chrono::DateTime::from_timestamp(t, 0)?;
    Some(dt.format("%Y-%m-%d %H:%M:%S UTC").to_string())
}

// ---------------------------------------------------------------------------
// Resolution

/// Whether the expression is the word `now`, in any case, with white space
/// around it allowed.
pub open spec fn is_now_word(s: Seq<char>) -> bool {
    lower_of(trimmed(s)) == seq!['n', 'o', 'w']
}

/// The instant a time expression denotes, trying in order: the word `now`,
/// an integer of epoch seconds, a natural-language phrase, an RFC 3339
/// timestamp.
pub open spec fn resolved_time(s: Seq<char>, now: i64) -> Option<i64> {
    if is_now_word(s) {
        Some(now)
    } else if i64_literal(s) is Some {
        Some(i64_literal(s).unwrap() as i64)
    } else if natural_time(s, now) is Some {
        natural_time(s, now)
    } else {
        rfc3339_instant(s)
    }
}

/// The message of a time expression that resolves to nothing.
pub open spec fn unparsable_message(s: Seq<char>) -> Seq<char> {
    "Unable to parse time: '"@ + s + "'"@
}

/// What resolving a time expression gives, errors included.
pub open spec fn time_outcome(s: Seq<char>, now: i64) -> Result<i64, ErrorView> {
    match resolved_time(s, now) {
        Some(t) => Ok(t),
        None => Err(ErrorView::DateParse(unparsable_message(s))),
    }
}

/// The view of a result whose error is a `DatadogError`.
pub open spec fn result_view<T>(r: Result<T, DatadogError>) -> Result<T, ErrorView> {
    match r {
        Ok(t) => Ok(t),
        Err(e) => Err(e@),
    }
}

/// Whether the expression is the word `now`.
fn is_now(input: &str) -> (r: bool)
    ensures
        r == is_now_word(input@),
{
    let trimmed_chars = trim_chars(&chars_of(input));
    let lowered = lowercase(string_of(&trimmed_chars).as_str());
    let mut word: Vec<char> = Vec::new();
    word.push('n');
    word.push('o');
    word.push('w');
    assert(word@ =~= seq!['n', 'o', 'w']);
    same_chars(&chars_of(lowered.as_str()), &word)
}

/// Resolves a time expression to epoch seconds, with `now` as the current time.
pub fn parse_time_at(input: &str, now: i64) -> (r: Result<i64, DatadogError>)
    ensures
        result_view(r) == time_outcome(input@, now),
{
    if is_now(input) {
        return Ok(now);
    }
    if let Some(t) = parse_i64(&chars_of(input)) {
        return Ok(t);
    }
    if let Some(t) = parse_natural(input, now) {
        return Ok(t);
    }
    if let Some(t) = parse_rfc3339(input) {
        return Ok(t);
    }
    let mut msg: Vec<char> = Vec::new();
    push_str(&mut msg, "Unable to parse time: '");
    push_str(&mut msg, input);
    push_str(&mut msg, "'");
    Err(DatadogError::DateParseError(string_of(&msg)))
}

/// Resolves a time expression to epoch seconds against the clock.
pub fn parse_time(input: &str) -> (r: Result<i64, DatadogError>)
    ensures
        exists|now: i64| result_view(r) == #[trigger] time_outcome(input@, now),
{
    let now = current_timestamp();
    parse_time_at(input, now)
}

/// The RFC 3339 text of an instant, or an error outside the representable range.
pub fn timestamp_to_iso8601(timestamp: i64) -> (r: Result<String, DatadogError>)
    ensures
        r matches Ok(s) ==> rfc3339_text(timestamp) == Some(s@),
        r matches Err(e) ==> rfc3339_text(timestamp) is None && e@ == ErrorView::InvalidInput(
            "Invalid timestamp"@,
        ),
{
    match format_rfc3339(timestamp) {
        Some(s) => Ok(s),
        None => Err(DatadogError::InvalidInput(String::from_str("Invalid timestamp"))),
    }
}

/// An instant as `YYYY-MM-DD HH:MM:SS UTC`, or a note that it is out of range.
pub fn format_timestamp(timestamp: i64) -> (r: String)
    ensures
        r@ == match utc_text(timestamp) {
            Some(s) => s,
            None => "Invalid timestamp: "@ + signed_decimal(timestamp as int),
        },
{
    match format_utc(timestamp) {
        Some(s) => s,
        None => {
            let mut msg: Vec<char> = Vec::new();
            push_str(&mut msg, "Invalid timestamp: ");
            let digits = signed_decimal_chars(timestamp);
            push_all(&mut msg, &digits);
            string_of(&msg)
        },
    }
}

/// Epoch seconds as the decimal text of epoch milliseconds; an error where
/// the milliseconds do not fit an `i64`.
pub fn millis_text(seconds: i64) -> (r: Result<String, DatadogError>)
    ensures
        i64::MIN <= seconds * 1000 <= i64::MAX ==> (r matches Ok(s) && s@ == signed_decimal(
            seconds * 1000,
        )),
        !(i64::MIN <= seconds * 1000 <= i64::MAX) ==> (r matches Err(e) && e@
            == ErrorView::InvalidInput("Invalid timestamp"@)),
{
    if seconds < -9_223_372_036_854_775 || seconds > 9_223_372_036_854_775 {
        return Err(DatadogError::InvalidInput(String::from_str("Invalid timestamp")));
    }
    let ms = seconds * 1000;
    Ok(string_of(&signed_decimal_chars(ms)))
}

// ---------------------------------------------------------------------------
// Time ranges

/// A resolved time range in epoch seconds.
pub enum TimeParams {
    Timestamp { from: i64, to: i64 },
}

/// The start of a range when none is given.
pub open spec fn default_from() -> Seq<char> {
    "1 hour ago"@
}

/// The end of a range when none is given.
pub open spec fn default_to() -> Seq<char> {
    "now"@
}

/// The expression in force: the given one, else the default.
pub open spec fn given_or(s: Option<&str>, default: Seq<char>) -> Seq<char> {
    match s {
        Some(x) => x@,
        None => default,
    }
}

/// What resolving a range gives: both ends resolved, or the first error.
pub open spec fn range_outcome(from: Seq<char>, to: Seq<char>, now: i64) -> Result<(i64, i64), ErrorView> {
    match time_outcome(from, now) {
        Err(e) => Err(e),
        Ok(f) => match time_outcome(to, now) {
            Err(e) => Err(e),
            Ok(t) => Ok((f, t)),
        },
    }
}

/// The view of a resolved range.
pub open spec fn range_view(r: Result<TimeParams, DatadogError>) -> Result<(i64, i64), ErrorView> {
    match r {
        Ok(TimeParams::Timestamp { from, to }) => Ok((from, to)),
        Err(e) => Err(e@),
    }
}

/// Resolves a range whose ends default to `1 hour ago` and `now`.
pub fn parse_time_range_at(from: Option<&str>, to: Option<&str>, now: i64) -> (r: Result<
    TimeParams,
    DatadogError,
>)
    ensures
        range_view(r) == range_outcome(
            given_or(from, default_from()),
            given_or(to, default_to()),
            now,
        ),
{
    let from_s = match from {
        Some(f) => f,
        None => "1 hour ago",
    };
    let to_s = match to {
        Some(t) => t,
        None => "now",
    };
    let f = parse_time_at(from_s, now)?;
    let t = parse_time_at(to_s, now)?;
    Ok(TimeParams::Timestamp { from: f, to: t })
}

/// Resolves a range against the clock.
pub fn parse_time_range(from: Option<&str>, to: Option<&str>) -> (r: Result<TimeParams, DatadogError>)
    ensures
        exists|now: i64|
            range_view(r) == #[trigger] range_outcome(
                given_or(from, default_from()),
                given_or(to, default_to()),
                now,
            ),
{
    let now = current_timestamp();
    parse_time_range_at(from, to, now)
}

/// What resolving a range to RFC 3339 text gives.
pub open spec fn iso_range_outcome(from: Seq<char>, to: Seq<char>, now: i64) -> Result<
    (Seq<char>, Seq<char>),
    ErrorView,
> {
    match range_outcome(from, to, now) {
        Err(e) => Err(e),
        Ok((f, t)) => match (rfc3339_text(f), rfc3339_text(t)) {
            (Some(fs), Some(ts)) => Ok((fs, ts)),
            _ => Err(ErrorView::InvalidInput("Invalid timestamp"@)),
        },
    }
}

/// The view of a range resolved to text.
pub open spec fn iso_range_view(r: Result<(String, String), DatadogError>) -> Result<
    (Seq<char>, Seq<char>),
    ErrorView,
> {
    match r {
        Ok((f, t)) => Ok((f@, t@)),
        Err(e) => Err(e@),
    }
}

/// Resolves a range and renders both ends as RFC 3339 text.
pub fn parse_time_range_iso8601_at(from: Option<&str>, to: Option<&str>, now: i64) -> (r: Result<
    (String, String),
    DatadogError,
>)
    ensures
        iso_range_view(r) == iso_range_outcome(
            given_or(from, default_from()),
            given_or(to, default_to()),
            now,
        ),
{
    let range = parse_time_range_at(from, to, now)?;
    let TimeParams::Timestamp { from: f, to: t } = range;
    let from_iso = timestamp_to_iso8601(f)?;
    let to_iso = timestamp_to_iso8601(t)?;
    Ok((from_iso, to_iso))
}

/// Resolves a range against the clock and renders both ends as RFC 3339 text.
pub fn parse_time_range_iso8601(from: Option<&str>, to: Option<&str>) -> (r: Result<
    (String, String),
    DatadogError,
>)
    ensures
        exists|now: i64|
            iso_range_view(r) == #[trigger] iso_range_outcome(
                given_or(from, default_from()),
                given_or(to, default_to()),
                now,
            ),
{
    let now = current_timestamp();
    parse_time_range_iso8601_at(from, to, now)
}

} // verus!
