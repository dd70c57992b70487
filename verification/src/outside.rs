//! Trusted declarations for the outside crates the library leans on.
//!
//! Everything here is believed, not proved: each item names the outside
//! function it relies on, and its contract states no more than that
//! function's source or documentation shows.

use vstd::prelude::*;

verus! {

// ---------------------------------------------------------------------------
// serde_json::Value — the opaque JSON tree carried by gateway envelopes
// ---------------------------------------------------------------------------

#[verifier::external_type_specification]
#[verifier::external_body]
pub struct ExValue(serde_json::Value);

/// Relies on `serde_json::Value::as_bool`: `Some` exactly for a JSON boolean.
/// Nothing is assumed about which value comes back.
pub assume_specification[ serde_json::Value::as_bool ](v: &serde_json::Value) -> Option<bool>;

/// Relies on `serde_json::Value::as_u64`: `Some` exactly for an unsigned
/// JSON integer.  Nothing is assumed about which value comes back.
pub assume_specification[ serde_json::Value::as_u64 ](v: &serde_json::Value) -> Option<u64>;

/// Relies on `serde_json::Value::get` with a string key: field lookup in a
/// JSON object.  Nothing is assumed about which value comes back.
#[verifier::external_body]
pub fn value_field<'a>(v: &'a serde_json::Value, key: &str) -> (r: Option<
    &'a serde_json::Value,
>) {
    v.get(key)
}

// ---------------------------------------------------------------------------
// std — pieces vstd gives no specification for
// ---------------------------------------------------------------------------

/// Relies on `String::push`: appends exactly one character.
#[verifier::external_body]
pub fn push_char(s: &mut String, c: char)
    ensures
        final(s)@ == old(s)@ + seq![c],
{
    s.push(c);
}

// ---------------------------------------------------------------------------
// rand — jitter draws
// ---------------------------------------------------------------------------

/// Relies on `rand::random`: an arbitrary value from the thread-local PRNG.
/// Nothing can be promised of a random value, so there is no contract.
pub assume_specification<T>[ rand::random::<T> ]() -> (r: T)
    where rand::distributions::Standard: rand::distributions::Distribution<T>
;

// ---------------------------------------------------------------------------
// chrono — calendar renderings used in command replies
// ---------------------------------------------------------------------------

/// What chrono renders for an epoch-milliseconds instant as a long date
/// (`%B %d, %Y`); a function of the milliseconds alone.
pub uninterp spec fn long_date_of(ms: i64) -> Option<Seq<char>>;

/// Relies on chrono's `DateTime::from_timestamp_millis` and `format`:
/// `None` only for out-of-range instants, and the text depends on the
/// milliseconds alone.
#[verifier::external_body]
pub fn format_long_date(ms: i64) -> (r: Option<String>)
    ensures
        r matches Some(s) ==> long_date_of(ms) == Some(s@),
        r is None <==> long_date_of(ms) is None,
{
    chrono::DateTime::from_timestamp_millis(ms).map(|dt| dt.format("%B %d, %Y").to_string())
}

/// What chrono renders for an epoch-milliseconds instant as a long date and
/// time (`%B %d, %Y at %H:%M UTC`); a function of the milliseconds alone.
pub uninterp spec fn long_date_time_of(ms: i64) -> Option<Seq<char>>;

/// Relies on chrono's `DateTime::from_timestamp_millis` and `format`:
/// `None` only for out-of-range instants, and the text depends on the
/// milliseconds alone.
#[verifier::external_body]
pub fn format_long_date_time(ms: i64) -> (r: Option<String>)
    ensures
        r matches Some(s) ==> long_date_time_of(ms) == Some(s@),
        r is None <==> long_date_time_of(ms) is None,
{
    chrono::DateTime::from_timestamp_millis(ms).map(
        |dt| dt.format("%B %d, %Y at %H:%M UTC").to_string(),
    )
}

/// What chrono's RFC 3339 parser accepts, as epoch milliseconds; a function
/// of the characters alone.
pub uninterp spec fn rfc3339_unix_ms(s: Seq<char>) -> Option<i64>;

/// Relies on chrono's `DateTime::parse_from_rfc3339` and `timestamp_millis`:
/// the result depends on the characters alone.
#[verifier::external_body]
pub fn parse_rfc3339_ms(s: &str) -> (r: Option<i64>)
    ensures
        r == rfc3339_unix_ms(s@),
{
    chrono::DateTime::parse_from_rfc3339(s).ok().map(|dt| dt.timestamp_millis())
}

} // verus!
