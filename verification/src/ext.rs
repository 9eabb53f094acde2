//! Calls into outside crates (chrono, uuid, dirs) and into parts of std that
//! touch the machine. Each item states what the called function's source or
//! documentation shows, and nothing more.
use vstd::prelude::*;
use crate::time::representable;

verus! {

/// Calls chrono's `Utc::now()` and its `timestamp_micros()`. The value is the
/// clock's reading and so is left free, but for this: chrono builds the
/// `DateTime<Utc>` through `DateTime::from_timestamp(..).unwrap()`, so the
/// instant lies in the range chrono can hold, and `Utc::now` panics (it
/// calls `expect`) when the system clock reads earlier than the epoch.
#[verifier::external_body]
pub fn now_micros() -> (m: i64)
    ensures
        representable(m),
        m >= 0,
{
    chrono::Utc::now().timestamp_micros()
}

/// What chrono prints for the instant `micros` (microseconds since the epoch,
/// UTC) with the strftime-style `pattern`.
pub uninterp spec fn utc_text(micros: i64, pattern: Seq<char>) -> Seq<char>;

/// The patterns that this library prints instants with.
pub open spec fn known_pattern(pattern: Seq<char>) -> bool {
    ||| pattern == "%Y-%m-%d %H:%M:%S"@
    ||| pattern == "%m/%d %H:%M"@
    ||| pattern == "%Y-%m-%d-%H%M%S"@
    ||| pattern == "%Y-%m-%d %H:%M UTC"@
}

/// Calls chrono's `DateTime::from_timestamp_micros` and then `format(pattern)`
/// and `to_string()`. The result is named `utc_text(micros, pattern)`; it is
/// claimed to depend on these two arguments alone (the time zone is UTC).
/// `from_timestamp_micros` returns `Some` on the representable range, and
/// every known pattern is valid, so neither the `unwrap` nor `to_string` panics.
#[verifier::external_body]
pub fn format_utc(micros: i64, pattern: &str) -> (r: String)
    requires
        representable(micros),
        known_pattern(pattern@),
    ensures
        r@ == utc_text(micros, pattern@),
{
    chrono::DateTime::from_timestamp_micros(micros).unwrap().format(pattern).to_string()
}

/// What chrono's `to_rfc3339` gives for the instant `micros`
/// (microseconds since the epoch, UTC).
pub uninterp spec fn utc_rfc3339(micros: i64) -> Seq<char>;

/// Calls chrono's `DateTime::from_timestamp_micros` and then `to_rfc3339`.
/// The result is named `utc_rfc3339(micros)`; it is claimed to depend on
/// `micros` alone. `from_timestamp_micros` returns `Some` on the
/// representable range, and writing into a `String` does not fail, so
/// neither the `unwrap` nor chrono's own `expect` panics.
#[verifier::external_body]
pub fn format_rfc3339(micros: i64) -> (r: String)
    requires
        representable(micros),
    ensures
        r@ == utc_rfc3339(micros),
{
    chrono::DateTime::from_timestamp_micros(micros).unwrap().to_rfc3339()
}

/// What std's `Debug` formatting writes for a slice of strings holding
/// `items` (a bracketed, comma-separated list of quoted, escaped strings).
pub uninterp spec fn debug_list(items: Seq<Seq<char>>) -> Seq<char>;

/// Formats `items` with std's `{:?}`. The result is named
/// `debug_list(..)` of the items' texts; it is claimed to depend on them
/// alone.
#[verifier::external_body]
pub fn format_debug_list(items: &[String]) -> (r: String)
    ensures
        r@ == debug_list(crate::text::string_views(items@)),
{
    format!("{:?}", items)
}

/// A lower-case hexadecimal digit.
pub open spec fn is_hex_lower(c: char) -> bool {
    ('0' <= c && c <= '9') || ('a' <= c && c <= 'f')
}

/// The shape of a hyphenated UUID: 36 characters, hyphens at positions 8,
/// 13, 18 and 23, lower-case hexadecimal digits elsewhere.
pub open spec fn is_uuid_text(s: Seq<char>) -> bool {
    &&& s.len() == 36
    &&& forall|i: int|
        0 <= i < 36 ==> if i == 8 || i == 13 || i == 18 || i == 23 {
            s[i] == '-'
        } else {
            is_hex_lower(#[trigger] s[i])
        }
}

/// Calls uuid's `Uuid::new_v4()` and `to_string()`. The value is random; its
/// shape is that of uuid's `Display`, which writes the hyphenated lower-case
/// form (`format_hyphenated`, `Hyphenated::LENGTH == 36`).
#[verifier::external_body]
pub fn new_uuid() -> (s: String)
    ensures
        is_uuid_text(s@),
{
    uuid::Uuid::new_v4().to_string()
}

/// Calls dirs' `home_dir()` and renders the path with `to_string_lossy`.
/// The answer depends on the platform and the environment, so nothing is
/// claimed of it.
#[verifier::external_body]
pub fn home_dir_text() -> (r: Option<String>) {
    dirs::home_dir().map(|p| p.to_string_lossy().into_owned())
}

/// Calls std's `Instant::now()`. The reading depends on the clock, so
/// nothing is claimed of it.
#[verifier::external_body]
pub fn instant_now() -> (r: std::time::Instant) {
    std::time::Instant::now()
}

/// std's monotonic clock reading.
#[verifier::external_type_specification]
#[verifier::external_body]
pub struct ExInstant(std::time::Instant);

} // verus!
