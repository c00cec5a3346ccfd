use vstd::prelude::*;

verus! {

#[verifier::external_type_specification]
#[verifier::external_body]
pub struct ExInstant(std::time::Instant);

/// Relies on std's `Instant::now`: a reading of the monotonic clock; nothing is known of it.
pub assume_specification[ std::time::Instant::now ]() -> std::time::Instant;

/// Relies on std's `Instant::elapsed`: the time since the reading; nothing is known of it.
pub assume_specification[ std::time::Instant::elapsed ](i: &std::time::Instant) -> core::time::Duration;

/// Relies on std's `Duration::as_nanos`: the whole number of nanoseconds in the duration.
pub assume_specification[ core::time::Duration::as_nanos ](d: &core::time::Duration) -> u128;

/// The offset suffix that RFC 3339 text carries for UTC when `Z` is not used.
pub open spec fn utc_suffix() -> Seq<char> {
    seq!['+', '0', '0', ':', '0', '0']
}

pub open spec fn is_ascii_digit(c: char) -> bool {
    '0' <= c && c <= '9'
}

/// Every character of `s` in `from..to` is a decimal digit.
pub open spec fn digits_between(s: Seq<char>, from: int, to: int) -> bool {
    forall|i: int| from <= i < to ==> is_ascii_digit(#[trigger] s[i])
}

/// `YYYY-MM-DDTHH:MM:SS`, then either nothing or `.` and 3, 6 or 9 digits of fraction,
/// then the UTC offset `+00:00`.
pub open spec fn is_four_digit_year_timestamp(s: Seq<char>) -> bool {
    &&& digits_between(s, 0, 4)
    &&& s[4] == '-'
    &&& digits_between(s, 5, 7)
    &&& s[7] == '-'
    &&& digits_between(s, 8, 10)
    &&& s[10] == 'T'
    &&& digits_between(s, 11, 13)
    &&& s[13] == ':'
    &&& digits_between(s, 14, 16)
    &&& s[16] == ':'
    &&& digits_between(s, 17, 19)
    &&& (s.len() == 25 || (s[19] == '.' && (s.len() == 29 || s.len() == 32 || s.len() == 35)
        && digits_between(s, 20, s.len() - 6)))
}

/// Month `01`..`12`, day `01`..`31`, hour `00`..`23`, minute and second `00`..`59`, at
/// their places in `YYYY-MM-DDTHH:MM:SS`.
pub open spec fn fields_in_range(s: Seq<char>) -> bool {
    &&& (s[5] == '0' && s[6] != '0') || (s[5] == '1' && s[6] <= '2')
    &&& s[8] <= '3' && !(s[8] == '0' && s[9] == '0') && (s[8] == '3' ==> s[9] <= '1')
    &&& s[11] <= '1' || (s[11] == '2' && s[12] <= '3')
    &&& s[14] <= '5'
    &&& s[17] <= '5'
}

/// A timestamp as this service writes it, in RFC 3339 form for UTC: a year from 1677 to
/// 2262 in four digits, the date-time shape above with each field in its range, and the
/// offset `+00:00`.
pub open spec fn is_utc_timestamp(s: Seq<char>) -> bool {
    &&& s.len() >= 25
    &&& s.subrange(s.len() - 6, s.len() as int) == utc_suffix()
    &&& is_four_digit_year_timestamp(s)
    &&& (s[0] == '1' || s[0] == '2')
    &&& fields_in_range(s)
}

/// The RFC 3339 text of the instant `nanos` nanoseconds after the Unix epoch (before it when
/// negative), in UTC.
pub uninterp spec fn rfc3339_text(nanos: i64) -> Seq<char>;

/// Relies on chrono's `DateTime::<Utc>::from_timestamp_nanos`, which is defined for every
/// `i64` (years 1677 to 2262), and `DateTime::to_rfc3339`, which writes the four-digit year,
/// two-digit month, day, hour, minute and second, a fraction of 0, 3, 6 or 9 digits, and
/// for UTC the offset as `+00:00`. The text depends on `nanos` alone.
#[verifier::external_body]
fn rfc3339_of_unix_nanos(nanos: i64) -> (r: String)
    ensures
        r@ == rfc3339_text(nanos),
        is_utc_timestamp(r@),
{
    chrono::DateTime::<chrono::Utc>::from_timestamp_nanos(nanos).to_rfc3339()
}

/// The RFC 3339 text, in UTC, of the instant `nanos` nanoseconds from the Unix epoch.
pub fn timestamp_at(nanos: i64) -> (r: String)
    ensures
        r@ == rfc3339_text(nanos),
        is_utc_timestamp(r@),
{
    rfc3339_of_unix_nanos(nanos)
}

#[verifier::external_type_specification]
#[verifier::external_body]
pub struct ExSystemTime(std::time::SystemTime);

#[verifier::external_type_specification]
#[verifier::external_body]
pub struct ExSystemTimeError(std::time::SystemTimeError);

/// Relies on std's `SystemTime::now`: a reading of the system clock; nothing is known of it.
pub assume_specification[ std::time::SystemTime::now ]() -> std::time::SystemTime;

/// Relies on std's `SystemTimeError::duration`: how far the reading lies before the point it
/// was compared with.
pub assume_specification[ std::time::SystemTimeError::duration ](e: &std::time::SystemTimeError) -> core::time::Duration;

/// Relies on std's `SystemTime::duration_since` against `UNIX_EPOCH`: the time since the
/// epoch, or an error carrying the time before it when the clock reads earlier.
#[verifier::external_body]
fn since_unix_epoch(t: &std::time::SystemTime) -> Result<core::time::Duration, std::time::SystemTimeError> {
    t.duration_since(std::time::UNIX_EPOCH)
}

/// Signed nanoseconds from the epoch for a reading `magnitude` nanoseconds after it (or
/// before it), held to the range of `i64`.
pub fn signed_unix_nanos(after_epoch: bool, magnitude: u128) -> (r: i64)
    ensures
        after_epoch ==> r == (if magnitude <= i64::MAX as u128 { magnitude as int } else { i64::MAX as int }),
        !after_epoch ==> r == (if magnitude <= i64::MAX as u128 { -(magnitude as int) } else { i64::MIN as int }),
{
    if magnitude <= i64::MAX as u128 {
        let m = magnitude as i64;
        if after_epoch { m } else { -m }
    } else if after_epoch {
        i64::MAX
    } else {
        i64::MIN
    }
}

/// The system clock as signed nanoseconds from the Unix epoch, held to the range of `i64`.
pub fn unix_nanos_now() -> i64 {
    let now = std::time::SystemTime::now();
    match since_unix_epoch(&now) {
        Ok(d) => signed_unix_nanos(true, d.as_nanos()),
        Err(e) => signed_unix_nanos(false, e.duration().as_nanos()),
    }
}

/// The current time as RFC 3339 text in UTC. A clock reading outside the years 1677 to 2262
/// is held to the nearest end of that range.
pub fn current_iso_timestamp() -> (r: String)
    ensures
        is_utc_timestamp(r@),
{
    timestamp_at(unix_nanos_now())
}

/// Nanoseconds elapsed since `start` was read.
pub fn elapsed_nanos(start: &std::time::Instant) -> u128 {
    start.elapsed().as_nanos()
}

} // verus!
