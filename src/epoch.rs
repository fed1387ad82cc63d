use vstd::prelude::*;

verus! {

/// Seconds from 1970-01-01T00:00:00 to 2000-01-01T00:00:00.
pub const J2000_UNIX_SECONDS: i64 = 946684800;

/// Seconds since 1970-01-01T00:00:00 (UTC) of a date written
/// `YYYY-MM-DDTHH:MM:SS`, as chrono reads it; `None` where chrono rejects it.
pub uninterp spec fn unix_seconds_of(s: Seq<char>) -> Option<int>;

/// Relies on chrono's `NaiveDateTime::parse_from_str` with the format
/// `%Y-%m-%dT%H:%M:%S`, and on `and_utc().timestamp()` for the seconds since
/// 1970-01-01T00:00:00 of the instant parsed.
#[verifier::external_body]
fn parse_unix_seconds(s: &str) -> (r: Option<i64>)
    ensures
        r matches Some(t) ==> unix_seconds_of(s@) == Some(t as int),
        r is None ==> unix_seconds_of(s@) is None,
{
    match chrono::NaiveDateTime::parse_from_str(s, "%Y-%m-%dT%H:%M:%S") {
        Ok(t) => Some(t.and_utc().timestamp()),
        Err(_) => None,
    }
}

/// Why an epoch could not be read.
#[derive(Clone, Copy, Debug, PartialEq, Eq, Structural)]
pub enum EpochError {
    /// The text is not a date `YYYY-MM-DDTHH:MM:SS`.
    BadDate,
}

/// Seconds since 2000-01-01T00:00:00 of an epoch written with the seconds
/// since 1970-01-01T00:00:00 `unix_s`.
pub open spec fn since_j2000(unix_s: int) -> int {
    unix_s - J2000_UNIX_SECONDS
}

/// The epoch `date`, `YYYY-MM-DDTHH:MM:SS`, in seconds since
/// 2000-01-01T00:00:00.
pub fn epoch_seconds(date: &str) -> (r: Result<i64, EpochError>)
    ensures
        match unix_seconds_of(date@) {
            Some(t) => if i64::MIN <= since_j2000(t) {
                r == Ok::<i64, EpochError>(since_j2000(t) as i64)
            } else {
                r == Err::<i64, EpochError>(EpochError::BadDate)
            },
            None => r == Err::<i64, EpochError>(EpochError::BadDate),
        },
{
    match parse_unix_seconds(date) {
        Some(t) => {
            if t < i64::MIN + J2000_UNIX_SECONDS {
                Err(EpochError::BadDate)
            } else {
                Ok(t - J2000_UNIX_SECONDS)
            }
        },
        None => Err(EpochError::BadDate),
    }
}

} // verus!
