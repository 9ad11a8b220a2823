//! RFC 3339 timestamps, parsed and formatted by the `time` crate.
use time::format_description::well_known::Rfc3339;
use time::OffsetDateTime;
use vstd::prelude::*;

verus! {

/// The instant that an RFC 3339 text denotes, as nanoseconds since the Unix
/// epoch, or `None` where the text is not an RFC 3339 date-time (as the
/// `time` crate reads it).
pub uninterp spec fn rfc3339_unix_nanos(text: Seq<char>) -> Option<i128>;

/// The RFC 3339 text (in UTC) of the instant `nanos` nanoseconds after the
/// Unix epoch, or `None` where the `time` crate cannot represent or format
/// that instant.
pub uninterp spec fn rfc3339_text_of_unix_nanos(nanos: i128) -> Option<Seq<char>>;

/// The earliest instant an RFC 3339 text can denote, in nanoseconds since
/// the Unix epoch: `0000-01-01T00:00:00+23:59`.
pub open spec fn rfc3339_min_unix_nanos() -> int {
    -62_167_305_540_000_000_000
}

/// The latest instant an RFC 3339 text can denote, in nanoseconds since the
/// Unix epoch: `9999-12-31T23:59:59.999999999-23:59`.
pub open spec fn rfc3339_max_unix_nanos() -> int {
    253_402_387_139_999_999_999
}

/// Calls `time::OffsetDateTime::parse` with the `Rfc3339` description and,
/// on success, `OffsetDateTime::unix_timestamp_nanos`. Claimed: the result
/// depends on the text alone (it is `rfc3339_unix_nanos` of it), and a parsed
/// instant lies between the earliest and the latest that RFC 3339 text can
/// write: the `time` crate's RFC 3339 parser reads exactly four year digits,
/// a valid calendar date and time of day (a leap second becoming the
/// preceding nanosecond), and an offset whose hours are at most 23. Nothing
/// is claimed of which texts parse or what instant each denotes.
#[verifier::external_body]
pub(crate) fn parse_rfc3339_unix_nanos(text: &str) -> (r: Option<i128>)
    ensures
        r == rfc3339_unix_nanos(text@),
        r matches Some(nanos) ==> rfc3339_min_unix_nanos() <= nanos <= rfc3339_max_unix_nanos(),
{
    match OffsetDateTime::parse(text, &Rfc3339) {
        Ok(datetime) => Some(datetime.unix_timestamp_nanos()),
        Err(_) => None,
    }
}

/// Calls `time::OffsetDateTime::from_unix_timestamp_nanos` and, on success,
/// `OffsetDateTime::format` with the `Rfc3339` description. Claimed: the
/// result depends on `nanos` alone (it is `rfc3339_text_of_unix_nanos` of
/// it); nothing is claimed of the text itself.
#[verifier::external_body]
pub(crate) fn format_rfc3339_unix_nanos(nanos: i128) -> (r: Option<String>)
    ensures
        match r {
            Some(text) => rfc3339_text_of_unix_nanos(nanos) == Some(text@),
            None => rfc3339_text_of_unix_nanos(nanos) is None,
        },
{
    match OffsetDateTime::from_unix_timestamp_nanos(nanos) {
        Ok(datetime) => match datetime.format(&Rfc3339) {
            Ok(text) => Some(text),
            Err(_) => None,
        },
        Err(_) => None,
    }
}

} // verus!
