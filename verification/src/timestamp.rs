//! Timestamps: the current instant, and its RFC 3339 / ISO 8601 text.

use vstd::prelude::*;

verus! {

#[verifier::external_type_specification]
#[verifier::external_body]
pub struct ExOffsetDateTime(time::OffsetDateTime);

#[verifier::external_type_specification]
#[verifier::external_body]
pub struct ExFormat(time::error::Format);

/// The instant in which events are stamped.
pub type Timestamp = time::OffsetDateTime;

/// Creating and printing timestamps.
pub trait TimestampExt: Sized {
    /// The current instant.
    fn now() -> Self;

    /// The instant as RFC 3339 / ISO 8601 text.
    fn to_iso8601(&self) -> String;
}

/// The RFC 3339 text that `time::OffsetDateTime::format` with `Rfc3339`
/// gives for `t`, or `None` where it fails.
pub uninterp spec fn offset_rfc3339_text(t: time::OffsetDateTime) -> Option<Seq<char>>;

/// The offset from UTC, in whole seconds, that `time::OffsetDateTime::offset`
/// gives for `t` (read through `UtcOffset::whole_seconds`).
pub uninterp spec fn offset_whole_seconds(t: time::OffsetDateTime) -> int;

/// `time::OffsetDateTime::now_utc`: the system clock's current instant, in
/// UTC. Of the instant nothing is stated, since it depends on the clock; its
/// offset is UTC, as `now_utc` adds the elapsed time to `UNIX_EPOCH`.
#[verifier::external_body]
fn offset_now_utc() -> (r: time::OffsetDateTime)
    ensures
        offset_whole_seconds(r) == 0,
{
    time::OffsetDateTime::now_utc()
}

/// `time::OffsetDateTime::format` with the `Rfc3339` description: the text
/// for `t`, or the formatting error; which of the two depends on `t` alone.
#[verifier::external_body]
fn offset_rfc3339(t: time::OffsetDateTime) -> (r: Result<String, time::error::Format>)
    ensures
        r is Ok <==> offset_rfc3339_text(t) is Some,
        r matches Ok(s) ==> s@ == offset_rfc3339_text(t)->0,
{
    t.format(&time::format_description::well_known::Rfc3339)
}

impl TimestampExt for time::OffsetDateTime {
    /// The clock's current instant, in UTC.
    fn now() -> (r: Self)
        ensures
            offset_whole_seconds(r) == 0,
    {
        offset_now_utc()
    }

    /// The RFC 3339 text, or the empty text where formatting fails.
    fn to_iso8601(&self) -> (r: String)
        ensures
            r@ == match offset_rfc3339_text(*self) {
                Some(s) => s,
                None => Seq::empty(),
            },
    {
        match offset_rfc3339(*self) {
            Ok(s) => s,
            Err(_) => String::new(),
        }
    }
}

} // verus!
