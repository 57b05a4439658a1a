//! What is asked of the `serenity` crate: the time held in an identifier,
//! and the reading and writing of times as text.

use vstd::prelude::*;

verus! {

/// The instant that `serenity::model::Timestamp::parse` reads from `text`,
/// in milliseconds since 1970-01-01T00:00:00Z; `None` where it refuses the
/// text as no RFC 3339 date and time.
pub uninterp spec fn rfc3339_unix_millis(text: Seq<char>) -> Option<i64>;

/// Calls `serenity::model::Timestamp::parse` and, on success, chrono's
/// `DateTime::timestamp_millis` on what it gave. Nothing is claimed of which
/// texts are accepted: the result is the named one, whatever it is.
#[verifier::external_body]
pub(crate) fn parse_rfc3339(text: &str) -> (r: Option<i64>)
    ensures
        r == rfc3339_unix_millis(text@),
{
    match serenity::model::Timestamp::parse(text) {
        Ok(stamp) => Some(stamp.timestamp_millis()),
        Err(_) => None,
    }
}

/// The text that the `Display` of `serenity::model::Timestamp` writes for
/// the instant `unix_millis` milliseconds after 1970-01-01T00:00:00Z.
pub uninterp spec fn rfc3339_text(unix_millis: i64) -> Seq<char>;

/// The last millisecond of the year 9999.
pub const LAST_FOUR_DIGIT_MILLIS: i64 = 253_402_300_799_999;

/// Calls `serenity::model::Timestamp::from_millis` and, where that gives a
/// timestamp, its `to_string`. Two things are claimed: the text is the
/// named one, and an instant from 1970 to the end of 9999 is never refused
/// (chrono holds dates far beyond, and refuses only what it cannot hold).
#[verifier::external_body]
pub(crate) fn format_rfc3339(unix_millis: i64) -> (r: Option<String>)
    ensures
        r matches Some(text) ==> text@ == rfc3339_text(unix_millis),
        0 <= unix_millis <= LAST_FOUR_DIGIT_MILLIS ==> r is Some,
{
    match serenity::model::Timestamp::from_millis(unix_millis) {
        Ok(stamp) => Some(stamp.to_string()),
        Err(_) => None,
    }
}

/// The first millisecond of 2015, from which identifiers count their time.
pub const DISCORD_EPOCH_MILLIS: u64 = 1_420_070_400_000;

/// The instant at which the identifier `id` was issued: the bits above the
/// lowest 22 count the milliseconds since the first moment of 2015.
pub open spec fn creation_millis(id: u64) -> int {
    (id >> 22) + DISCORD_EPOCH_MILLIS
}

/// Calls `serenity::model::id::UserId::new`, `created_at` on the result and
/// chrono's `DateTime::timestamp_millis` on the timestamp. `UserId::new`
/// panics on zero, which `requires` leaves out. `created_at` shifts the
/// identifier right by 22 bits and adds the epoch, as the contract says.
#[verifier::external_body]
pub(crate) fn created_at_millis(id: u64) -> (r: i64)
    requires
        id != 0,
    ensures
        r == creation_millis(id),
{
    serenity::model::id::UserId::new(id).created_at().timestamp_millis()
}

} // verus!
