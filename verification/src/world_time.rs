//! The `timezone` command: one question to a world-time service, and the
//! embed made of its answer.

use vstd::prelude::*;
use vstd::string::*;
use crate::platform::{parse_rfc3339, rfc3339_unix_millis};
use crate::reply::{failure_text, outcome_is, settled, CommandError, Embed, Reply, ReplyView, Timestamp};

verus! {

/// The request that asks the service for the time in a city.
#[derive(Clone, Debug, PartialEq, Eq)]
pub struct Request {
    pub url: String,
    pub header_name: String,
    pub header_value: String,
}

/// The address that is asked for `city`. The city is put in as it is.
pub open spec fn request_url(city: Seq<char>) -> Seq<char> {
    "https://api.api-ninjas.com/v1/worldtime?city="@ + city
}

/// Builds the one GET request of a lookup: the city as the query and the
/// key in the header `X-Api-Key`.
pub fn lookup_request(city: &str, api_key: &str) -> (r: Request)
    ensures
        r.url@ == request_url(city@),
        r.header_name@ == "X-Api-Key"@,
        r.header_value@ == api_key@,
{
    let mut url = String::from_str("https://api.api-ninjas.com/v1/worldtime?city=");
    url.append(city);
    Request {
        url,
        header_name: String::from_str("X-Api-Key"),
        header_value: String::from_str(api_key),
    }
}

/// What the service said: the name of a time zone, and the local date and
/// time there as `YYYY-MM-DD HH:MM:SS`.
#[derive(Clone, Debug, PartialEq, Eq)]
pub struct WorldTime {
    pub timezone: String,
    pub datetime: String,
}

/// A space becomes the `T` that parts a date from a time.
pub open spec fn date_time_separator(c: char) -> char {
    if c == ' ' {
        'T'
    } else {
        c
    }
}

/// `datetime` with each space replaced by `T`, and `.000Z` behind it: the
/// local time relabelled as UTC, with no conversion.
pub open spec fn iso_text(datetime: Seq<char>) -> Seq<char> {
    datetime.map_values(|c: char| date_time_separator(c)) + ".000Z"@
}

/// The timestamp for what the parser made of the relabelled text.
pub open spec fn stamp(parsed: Option<i64>) -> Option<Timestamp> {
    match parsed {
        Some(unix_millis) => Some(Timestamp { unix_millis }),
        None => None,
    }
}

impl WorldTime {
    /// The date and time in the form that the platform's parser takes.
    pub fn iso_text(&self) -> (r: String)
        ensures
            r@ == iso_text(self.datetime@),
    {
        let mut out = String::new();
        for c in it: self.datetime.as_str().chars()
            invariant
                it.seq() == self.datetime@,
                out@.len() == it.index(),
                forall|j: int|
                    0 <= j < out@.len() ==> out@[j] == date_time_separator(self.datetime@[j]),
        {
            out.push(if c == ' ' { 'T' } else { c });
        }
        assert(out@ =~= self.datetime@.map_values(|c: char| date_time_separator(c)));
        out.append(".000Z");
        out
    }

    /// Reads the date and time as a timestamp, taking the local time for
    /// UTC. `None` where the text is refused as a date and a time.
    pub fn to_timestamp(self) -> (r: Option<Timestamp>)
        ensures
            r == stamp(rfc3339_unix_millis(iso_text(self.datetime@))),
    {
        let text = self.iso_text();
        match parse_rfc3339(text.as_str()) {
            Some(unix_millis) => Some(Timestamp { unix_millis }),
            None => None,
        }
    }
}

/// What came back from the service.
#[derive(Clone, Debug, PartialEq, Eq)]
pub enum Lookup {
    /// A body with both fields.
    Answer(WorldTime),
    /// No answer: the request failed on the way.
    Unreachable,
    /// A body that is not an object with a `timezone` and a `datetime` string.
    Malformed,
}

/// `City: city`
pub open spec fn embed_title(city: Seq<char>) -> Seq<char> {
    "City: "@ + city
}

/// `Timezone: timezone`
pub open spec fn embed_description(timezone: Seq<char>) -> Seq<char> {
    "Timezone: "@ + timezone
}

/// The outcome of `timezone` once the date and time were read.
pub open spec fn timezone_outcome(
    city: Seq<char>,
    timezone: Seq<char>,
    time: Option<Timestamp>,
) -> Result<ReplyView, CommandError> {
    match time {
        Some(at) => Ok(
            ReplyView::Embed {
                title: embed_title(city),
                description: embed_description(timezone),
                timestamp: Some(at),
            },
        ),
        None => Err(CommandError::InvalidDatetime),
    }
}

/// The embed for a city whose date and time read as `time`; the failure
/// `InvalidDatetime` where they did not read at all.
pub fn timezone_reply(city: &str, timezone: &str, time: Option<Timestamp>) -> (r: Result<
    Reply,
    CommandError,
>)
    ensures
        outcome_is(r, timezone_outcome(city@, timezone@, time)),
{
    match time {
        Some(at) => {
            let mut title = String::from_str("City: ");
            title.append(city);
            let mut description = String::from_str("Timezone: ");
            description.append(timezone);
            Ok(Reply::Embed(Embed { title, description, timestamp: Some(at) }))
        },
        None => Err(CommandError::InvalidDatetime),
    }
}

/// The outcome of `timezone` for each thing the service can have done.
pub open spec fn timezone_result(city: Seq<char>, lookup: Lookup) -> Result<
    ReplyView,
    CommandError,
> {
    match lookup {
        Lookup::Answer(answer) => timezone_outcome(
            city,
            answer.timezone@,
            stamp(rfc3339_unix_millis(iso_text(answer.datetime@))),
        ),
        Lookup::Unreachable => Err(CommandError::Transport),
        Lookup::Malformed => Err(CommandError::Decode),
    }
}

/// Whatever the city, a body that lacks a field makes `timezone` fail with
/// `Decode`, and the invocation still ends with one reply: the sentence
/// that reports the failure.
pub proof fn lemma_malformed_body_is_reported(city: Seq<char>)
    ensures
        timezone_result(city, Lookup::Malformed) == Err::<ReplyView, CommandError>(
            CommandError::Decode,
        ),
        settled(Err(CommandError::Decode)) == ReplyView::Text(
            failure_text(CommandError::Decode),
        ),
{
}

/// Answers `timezone` for `city` from what the service sent back. Only the
/// one invocation fails where the service did: with `Transport` where it
/// was not reached, `Decode` where the body lacks a field, and
/// `InvalidDatetime` where the date and time do not read.
pub fn timezone(city: &str, lookup: Lookup) -> (r: Result<Reply, CommandError>)
    ensures
        outcome_is(r, timezone_result(city@, lookup)),
{
    match lookup {
        Lookup::Answer(answer) => {
            let zone = answer.timezone.clone();
            let time = answer.to_timestamp();
            timezone_reply(city, zone.as_str(), time)
        },
        Lookup::Unreachable => Err(CommandError::Transport),
        Lookup::Malformed => Err(CommandError::Decode),
    }
}

} // verus!
