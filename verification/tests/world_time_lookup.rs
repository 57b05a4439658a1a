use discord_bot::reply::{failure_reply, settle, CommandError, Embed, Reply, Timestamp};
use discord_bot::world_time::{lookup_request, timezone, timezone_reply, Lookup, WorldTime};

fn answer(timezone: &str, datetime: &str) -> WorldTime {
    WorldTime { timezone: timezone.to_string(), datetime: datetime.to_string() }
}

#[test]
fn lookup_request_names_city_and_key() {
    let request = lookup_request("Warsaw", "k3y");
    assert_eq!(request.url, "https://api.api-ninjas.com/v1/worldtime?city=Warsaw");
    assert_eq!(request.header_name, "X-Api-Key");
    assert_eq!(request.header_value, "k3y");
}

#[test]
fn lookup_request_puts_the_city_in_as_it_is() {
    let request = lookup_request("New York&x=1", "");
    assert_eq!(request.url, "https://api.api-ninjas.com/v1/worldtime?city=New York&x=1");
    assert_eq!(request.header_value, "");
}

#[test]
fn iso_text_relabels_local_time_as_utc() {
    assert_eq!(
        answer("Europe/Warsaw", "2024-05-01 13:45:00").iso_text(),
        "2024-05-01T13:45:00.000Z"
    );
}

#[test]
fn iso_text_replaces_every_space() {
    assert_eq!(answer("", "").iso_text(), ".000Z");
    assert_eq!(answer("", " ").iso_text(), "T.000Z");
    assert_eq!(answer("", " a  b ").iso_text(), "TaTTbT.000Z");
    assert_eq!(answer("", "żółć\tT").iso_text(), "żółć\tT.000Z");
}

#[test]
fn to_timestamp_of_warsaw_example() {
    let stamp = answer("Europe/Warsaw", "2024-05-01 13:45:00").to_timestamp();
    assert_eq!(stamp, Some(Timestamp { unix_millis: 1_714_571_100_000 }));
    let parsed = serenity::model::Timestamp::parse("2024-05-01T13:45:00.000Z").unwrap();
    assert_eq!(stamp.unwrap().unix_millis, parsed.timestamp_millis());
}

#[test]
fn to_timestamp_of_the_epoch() {
    assert_eq!(
        answer("UTC", "1970-01-01 00:00:00").to_timestamp(),
        Some(Timestamp { unix_millis: 0 })
    );
    assert_eq!(
        answer("UTC", "1969-12-31 23:59:59").to_timestamp(),
        Some(Timestamp { unix_millis: -1000 })
    );
}

#[test]
fn to_timestamp_refuses_what_is_no_date_and_time() {
    assert_eq!(answer("UTC", "").to_timestamp(), None);
    assert_eq!(answer("UTC", "soon").to_timestamp(), None);
    assert_eq!(answer("UTC", "2024-05-01").to_timestamp(), None);
    assert_eq!(answer("UTC", "2024-13-01 00:00:00").to_timestamp(), None);
    assert_eq!(answer("UTC", "2024-05-01 13:45:00Z").to_timestamp(), None);
    assert_eq!(answer("UTC", "2024-05-01 13:45:00.5").to_timestamp(), None);
}

#[test]
fn timezone_builds_the_embed_for_warsaw() {
    let reply = timezone(
        "Warsaw",
        Lookup::Answer(answer("Europe/Warsaw", "2024-05-01 13:45:00")),
    );
    assert_eq!(
        reply,
        Ok(Reply::Embed(Embed {
            title: "City: Warsaw".to_string(),
            description: "Timezone: Europe/Warsaw".to_string(),
            timestamp: Some(Timestamp { unix_millis: 1_714_571_100_000 }),
        }))
    );
}

#[test]
fn timezone_with_missing_field_fails_with_decode() {
    for city in ["Warsaw", "", "Nowhere at all"] {
        let outcome = timezone(city, Lookup::Malformed);
        assert_eq!(outcome, Err(CommandError::Decode));
        assert_eq!(
            settle(outcome),
            Reply::Text("The world-time service sent an answer that could not be read.".to_string())
        );
    }
}

#[test]
fn timezone_with_unreachable_service_fails_with_transport() {
    let outcome = timezone("Warsaw", Lookup::Unreachable);
    assert_eq!(outcome, Err(CommandError::Transport));
    assert_eq!(
        settle(outcome),
        Reply::Text("The world-time service could not be reached.".to_string())
    );
}

#[test]
fn timezone_with_unreadable_datetime_fails_alone() {
    let outcome = timezone("Warsaw", Lookup::Answer(answer("Europe/Warsaw", "tomorrow")));
    assert_eq!(outcome, Err(CommandError::InvalidDatetime));
    assert_eq!(
        settle(outcome),
        Reply::Text("The world-time service sent a time that could not be read.".to_string())
    );
}

#[test]
fn timezone_reply_for_each_reading() {
    assert_eq!(
        timezone_reply("Oslo", "Europe/Oslo", Some(Timestamp { unix_millis: 5 })),
        Ok(Reply::Embed(Embed {
            title: "City: Oslo".to_string(),
            description: "Timezone: Europe/Oslo".to_string(),
            timestamp: Some(Timestamp { unix_millis: 5 }),
        }))
    );
    assert_eq!(
        timezone_reply("Oslo", "Europe/Oslo", None),
        Err(CommandError::InvalidDatetime)
    );
}

#[test]
fn settle_passes_a_reply_through() {
    let reply = Reply::Text("as it is".to_string());
    assert_eq!(settle(Ok(reply.clone())), reply);
}

#[test]
fn failure_reply_has_a_sentence_for_each_error() {
    let cases = [
        (CommandError::Transport, "The world-time service could not be reached."),
        (CommandError::Decode, "The world-time service sent an answer that could not be read."),
        (CommandError::InvalidDatetime, "The world-time service sent a time that could not be read."),
        (CommandError::NotInGuild, "This command only works inside a server."),
        (CommandError::NotInVoiceChannel, "You are not in a voice channel."),
        (CommandError::JoinFailed, "The voice channel could not be joined."),
        (CommandError::NothingToLeave, "There is no voice session to leave."),
        (CommandError::LeaveFailed, "The voice session could not be ended."),
    ];
    for (error, sentence) in cases {
        assert_eq!(failure_reply(error), Reply::Text(sentence.to_string()));
        assert_eq!(settle(Err(error)), Reply::Text(sentence.to_string()));
    }
}
