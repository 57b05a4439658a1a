use discord_bot::ids::Snowflake;
use discord_bot::reply::{settle, CommandError, Reply};
use discord_bot::voice::{
    current_channel, join, joined, leave, left, locate, track_error_line, Guild, Removal,
    VoiceRequest, VoiceState, VoiceTarget,
};

fn id(raw: u64) -> Snowflake {
    Snowflake::new(raw).unwrap()
}

fn row(user: u64, channel: Option<u64>) -> VoiceState {
    VoiceState { user: id(user), channel: channel.map(id) }
}

fn guild(raw: u64, rows: Vec<VoiceState>) -> Guild {
    Guild { id: id(raw), voice_states: rows }
}

#[test]
fn current_channel_finds_the_user() {
    let rows = vec![row(1, Some(100)), row(2, Some(200)), row(3, None)];
    assert_eq!(current_channel(&rows, id(1)), Some(id(100)));
    assert_eq!(current_channel(&rows, id(2)), Some(id(200)));
    assert_eq!(current_channel(&rows, id(3)), None);
    assert_eq!(current_channel(&rows, id(4)), None);
    assert_eq!(current_channel(&Vec::new(), id(1)), None);
}

#[test]
fn current_channel_goes_by_the_first_row() {
    let rows = vec![row(1, None), row(1, Some(100))];
    assert_eq!(current_channel(&rows, id(1)), None);
    let rows = vec![row(1, Some(100)), row(1, Some(200))];
    assert_eq!(current_channel(&rows, id(1)), Some(id(100)));
}

#[test]
fn locate_outside_a_guild() {
    assert_eq!(locate(None, id(1)), Err(CommandError::NotInGuild));
    assert_eq!(join(None, id(1)), Err(CommandError::NotInGuild));
    assert_eq!(leave(None, id(1)), Err(CommandError::NotInGuild));
}

#[test]
fn join_and_leave_outside_a_voice_channel_explain_themselves() {
    let g = guild(9, vec![row(2, Some(200)), row(3, None)]);
    for author in [1u64, 3] {
        let asked = join(Some(&g), id(author));
        assert_eq!(asked, Err(CommandError::NotInVoiceChannel));
        let asked = leave(Some(&g), id(author));
        assert_eq!(asked, Err(CommandError::NotInVoiceChannel));
        assert_eq!(
            settle(Err(CommandError::NotInVoiceChannel)),
            Reply::Text("You are not in a voice channel.".to_string())
        );
    }
}

#[test]
fn join_then_leave_then_leave_again() {
    let g = guild(9, vec![row(1, Some(100)), row(2, Some(200))]);
    let target = VoiceTarget { guild: id(9), channel: id(200) };

    assert_eq!(join(Some(&g), id(2)), Ok(VoiceRequest::Connect(target)));
    assert_eq!(joined(target, true), Ok(Reply::Text("Joining <#200>!".to_string())));

    assert_eq!(leave(Some(&g), id(2)), Ok(VoiceRequest::Disconnect(target)));
    assert_eq!(
        left(target, Removal::Removed),
        Ok(Reply::Text("Leaving <#200>!".to_string()))
    );

    assert_eq!(leave(Some(&g), id(2)), Ok(VoiceRequest::Disconnect(target)));
    let again = left(target, Removal::NoSession);
    assert_eq!(again, Err(CommandError::NothingToLeave));
    assert_eq!(
        settle(again),
        Reply::Text("There is no voice session to leave.".to_string())
    );
}

#[test]
fn join_that_fails_is_not_confirmed() {
    let target = VoiceTarget { guild: id(9), channel: id(200) };
    let outcome = joined(target, false);
    assert_eq!(outcome, Err(CommandError::JoinFailed));
    assert_eq!(
        settle(outcome),
        Reply::Text("The voice channel could not be joined.".to_string())
    );
}

#[test]
fn leave_that_fails_is_reported() {
    let target = VoiceTarget { guild: id(9), channel: id(200) };
    assert_eq!(left(target, Removal::Failed), Err(CommandError::LeaveFailed));
}

#[test]
fn confirmations_write_the_whole_channel_number() {
    let target = VoiceTarget { guild: id(1), channel: id(u64::MAX) };
    assert_eq!(
        joined(target, true),
        Ok(Reply::Text("Joining <#18446744073709551615>!".to_string()))
    );
    assert_eq!(
        left(target, Removal::Removed),
        Ok(Reply::Text("Leaving <#18446744073709551615>!".to_string()))
    );
}

#[test]
fn track_error_line_names_track_and_state() {
    assert_eq!(
        track_error_line("abc-123", "Errored(Parse)"),
        "Track abc-123 encountered an error: Errored(Parse)"
    );
    assert_eq!(track_error_line("", ""), "Track  encountered an error: ");
}
