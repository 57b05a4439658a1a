//! The `join` and `leave` commands. Each runs in two halves: the first
//! finds where the user is and says what to ask of the voice-session
//! manager, the second turns the manager's answer into the reply.

use vstd::prelude::*;
use vstd::string::*;
use crate::ids::Snowflake;
use crate::reply::{failure_text, outcome_is, settled, CommandError, Reply, ReplyView};
use crate::text::{decimal, occurs_at, push_decimal};

verus! {

/// One row of a guild's voice-state table: a user, and the voice channel
/// that the user is connected to, if any.
#[derive(Clone, Copy, Debug, PartialEq, Eq)]
pub struct VoiceState {
    pub user: Snowflake,
    pub channel: Option<Snowflake>,
}

/// What a command reads of the guild it was invoked in.
#[derive(Clone, Debug, PartialEq, Eq)]
pub struct Guild {
    pub id: Snowflake,
    pub voice_states: Vec<VoiceState>,
}

/// A voice channel and the guild that holds it.
#[derive(Clone, Copy, Debug, PartialEq, Eq)]
pub struct VoiceTarget {
    pub guild: Snowflake,
    pub channel: Snowflake,
}

/// What the caller is to ask of the voice-session manager.
#[derive(Clone, Copy, Debug, PartialEq, Eq)]
pub enum VoiceRequest {
    /// Open a session to the channel of the target, in its guild.
    Connect(VoiceTarget),
    /// End the session of the target's guild.
    Disconnect(VoiceTarget),
}

/// What the manager did when asked to end a guild's session.
#[derive(Clone, Copy, Debug, PartialEq, Eq, Structural)]
pub enum Removal {
    /// There was a session, and it is gone.
    Removed,
    /// The guild had no session.
    NoSession,
    /// There is a session, and it could not be ended.
    Failed,
}

/// The channel in the first row of `states` that is about `user`; `None`
/// where no row is, or where that row names no channel.
pub open spec fn channel_of(states: Seq<VoiceState>, user: u64) -> Option<Snowflake>
    decreases states.len(),
{
    if states.len() == 0 {
        None
    } else if states[0].user.value() == user {
        states[0].channel
    } else {
        channel_of(states.drop_first(), user)
    }
}

/// Looks `user` up in a voice-state table.
pub fn current_channel(states: &Vec<VoiceState>, user: Snowflake) -> (r: Option<Snowflake>)
    ensures
        r == channel_of(states@, user.value()),
{
    let wanted = user.get();
    let mut i: usize = 0;
    assert(states@.subrange(0, states.len() as int) =~= states@);
    while i < states.len()
        invariant
            i <= states.len(),
            wanted == user.value(),
            channel_of(states@, wanted) == channel_of(states@.subrange(i as int, states.len() as int), wanted),
        decreases states.len() - i,
    {
        let ghost rest = states@.subrange(i as int, states.len() as int);
        assert(rest[0] == states@[i as int]);
        assert(rest.drop_first() =~= states@.subrange(i + 1, states.len() as int));
        if states[i].user.get() == wanted {
            return states[i].channel;
        }
        i = i + 1;
    }
    None
}

/// Where the author of a voice command is; the failure that is owed where
/// the command came from outside a guild or the author is in no channel.
pub open spec fn located(guild: Option<Guild>, author: Snowflake) -> Result<
    VoiceTarget,
    CommandError,
> {
    match guild {
        None => Err(CommandError::NotInGuild),
        Some(g) => match channel_of(g.voice_states@, author.value()) {
            None => Err(CommandError::NotInVoiceChannel),
            Some(channel) => Ok(VoiceTarget { guild: g.id, channel }),
        },
    }
}

/// The guild behind a reference, if there is one.
pub open spec fn seen(guild: Option<&Guild>) -> Option<Guild> {
    match guild {
        Some(g) => Some(*g),
        None => None,
    }
}

/// Finds the voice channel that `author` is in.
pub fn locate(guild: Option<&Guild>, author: Snowflake) -> (r: Result<VoiceTarget, CommandError>)
    ensures
        r == located(
            seen(guild),
            author,
        ),
{
    match guild {
        None => Err(CommandError::NotInGuild),
        Some(g) => match current_channel(&g.voice_states, author) {
            None => Err(CommandError::NotInVoiceChannel),
            Some(channel) => Ok(VoiceTarget { guild: g.id, channel }),
        },
    }
}

/// The first half of `join`: a session is asked for the channel that the
/// author is in, in the guild of the invocation.
pub open spec fn join_request(guild: Option<Guild>, author: Snowflake) -> Result<
    VoiceRequest,
    CommandError,
> {
    match located(guild, author) {
        Ok(target) => Ok(VoiceRequest::Connect(target)),
        Err(error) => Err(error),
    }
}

/// The first half of `leave`: the session of the guild is to be ended.
pub open spec fn leave_request(guild: Option<Guild>, author: Snowflake) -> Result<
    VoiceRequest,
    CommandError,
> {
    match located(guild, author) {
        Ok(target) => Ok(VoiceRequest::Disconnect(target)),
        Err(error) => Err(error),
    }
}

/// Starts `join`. On `Ok` the caller asks the manager to connect and goes
/// on with [`joined`]; on `Err` nothing is asked of the manager.
pub fn join(guild: Option<&Guild>, author: Snowflake) -> (r: Result<VoiceRequest, CommandError>)
    ensures
        r == join_request(
            seen(guild),
            author,
        ),
{
    match locate(guild, author) {
        Ok(target) => Ok(VoiceRequest::Connect(target)),
        Err(error) => Err(error),
    }
}

/// Starts `leave`. On `Ok` the caller asks the manager to end the session
/// and goes on with [`left`]; on `Err` nothing is asked of the manager.
pub fn leave(guild: Option<&Guild>, author: Snowflake) -> (r: Result<VoiceRequest, CommandError>)
    ensures
        r == leave_request(
            seen(guild),
            author,
        ),
{
    match locate(guild, author) {
        Ok(target) => Ok(VoiceRequest::Disconnect(target)),
        Err(error) => Err(error),
    }
}

/// `Joining <#channel>!`
pub open spec fn joining_text(channel: u64) -> Seq<char> {
    "Joining <#"@ + decimal(channel as nat) + ">!"@
}

/// `Leaving <#channel>!`
pub open spec fn leaving_text(channel: u64) -> Seq<char> {
    "Leaving <#"@ + decimal(channel as nat) + ">!"@
}

/// The outcome of `join` once the manager has answered.
pub open spec fn joined_outcome(target: VoiceTarget, connected: bool) -> Result<
    ReplyView,
    CommandError,
> {
    if connected {
        Ok(ReplyView::Text(joining_text(target.channel.value())))
    } else {
        Err(CommandError::JoinFailed)
    }
}

/// The outcome of `leave` once the manager has answered.
pub open spec fn left_outcome(target: VoiceTarget, removal: Removal) -> Result<
    ReplyView,
    CommandError,
> {
    match removal {
        Removal::Removed => Ok(ReplyView::Text(leaving_text(target.channel.value()))),
        Removal::NoSession => Err(CommandError::NothingToLeave),
        Removal::Failed => Err(CommandError::LeaveFailed),
    }
}

/// Ends `join`: the confirmation that names the channel where the session
/// was opened, the failure `JoinFailed` where it was not. The caller
/// watches the session for track errors exactly where this is `Ok`.
pub fn joined(target: VoiceTarget, connected: bool) -> (r: Result<Reply, CommandError>)
    ensures
        outcome_is(r, joined_outcome(target, connected)),
{
    if connected {
        let mut text = String::from_str("Joining <#");
        push_decimal(&mut text, target.channel.get());
        text.append(">!");
        Ok(Reply::Text(text))
    } else {
        Err(CommandError::JoinFailed)
    }
}

/// Ends `leave`: the confirmation where a session was ended,
/// `NothingToLeave` where the guild had none, `LeaveFailed` where the
/// session stayed.
pub fn left(target: VoiceTarget, removal: Removal) -> (r: Result<Reply, CommandError>)
    ensures
        outcome_is(r, left_outcome(target, removal)),
{
    match removal {
        Removal::Removed => {
            let mut text = String::from_str("Leaving <#");
            push_decimal(&mut text, target.channel.get());
            text.append(">!");
            Ok(Reply::Text(text))
        },
        Removal::NoSession => Err(CommandError::NothingToLeave),
        Removal::Failed => Err(CommandError::LeaveFailed),
    }
}

/// What a manager that holds a session for each guild in `sessions`, and
/// for no other, answers when asked to end the session of `guild`.
pub open spec fn removal_from(sessions: Set<u64>, guild: u64) -> Removal {
    if sessions.contains(guild) {
        Removal::Removed
    } else {
        Removal::NoSession
    }
}

/// A user who is in no voice channel of the guild gets the sentence that
/// says so, from `join` and from `leave` alike, and nothing is asked of the
/// manager.
pub proof fn lemma_outside_a_channel_is_reported(guild: Guild, author: Snowflake)
    requires
        channel_of(guild.voice_states@, author.value()) is None,
    ensures
        join_request(Some(guild), author) == Err::<VoiceRequest, CommandError>(
            CommandError::NotInVoiceChannel,
        ),
        leave_request(Some(guild), author) == Err::<VoiceRequest, CommandError>(
            CommandError::NotInVoiceChannel,
        ),
        settled(Err(CommandError::NotInVoiceChannel)) == ReplyView::Text(
            failure_text(CommandError::NotInVoiceChannel),
        ),
{
}

/// For a user in channel `channel` of `guild`: `join` asks for a session to
/// that channel in that guild, and where the manager opens it the
/// confirmation names the channel. The manager then holds a session for
/// the guild, so a `leave` ends it and is confirmed; after that it holds
/// none, and a second `leave` is told that there is nothing to leave.
pub proof fn lemma_join_leave_leave(
    guild: Guild,
    author: Snowflake,
    channel: Snowflake,
    sessions: Set<u64>,
)
    requires
        channel_of(guild.voice_states@, author.value()) == Some(channel),
    ensures
        ({
            let target = VoiceTarget { guild: guild.id, channel };
            let held = sessions.insert(guild.id.value());
            let ended = held.remove(guild.id.value());
            &&& join_request(Some(guild), author) == Ok::<VoiceRequest, CommandError>(
                VoiceRequest::Connect(target),
            )
            &&& joined_outcome(target, true) == Ok::<ReplyView, CommandError>(
                ReplyView::Text(joining_text(channel.value())),
            )
            &&& occurs_at(joining_text(channel.value()), decimal(channel.value() as nat), 10)
            &&& leave_request(Some(guild), author) == Ok::<VoiceRequest, CommandError>(
                VoiceRequest::Disconnect(target),
            )
            &&& left_outcome(target, removal_from(held, guild.id.value())) == Ok::<
                ReplyView,
                CommandError,
            >(ReplyView::Text(leaving_text(channel.value())))
            &&& left_outcome(target, removal_from(ended, guild.id.value())) == Err::<
                ReplyView,
                CommandError,
            >(CommandError::NothingToLeave)
        }),
{
    reveal_strlit("Joining <#");
    let text = joining_text(channel.value());
    let digits = decimal(channel.value() as nat);
    assert(text.subrange(10, 10 + digits.len() as int) =~= digits);
}

/// The line that the operator's log gets for a track that failed.
pub open spec fn track_error_text(track: Seq<char>, state: Seq<char>) -> Seq<char> {
    "Track "@ + track + " encountered an error: "@ + state
}

/// Writes the log line for a track error. Nobody but the operator sees it.
pub fn track_error_line(track: &str, state: &str) -> (r: String)
    ensures
        r@ == track_error_text(track@, state@),
{
    let mut line = String::from_str("Track ");
    line.append(track);
    line.append(" encountered an error: ");
    line.append(state);
    line
}

} // verus!
