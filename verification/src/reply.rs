//! What a command hands back: a reply, or the reason why none could be made.

use vstd::prelude::*;
use vstd::string::*;

verus! {

/// A point in time, in milliseconds since 1970-01-01T00:00:00Z.
#[derive(Clone, Copy, Debug, PartialEq, Eq, Structural)]
pub struct Timestamp {
    pub unix_millis: i64,
}

/// A structured message with a title line, a body and a time shown below it.
#[derive(Clone, Debug, PartialEq, Eq)]
pub struct Embed {
    pub title: String,
    pub description: String,
    pub timestamp: Option<Timestamp>,
}

/// The one message that answers an invocation.
#[derive(Clone, Debug, PartialEq, Eq)]
pub enum Reply {
    Text(String),
    Embed(Embed),
}

/// A reply as contracts speak of it: its strings as sequences of characters.
pub ghost enum ReplyView {
    Text(Seq<char>),
    Embed { title: Seq<char>, description: Seq<char>, timestamp: Option<Timestamp> },
}

impl View for Reply {
    type V = ReplyView;

    open spec fn view(&self) -> ReplyView {
        match self {
            Reply::Text(text) => ReplyView::Text(text@),
            Reply::Embed(embed) => ReplyView::Embed {
                title: embed.title@,
                description: embed.description@,
                timestamp: embed.timestamp,
            },
        }
    }
}

/// Why a command could not give its usual reply.
#[derive(Clone, Copy, Debug, PartialEq, Eq, Structural)]
pub enum CommandError {
    /// The world-time service could not be reached or gave no body.
    Transport,
    /// The body was not an object with a `timezone` and a `datetime` string.
    Decode,
    /// The `datetime` of the body did not read as a date and a time.
    InvalidDatetime,
    /// The command was not invoked inside a guild.
    NotInGuild,
    /// The invoking user is in no voice channel of the guild.
    NotInVoiceChannel,
    /// The voice connection could not be made.
    JoinFailed,
    /// The guild has no voice session that could be ended.
    NothingToLeave,
    /// The voice session is there but could not be ended.
    LeaveFailed,
}

/// The sentence that tells the user of a failure.
pub open spec fn failure_text(error: CommandError) -> Seq<char> {
    match error {
        CommandError::Transport => "The world-time service could not be reached."@,
        CommandError::Decode => "The world-time service sent an answer that could not be read."@,
        CommandError::InvalidDatetime => "The world-time service sent a time that could not be read."@,
        CommandError::NotInGuild => "This command only works inside a server."@,
        CommandError::NotInVoiceChannel => "You are not in a voice channel."@,
        CommandError::JoinFailed => "The voice channel could not be joined."@,
        CommandError::NothingToLeave => "There is no voice session to leave."@,
        CommandError::LeaveFailed => "The voice session could not be ended."@,
    }
}

/// The reply that reports `error` to the user.
pub fn failure_reply(error: CommandError) -> (r: Reply)
    ensures
        r@ == ReplyView::Text(failure_text(error)),
{
    let text = match error {
        CommandError::Transport => "The world-time service could not be reached.",
        CommandError::Decode => "The world-time service sent an answer that could not be read.",
        CommandError::InvalidDatetime => "The world-time service sent a time that could not be read.",
        CommandError::NotInGuild => "This command only works inside a server.",
        CommandError::NotInVoiceChannel => "You are not in a voice channel.",
        CommandError::JoinFailed => "The voice channel could not be joined.",
        CommandError::NothingToLeave => "There is no voice session to leave.",
        CommandError::LeaveFailed => "The voice session could not be ended.",
    };
    Reply::Text(String::from_str(text))
}

/// Whether `r` is the outcome that `expected` describes.
pub open spec fn outcome_is(
    r: Result<Reply, CommandError>,
    expected: Result<ReplyView, CommandError>,
) -> bool {
    match expected {
        Ok(view) => r matches Ok(reply) && reply@ == view,
        Err(error) => r == Err::<Reply, CommandError>(error),
    }
}

/// What is sent for an invocation, whatever became of it.
pub open spec fn settled(outcome: Result<Reply, CommandError>) -> ReplyView {
    match outcome {
        Ok(reply) => reply@,
        Err(error) => ReplyView::Text(failure_text(error)),
    }
}

/// Ends an invocation: the reply of a command that succeeded, or the
/// sentence that reports its failure. Every invocation gets exactly one.
pub fn settle(outcome: Result<Reply, CommandError>) -> (r: Reply)
    ensures
        r@ == settled(outcome),
{
    match outcome {
        Ok(reply) => reply,
        Err(error) => failure_reply(error),
    }
}

} // verus!
