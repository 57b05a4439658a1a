//! The commands that answer at once: `echo`, `age` and `hello`.

use vstd::prelude::*;
use vstd::pervasive::unreached;
use vstd::string::*;
use crate::ids::Snowflake;
use crate::platform::{creation_millis, format_rfc3339, rfc3339_text};
use crate::reply::{Reply, ReplyView};
use crate::text::{decimal, occurs_at, push_decimal};

verus! {

/// What every invocation can reach. The bot keeps nothing between
/// invocations, so there is nothing in it.
#[derive(Clone, Copy, Debug, Default, PartialEq, Eq)]
pub struct Data {}

/// The commands of the bot.
#[derive(Clone, Copy, Debug, PartialEq, Eq, Structural)]
pub enum CommandKind {
    Echo,
    Age,
    Hello,
    Join,
    Leave,
    Timezone,
}

impl CommandKind {
    /// The word by which the command is invoked.
    pub open spec fn name_text(self) -> Seq<char> {
        match self {
            CommandKind::Echo => "echo"@,
            CommandKind::Age => "age"@,
            CommandKind::Hello => "hello"@,
            CommandKind::Join => "join"@,
            CommandKind::Leave => "leave"@,
            CommandKind::Timezone => "timezone"@,
        }
    }

    /// The word by which the command is invoked.
    pub fn name(&self) -> (r: &'static str)
        ensures
            r@ == self.name_text(),
    {
        match self {
            CommandKind::Echo => "echo",
            CommandKind::Age => "age",
            CommandKind::Hello => "hello",
            CommandKind::Join => "join",
            CommandKind::Leave => "leave",
            CommandKind::Timezone => "timezone",
        }
    }
}

/// The table of commands, in the order in which they are registered.
pub fn register_commands() -> (r: Vec<CommandKind>)
    ensures
        r@ == seq![
            CommandKind::Echo,
            CommandKind::Age,
            CommandKind::Hello,
            CommandKind::Join,
            CommandKind::Leave,
            CommandKind::Timezone,
        ],
{
    let mut table: Vec<CommandKind> = Vec::new();
    table.push(CommandKind::Echo);
    table.push(CommandKind::Age);
    table.push(CommandKind::Hello);
    table.push(CommandKind::Join);
    table.push(CommandKind::Leave);
    table.push(CommandKind::Timezone);
    table
}

/// The user that a command with an optional target is about: the target
/// where one was given, else the user who invoked it.
pub open spec fn resolved(author: Snowflake, target: Option<Snowflake>) -> Snowflake {
    match target {
        Some(user) => user,
        None => author,
    }
}

/// Picks the user that a command with an optional target is about.
pub fn resolve_target(author: Snowflake, target: Option<Snowflake>) -> (r: Snowflake)
    ensures
        r == resolved(author, target),
        target is None ==> r == author,
        target matches Some(user) ==> r == user,
{
    match target {
        Some(user) => user,
        None => author,
    }
}

/// `<@id> said: message`
pub open spec fn echo_text(author: u64, message: Seq<char>) -> Seq<char> {
    "<@"@ + decimal(author as nat) + "> said: "@ + message
}

/// `<@id>'s account was created at time`
pub open spec fn age_text(user: u64, created_at: Seq<char>) -> Seq<char> {
    "<@"@ + decimal(user as nat) + ">'s account was created at "@ + created_at
}

/// What `age` says of a user: the mention, and the time held in the
/// identifier as the platform writes times.
pub open spec fn age_of(user: u64) -> Seq<char> {
    age_text(user, rfc3339_text(creation_millis(user) as i64))
}

/// `Hello <@id>!`
pub open spec fn hello_text(user: u64) -> Seq<char> {
    "Hello <@"@ + decimal(user as nat) + ">!"@
}

/// The text of an echo holds the author's identifier, as a decimal numeral
/// behind the two characters that open a mention, and ends with the message
/// as it was given, character for character.
pub proof fn lemma_echo_holds_author_and_message(author: u64, message: Seq<char>)
    ensures
        occurs_at(echo_text(author, message), decimal(author as nat), 2),
        occurs_at(
            echo_text(author, message),
            message,
            echo_text(author, message).len() - message.len(),
        ),
{
    reveal_strlit("<@");
    let text = echo_text(author, message);
    let digits = decimal(author as nat);
    assert(text.subrange(2, 2 + digits.len() as int) =~= digits);
    assert(text.subrange(text.len() - message.len(), text.len() as int) =~= message);
}

/// `age` and `hello` speak of the author where no target is given, and of
/// the target where one is.
pub proof fn lemma_target_decides_whom(author: Snowflake, target: Option<Snowflake>)
    ensures
        target is None ==> {
            &&& resolved(author, target) == author
            &&& hello_text(resolved(author, target).value()) == hello_text(author.value())
            &&& age_of(resolved(author, target).value()) == age_of(author.value())
        },
        target matches Some(user) ==> {
            &&& resolved(author, target) == user
            &&& hello_text(resolved(author, target).value()) == hello_text(user.value())
            &&& age_of(resolved(author, target).value()) == age_of(user.value())
        },
{
}

/// Repeats `message` to the channel, naming its author. The message is
/// used as it is: nothing in it is escaped or cut.
pub fn echo(author: Snowflake, message: &str) -> (r: Reply)
    ensures
        r@ == ReplyView::Text(echo_text(author.value(), message@)),
        occurs_at(echo_text(author.value(), message@), decimal(author.value() as nat), 2),
        occurs_at(
            echo_text(author.value(), message@),
            message@,
            echo_text(author.value(), message@).len() - message@.len(),
        ),
{
    let mut text = String::from_str("<@");
    push_decimal(&mut text, author.get());
    text.append("> said: ");
    text.append(message);
    proof {
        lemma_echo_holds_author_and_message(author.value(), message@);
    }
    Reply::Text(text)
}

/// The reply of `age` for a user whose creation time reads `created_at`.
pub fn age_reply(user: Snowflake, created_at: &str) -> (r: Reply)
    ensures
        r@ == ReplyView::Text(age_text(user.value(), created_at@)),
{
    let mut text = String::from_str("<@");
    push_decimal(&mut text, user.get());
    text.append(">'s account was created at ");
    text.append(created_at);
    Reply::Text(text)
}

/// Tells when an account was created: that of `target` where one is given,
/// else that of the author. The time is the one held in the identifier.
pub fn age(author: Snowflake, target: Option<Snowflake>) -> (r: Reply)
    ensures
        r@ == ReplyView::Text(age_of(resolved(author, target).value())),
{
    let user = resolve_target(author, target);
    let created_at = user.created_at();
    match format_rfc3339(created_at.unix_millis) {
        Some(text) => age_reply(user, text.as_str()),
        None => unreached(),
    }
}

/// Greets `target` where one is given, else the author.
pub fn hello(author: Snowflake, target: Option<Snowflake>) -> (r: Reply)
    ensures
        r@ == ReplyView::Text(hello_text(resolved(author, target).value())),
{
    let user = resolve_target(author, target);
    let mut text = String::from_str("Hello <@");
    push_decimal(&mut text, user.get());
    text.append(">!");
    Reply::Text(text)
}

} // verus!
