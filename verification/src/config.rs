//! What the bot must be told before it can start.

use vstd::prelude::*;
use vstd::string::*;
use crate::ids::Snowflake;
use crate::text::{decimal, digit_char, is_digit, lemma_decimal_digits};

verus! {

/// The number that a digit stands for.
pub open spec fn digit_value(c: char) -> nat {
    if c == '1' {
        1
    } else if c == '2' {
        2
    } else if c == '3' {
        3
    } else if c == '4' {
        4
    } else if c == '5' {
        5
    } else if c == '6' {
        6
    } else if c == '7' {
        7
    } else if c == '8' {
        8
    } else if c == '9' {
        9
    } else {
        0
    }
}

/// The number that a row of digits writes in base ten.
pub open spec fn digits_value(s: Seq<char>) -> nat
    decreases s.len(),
{
    if s.len() == 0 {
        0
    } else {
        digits_value(s.drop_last()) * 10 + digit_value(s.last())
    }
}

/// Whether `s` holds digits only.
pub open spec fn all_digits(s: Seq<char>) -> bool {
    forall|i: int| 0 <= i < s.len() ==> is_digit(#[trigger] s[i])
}

/// `s` without the plus sign that may lead it.
pub open spec fn unsigned_part(s: Seq<char>) -> Seq<char> {
    if s.len() > 0 && s[0] == '+' {
        s.subrange(1, s.len() as int)
    } else {
        s
    }
}

/// The number that `s` writes: an optional `+`, then one digit or more and
/// nothing else, with a value that fits in 64 bits.
pub open spec fn parsed_u64(s: Seq<char>) -> Option<u64> {
    let body = unsigned_part(s);
    if body.len() > 0 && all_digits(body) && digits_value(body) <= u64::MAX {
        Some(digits_value(body) as u64)
    } else {
        None
    }
}

proof fn lemma_value_of_prefix(s: Seq<char>, k: int)
    requires
        0 <= k <= s.len(),
    ensures
        digits_value(s.take(k)) <= digits_value(s),
    decreases s.len(),
{
    if k == s.len() {
        assert(s.take(k) =~= s);
    } else {
        lemma_value_of_prefix(s.drop_last(), k);
        assert(s.drop_last().take(k) =~= s.take(k));
    }
}

proof fn lemma_unsigned_part_of_prefix(s: Seq<char>, k: int)
    requires
        1 <= k <= s.len(),
    ensures
        unsigned_part(s.take(k)) == unsigned_part(s).take(unsigned_part(s.take(k)).len() as int),
{
    assert(unsigned_part(s.take(k)) =~= unsigned_part(s).take(
        unsigned_part(s.take(k)).len() as int,
    ));
}

fn value_of(c: char) -> (r: Option<u64>)
    ensures
        r is Some <==> is_digit(c),
        r matches Some(d) ==> d == digit_value(c) && d < 10,
{
    match c {
        '0' => Some(0),
        '1' => Some(1),
        '2' => Some(2),
        '3' => Some(3),
        '4' => Some(4),
        '5' => Some(5),
        '6' => Some(6),
        '7' => Some(7),
        '8' => Some(8),
        '9' => Some(9),
        _ => None,
    }
}

/// Reads a decimal numeral. Spaces, a minus sign, a lone `+` and the
/// empty text are refused, as is a number above `u64::MAX`.
pub fn parse_decimal(text: &str) -> (r: Option<u64>)
    ensures
        r == parsed_u64(text@),
{
    let mut value: u64 = 0;
    let mut any_digit = false;
    let mut at_start = true;
    for c in it: text.chars()
        invariant
            it.seq() == text@,
            at_start <==> it.index() == 0,
            any_digit <==> unsigned_part(text@.take(it.index())).len() > 0,
            all_digits(unsigned_part(text@.take(it.index()))),
            value == digits_value(unsigned_part(text@.take(it.index()))),
    {
        let ghost before = text@.take(it.index());
        let ghost after = text@.take(it.index() + 1);
        assert(after =~= before.push(c));
        proof {
            lemma_unsigned_part_of_prefix(text@, it.index() + 1);
        }
        if at_start && c == '+' {
            assert(unsigned_part(after) =~= Seq::<char>::empty());
        } else {
            assert(unsigned_part(after) =~= unsigned_part(before).push(c));
            assert(unsigned_part(after).drop_last() =~= unsigned_part(before));
            let grown = match value_of(c) {
                Some(d) => match value.checked_mul(10) {
                    Some(tens) => tens.checked_add(d),
                    None => None,
                },
                None => None,
            };
            match grown {
                Some(v) => {
                    value = v;
                    any_digit = true;
                },
                None => {
                    proof {
                        let body = unsigned_part(text@);
                        let k = unsigned_part(after).len() as int;
                        if is_digit(c) {
                            if all_digits(body) {
                                lemma_value_of_prefix(body, k);
                            }
                        } else {
                            assert(body[k - 1] == c);
                        }
                    }
                    return None;
                },
            }
        }
        at_start = false;
    }
    assert(text@.take(text@.len() as int) =~= text@);
    if any_digit {
        Some(value)
    } else {
        None
    }
}

proof fn lemma_digit_round_trip(d: nat)
    requires
        d < 10,
    ensures
        digit_value(digit_char(d)) == d,
        digit_char(d) != '+',
{
}

/// The value of a number's own numeral is the number.
pub proof fn lemma_value_of_decimal(n: nat)
    ensures
        digits_value(decimal(n)) == n,
    decreases n,
{
    let s = decimal(n);
    if n < 10 {
        lemma_digit_round_trip(n);
        assert(s.drop_last() =~= Seq::<char>::empty());
        assert(digits_value(s.drop_last()) == 0);
        assert(s.last() == digit_char(n));
    } else {
        lemma_value_of_decimal(n / 10);
        lemma_digit_round_trip(n % 10);
        assert(s.drop_last() =~= decimal(n / 10));
        assert(s.last() == digit_char(n % 10));
        assert(digits_value(s) == (n / 10) * 10 + n % 10);
    }
}

/// Reading undoes writing: the numeral of `n` reads as `n`.
pub proof fn lemma_parse_decimal_of_decimal(n: u64)
    ensures
        parsed_u64(decimal(n as nat)) == Some(n),
{
    lemma_decimal_digits(n as nat);
    lemma_value_of_decimal(n as nat);
    let s = decimal(n as nat);
    assert(is_digit(s[0]));
    assert(unsigned_part(s) == s);
}

/// What the bot is started with.
#[derive(Clone, Debug, PartialEq, Eq)]
pub struct Settings {
    /// The secret by which the bot signs in.
    pub token: String,
    /// The guild in which the commands are registered.
    pub guild: Snowflake,
}

/// Why the bot cannot start.
#[derive(Clone, Copy, Debug, PartialEq, Eq, Structural)]
pub enum ConfigError {
    /// `DISCORD_TOKEN` is not set.
    MissingToken,
    /// `GUILD_ID` is not set.
    MissingGuildId,
    /// `GUILD_ID` is not the decimal numeral of an identifier.
    InvalidGuildId,
}

/// The guild that a setting names: its number, unless it is zero.
pub open spec fn guild_number(text: Seq<char>) -> Option<u64> {
    match parsed_u64(text) {
        Some(n) if n != 0 => Some(n),
        _ => None,
    }
}

/// The characters of a setting that is there.
pub open spec fn setting_text(setting: Option<String>) -> Option<Seq<char>> {
    match setting {
        Some(text) => Some(text@),
        None => None,
    }
}

/// The token and the guild that the bot starts with, or the first thing
/// that is wrong: the token is looked at before the guild.
pub open spec fn settings_outcome(token: Option<Seq<char>>, guild_id: Option<Seq<char>>) -> Result<
    (Seq<char>, u64),
    ConfigError,
> {
    match (token, guild_id) {
        (None, _) => Err(ConfigError::MissingToken),
        (Some(_), None) => Err(ConfigError::MissingGuildId),
        (Some(secret), Some(text)) => match guild_number(text) {
            Some(n) => Ok((secret, n)),
            None => Err(ConfigError::InvalidGuildId),
        },
    }
}

/// Puts the two required settings together.
pub fn settings(token: Option<String>, guild_id: Option<String>) -> (r: Result<
    Settings,
    ConfigError,
>)
    ensures
        match settings_outcome(setting_text(token), setting_text(guild_id)) {
            Ok((secret, n)) => r matches Ok(s) && s.token@ == secret && s.guild.value() == n,
            Err(error) => r == Err::<Settings, ConfigError>(error),
        },
{
    let token = match token {
        Some(secret) => secret,
        None => {
            return Err(ConfigError::MissingToken);
        },
    };
    let text = match guild_id {
        Some(text) => text,
        None => {
            return Err(ConfigError::MissingGuildId);
        },
    };
    let guild = match parse_decimal(text.as_str()) {
        Some(n) => Snowflake::new(n),
        None => None,
    };
    match guild {
        Some(guild) => Ok(Settings { token, guild }),
        None => Err(ConfigError::InvalidGuildId),
    }
}

} // verus!
