//! Rolling a number between 1 and a limit.

use crate::error::InputError;
use crate::number::{decimal, decimal_text, parse_u32, parsed_u32};
use crate::text::optional_text;
use rand::Rng;
use vstd::prelude::*;
use vstd::string::StringExecFns;

verus! {

/// The limit of a roll that names none.
pub const DEFAULT_LIMIT: u32 = 100;

/// The greatest number that a roll may give, as the argument of the roll
/// command states it: 100 without an argument, else the unsigned number
/// that the argument denotes, which must be at least 1.
pub open spec fn limit_of(argument: Option<Seq<char>>) -> Result<u32, InputError> {
    match argument {
        None => Ok(DEFAULT_LIMIT),
        Some(text) => match parsed_u32(text) {
            None => Err(InputError::NotANumber),
            Some(limit) => if limit < 1 {
                Err(InputError::LimitBelowOne)
            } else {
                Ok(limit)
            },
        },
    }
}

/// Reads the limit of a roll from the argument of the roll command.
pub fn roll_limit(argument: Option<&str>) -> (limit: Result<u32, InputError>)
    ensures
        limit == limit_of(optional_text(argument)),
        limit matches Ok(upper) ==> upper >= 1,
{
    match argument {
        None => Ok(DEFAULT_LIMIT),
        Some(text) => match parse_u32(text) {
            None => Err(InputError::NotANumber),
            Some(limit) => if limit < 1 {
                Err(InputError::LimitBelowOne)
            } else {
                Ok(limit)
            },
        },
    }
}

/// `rand::thread_rng` followed by `rand::Rng::gen_range` on the inclusive
/// range from `lower` to `upper`: the sample lies within the range. Which
/// number of the range comes out is left open. The range is not empty, so
/// the call does not refuse it; it stops the program only if the operating
/// system cannot seed the generator.
#[verifier::external_body]
fn sample_between(lower: u32, upper: u32) -> (sample: u32)
    requires
        lower <= upper,
    ensures
        lower <= sample <= upper,
{
    rand::thread_rng().gen_range(lower..=upper)
}

/// Rolls a number from 1 to `upper`.
pub fn roll(upper: u32) -> (value: u32)
    requires
        upper >= 1,
    ensures
        1 <= value <= upper,
{
    sample_between(1, upper)
}

/// The name under which a roll is announced: the nickname that the author
/// has on the server, or the user name if there is none.
pub fn author_name(username: String, nick: Option<String>) -> (name: String)
    ensures
        name == (match nick {
            Some(nick) => nick,
            None => username,
        }),
{
    match nick {
        Some(nick) => nick,
        None => username,
    }
}

/// The announcement of a roll: who rolled, what came out, and the limit.
pub open spec fn roll_text(author: Seq<char>, value: nat, upper: nat) -> Seq<char> {
    author + " rolled "@ + decimal(value) + " ("@ + decimal(upper) + ")"@
}

/// Announces that `author` rolled `value` under the limit `upper`.
pub fn roll_message(author: &str, value: u32, upper: u32) -> (text: String)
    ensures
        text@ == roll_text(author@, value as nat, upper as nat),
{
    let mut text = author.to_owned();
    text.append(" rolled ");
    text.append(decimal_text(value).as_str());
    text.append(" (");
    text.append(decimal_text(upper).as_str());
    text.append(")");
    text
}

/// Rolls a number from 1 to `upper` for `author` and announces it.
pub fn roll_reply(author: &str, upper: u32) -> (text: String)
    requires
        upper >= 1,
    ensures
        exists|value: nat|
            1 <= value <= upper && text@ == #[trigger] roll_text(author@, value, upper as nat),
{
    let value = roll(upper);
    roll_message(author, value, upper)
}

} // verus!
