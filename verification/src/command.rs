//! Reading a chat message as a command.
//!
//! A message is a command if its first word starts with the marker `!`.
//! The rest of that word names the command, and the word after it, if there
//! is one, is the command's argument.

use crate::affix::Week;
use crate::error::InputError;
use crate::roll::{limit_of, roll_limit};
use crate::text::{chars_of, optional_text, same_text};
use crate::words::{
    find_word_end, find_word_start, is_ascii_space, lemma_word_found, trim, trimmed, word_end,
    word_from, word_start,
};
use vstd::prelude::*;
use vstd::string::StrSliceExecFns;

verus! {

/// The character that the first word of a command starts with.
pub const MARKER: char = '!';

/// Where a message was posted.
#[derive(Debug, PartialEq, Eq)]
pub enum Channel {
    /// A text channel of a server, with the channel's name.
    Guild { name: String },
    /// A direct conversation with the bot.
    Private,
    /// Any other kind of channel.
    Other,
}

/// Whether the bot answers messages in the channel: in a direct
/// conversation, and in a server channel named `sal-9000`.
pub open spec fn answers_in(channel: Channel) -> bool {
    match channel {
        Channel::Guild { name } => name@ == "sal-9000"@,
        Channel::Private => true,
        Channel::Other => false,
    }
}

/// Whether the bot answers messages in the channel.
pub fn should_respond(channel: &Channel) -> (respond: bool)
    ensures
        respond == answers_in(*channel),
{
    match channel {
        Channel::Guild { name } => same_text(name.as_str(), "sal-9000"),
        Channel::Private => true,
        Channel::Other => false,
    }
}

/// The commands that the bot knows, and one for every other name.
#[derive(Clone, Copy, Debug, PartialEq, Eq, Structural)]
pub enum Command {
    /// `ping`: a check that the bot is alive.
    Ping,
    /// `roll`: a random number up to a limit.
    Roll,
    /// `affix`: the affixes of this week or the next.
    Affix,
    /// Any other name.
    Unknown,
}

/// A command as it was typed: which one, and its argument if it has one.
#[derive(Debug, PartialEq, Eq)]
pub struct Invocation {
    pub command: Command,
    pub argument: Option<String>,
}

/// An invocation with its argument as a sequence of characters.
pub struct InvocationView {
    pub command: Command,
    pub argument: Option<Seq<char>>,
}

impl View for Invocation {
    type V = InvocationView;

    open spec fn view(&self) -> InvocationView {
        InvocationView {
            command: self.command,
            argument: match self.argument {
                Some(text) => Some(text@),
                None => None,
            },
        }
    }
}

/// The command that a name stands for.
pub open spec fn command_named(name: Seq<char>) -> Command {
    if name == "ping"@ {
        Command::Ping
    } else if name == "roll"@ {
        Command::Roll
    } else if name == "affix"@ {
        Command::Affix
    } else {
        Command::Unknown
    }
}

/// The invocation that a message holds, if it holds one. A message that is
/// blank, or whose first word does not start with the marker, holds none.
pub open spec fn invocation_of(content: Seq<char>) -> Option<InvocationView> {
    let line = trimmed(content);
    match word_from(line, 0) {
        None => None,
        Some(first) => if first[0] != MARKER {
            None
        } else {
            Some(
                InvocationView {
                    command: command_named(first.drop_first()),
                    argument: word_from(line, word_end(line, word_start(line, 0))),
                },
            )
        },
    }
}

/// The answer to a ping.
pub const PONG: &'static str = "Pong!";

/// What the bot is asked to do by a well-formed command.
#[derive(Clone, Copy, Debug, PartialEq, Eq, Structural)]
pub enum Request {
    /// Answer that the bot is alive.
    Ping,
    /// Roll a number from 1 to `upper`, which is at least 1.
    Roll { upper: u32 },
    /// List the affixes of the week.
    Affixes { week: Week },
}

/// The week that the argument of the affix command selects: this week
/// without an argument or with `this`, the next with `next`, and none with
/// any other word.
pub open spec fn week_of(argument: Option<Seq<char>>) -> Result<Week, InputError> {
    match argument {
        None => Ok(Week::This),
        Some(word) => if word == "this"@ {
            Ok(Week::This)
        } else if word == "next"@ {
            Ok(Week::Next)
        } else {
            Err(InputError::UnknownWeek)
        },
    }
}

/// What an invocation asks for, or what is wrong with it.
pub open spec fn request_of(invocation: InvocationView) -> Result<Request, InputError> {
    match invocation.command {
        Command::Ping => Ok(Request::Ping),
        Command::Roll => match limit_of(invocation.argument) {
            Ok(upper) => Ok(Request::Roll { upper }),
            Err(error) => Err(error),
        },
        Command::Affix => match week_of(invocation.argument) {
            Ok(week) => Ok(Request::Affixes { week }),
            Err(error) => Err(error),
        },
        Command::Unknown => Err(InputError::UnknownCommand),
    }
}

/// The command that a name stands for.
pub fn command_for(name: &str) -> (command: Command)
    ensures
        command == command_named(name@),
{
    if same_text(name, "ping") {
        Command::Ping
    } else if same_text(name, "roll") {
        Command::Roll
    } else if same_text(name, "affix") {
        Command::Affix
    } else {
        Command::Unknown
    }
}

/// Reads a message as a command. The result is `None` for a message that
/// is blank or whose first word does not start with the marker.
pub fn parse_command(content: &str) -> (invocation: Option<Invocation>)
    ensures
        match invocation {
            Some(found) => invocation_of(content@) == Some(found@),
            None => invocation_of(content@) is None,
        },
        invocation matches Some(Invocation { argument: Some(word), .. }) ==> word@.len() > 0
            && forall|i: int| 0 <= i < word@.len() ==> !is_ascii_space(#[trigger] word@[i]),
{
    let line_text = trim(content);
    let line = chars_of(line_text);
    let start = find_word_start(&line, 0);
    if start >= line.len() {
        return None;
    }
    let end = find_word_end(&line, start);
    let ghost first = line@.subrange(start as int, end as int);
    assert(first[0] == line[start as int]);
    if line[start] != MARKER {
        return None;
    }
    let name = line_text.substring_char(start + 1, end);
    assert(name@ =~= first.drop_first());
    let command = command_for(name);
    let next = find_word_start(&line, end);
    proof {
        lemma_word_found(line@, end as int);
    }
    let argument = if next >= line.len() {
        None
    } else {
        let next_end = find_word_end(&line, next);
        Some(line_text.substring_char(next, next_end).to_owned())
    };
    Some(Invocation { command, argument })
}

/// Reads the week that the argument of the affix command selects.
pub fn select_week(argument: Option<&str>) -> (week: Result<Week, InputError>)
    ensures
        week == week_of(optional_text(argument)),
{
    match argument {
        None => Ok(Week::This),
        Some(word) => if same_text(word, "this") {
            Ok(Week::This)
        } else if same_text(word, "next") {
            Ok(Week::Next)
        } else {
            Err(InputError::UnknownWeek)
        },
    }
}

/// Decides what an invocation asks for, or what is wrong with it.
pub fn interpret(invocation: &Invocation) -> (request: Result<Request, InputError>)
    ensures
        request == request_of(invocation@),
        request matches Ok(Request::Roll { upper }) ==> upper >= 1,
{
    let argument: Option<&str> = match &invocation.argument {
        Some(text) => Some(text.as_str()),
        None => None,
    };
    match invocation.command {
        Command::Ping => Ok(Request::Ping),
        Command::Roll => match roll_limit(argument) {
            Ok(upper) => Ok(Request::Roll { upper }),
            Err(error) => Err(error),
        },
        Command::Affix => match select_week(argument) {
            Ok(week) => Ok(Request::Affixes { week }),
            Err(error) => Err(error),
        },
        Command::Unknown => Err(InputError::UnknownCommand),
    }
}

} // verus!
