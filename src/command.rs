//! The text commands of the chat interface.
//!
//! A message is `<command>[@<bot>][ <arguments>]`: the command word runs up to
//! the first space and may name the bot it is meant for after an `@`; the
//! command names are matched without regard to ASCII case.
use vstd::prelude::*;
use crate::ids::{parse_uuid, uuid_of};
use crate::text::{
    after_first, before_first, chars_of, eq_ignoring_ascii_case, find_char, same_ignoring_ascii_case,
    slice_of,
};

verus! {

/// A command of the chat interface.
pub enum Command {
    Help,
    Start,
    Register(String),
    Cancel,
    Acknowledge { quest_id: u128 },
    CreateQuest { name: String, assign_to: String },
}

/// Why a text is not a command of this bot.
pub enum CommandError {
    UnknownCommand(String),
    WrongBotName(String),
    IncorrectFormat,
    TooFewArguments { expected: usize, found: usize },
    TooManyArguments { expected: usize, found: usize },
}

/// A message as the dialogue sees it: a command, a malformed command, or free text.
pub enum Incoming {
    Command(Command),
    Invalid(CommandError),
    Text(String),
}

pub enum CommandView {
    Help,
    Start,
    Register(Seq<char>),
    Cancel,
    Acknowledge(u128),
    CreateQuest(Seq<char>, Seq<char>),
}

pub enum CommandErrorView {
    UnknownCommand(Seq<char>),
    WrongBotName(Seq<char>),
    IncorrectFormat,
    TooFewArguments(usize, usize),
    TooManyArguments(usize, usize),
}

pub enum IncomingView {
    Command(CommandView),
    Invalid(CommandErrorView),
    Text(Seq<char>),
}

impl View for Command {
    type V = CommandView;

    open spec fn view(&self) -> CommandView {
        match self {
            Command::Help => CommandView::Help,
            Command::Start => CommandView::Start,
            Command::Register(t) => CommandView::Register(t@),
            Command::Cancel => CommandView::Cancel,
            Command::Acknowledge { quest_id } => CommandView::Acknowledge(*quest_id),
            Command::CreateQuest { name, assign_to } => CommandView::CreateQuest(name@, assign_to@),
        }
    }
}

impl View for CommandError {
    type V = CommandErrorView;

    open spec fn view(&self) -> CommandErrorView {
        match self {
            CommandError::UnknownCommand(c) => CommandErrorView::UnknownCommand(c@),
            CommandError::WrongBotName(n) => CommandErrorView::WrongBotName(n@),
            CommandError::IncorrectFormat => CommandErrorView::IncorrectFormat,
            CommandError::TooFewArguments { expected, found } => CommandErrorView::TooFewArguments(
                *expected,
                *found,
            ),
            CommandError::TooManyArguments { expected, found } => CommandErrorView::TooManyArguments(
                *expected,
                *found,
            ),
        }
    }
}

impl View for Incoming {
    type V = IncomingView;

    open spec fn view(&self) -> IncomingView {
        match self {
            Incoming::Command(c) => IncomingView::Command(c@),
            Incoming::Invalid(e) => IncomingView::Invalid(e@),
            Incoming::Text(t) => IncomingView::Text(t@),
        }
    }
}

/// The arguments of `/createquest`: exactly two words separated by one space.
pub open spec fn quest_args(args: Seq<char>) -> Result<CommandView, CommandErrorView> {
    match after_first(args, ' ') {
        None => Err(CommandErrorView::TooFewArguments(2, 1)),
        Some(rest) => if after_first(rest, ' ') is Some {
            Err(CommandErrorView::TooManyArguments(2, 3))
        } else {
            Ok(CommandView::CreateQuest(before_first(args, ' '), rest))
        },
    }
}

/// The bot named after the `@` of a command word, if any.
pub open spec fn mention_of(word: Seq<char>) -> Option<Seq<char>> {
    match after_first(word, '@') {
        Some(rest) => Some(before_first(rest, '@')),
        None => None,
    }
}

/// What the text `text` means as a command addressed to the bot named `bot`.
pub open spec fn command_of(text: Seq<char>, bot: Seq<char>) -> Result<CommandView, CommandErrorView> {
    let word = before_first(text, ' ');
    let args = match after_first(text, ' ') {
        Some(a) => a,
        None => Seq::empty(),
    };
    let name = before_first(word, '@');
    if mention_of(word) is Some && !same_ignoring_ascii_case(mention_of(word)->0, bot) {
        Err(CommandErrorView::WrongBotName(mention_of(word)->0))
    } else if same_ignoring_ascii_case(name, "/help"@) {
        Ok(CommandView::Help)
    } else if same_ignoring_ascii_case(name, "/start"@) {
        Ok(CommandView::Start)
    } else if same_ignoring_ascii_case(name, "/register"@) {
        Ok(CommandView::Register(args))
    } else if same_ignoring_ascii_case(name, "/cancel"@) {
        Ok(CommandView::Cancel)
    } else if same_ignoring_ascii_case(name, "/acknowledge"@) {
        match uuid_of(args) {
            Some(id) => Ok(CommandView::Acknowledge(id)),
            None => Err(CommandErrorView::IncorrectFormat),
        }
    } else if same_ignoring_ascii_case(name, "/createquest"@) {
        quest_args(args)
    } else {
        Err(CommandErrorView::UnknownCommand(name))
    }
}

/// A text is taken as a command when it starts with `/`.
pub open spec fn is_command_text(text: Seq<char>) -> bool {
    text.len() > 0 && text[0] == '/'
}

/// How the dialogue receives the text `text`.
pub open spec fn incoming_of(text: Seq<char>, bot: Seq<char>) -> IncomingView {
    if is_command_text(text) {
        match command_of(text, bot) {
            Ok(c) => IncomingView::Command(c),
            Err(e) => IncomingView::Invalid(e),
        }
    } else {
        IncomingView::Text(text)
    }
}

/// Splits `s` at its first `c`: what comes before it, and what follows it if there is one.
fn split_first(s: &str, c: char) -> (r: (String, Option<String>))
    ensures
        r.0@ == before_first(s@, c),
        match after_first(s@, c) {
            Some(rest) => r.1 is Some && r.1->0@ == rest,
            None => r.1 is None,
        },
{
    let chars = chars_of(s);
    let k = find_char(&chars, c);
    let before = slice_of(s, 0, k);
    if k < chars.len() {
        (before, Some(slice_of(s, k + 1, chars.len())))
    } else {
        (before, None)
    }
}

/// Whether `a` equals the word `b` up to ASCII case.
fn is_word(a: &str, b: &str) -> (r: bool)
    ensures
        r == same_ignoring_ascii_case(a@, b@),
{
    eq_ignoring_ascii_case(&chars_of(a), &chars_of(b))
}

/// Reads the arguments of `/createquest`.
fn parse_quest_args(args: &str) -> (r: Result<Command, CommandError>)
    ensures
        match r {
            Ok(c) => quest_args(args@) == Ok::<CommandView, CommandErrorView>(c@),
            Err(e) => quest_args(args@) == Err::<CommandView, CommandErrorView>(e@),
        },
{
    let (name, rest) = split_first(args, ' ');
    match rest {
        None => Err(CommandError::TooFewArguments { expected: 2, found: 1 }),
        Some(rest) => {
            let (_, more) = split_first(rest.as_str(), ' ');
            if more.is_some() {
                Err(CommandError::TooManyArguments { expected: 2, found: 3 })
            } else {
                Ok(Command::CreateQuest { name, assign_to: rest })
            }
        },
    }
}

/// Reads `text` as a command addressed to the bot named `bot_name`.
pub fn parse_command(text: &str, bot_name: &str) -> (r: Result<Command, CommandError>)
    ensures
        match r {
            Ok(c) => command_of(text@, bot_name@) == Ok::<CommandView, CommandErrorView>(c@),
            Err(e) => command_of(text@, bot_name@) == Err::<CommandView, CommandErrorView>(e@),
        },
{
    let (word, rest) = split_first(text, ' ');
    let args = match rest {
        Some(a) => a,
        None => String::new(),
    };
    proof {
        if after_first(text@, ' ') is None {
            assert(args@ =~= Seq::<char>::empty());
        }
    }
    let (name, mentioned) = split_first(word.as_str(), '@');
    match mentioned {
        Some(rest) => {
            let (bot, _) = split_first(rest.as_str(), '@');
            if !is_word(bot.as_str(), bot_name) {
                return Err(CommandError::WrongBotName(bot));
            }
        },
        None => {},
    }
    let name = name.as_str();
    if is_word(name, "/help") {
        Ok(Command::Help)
    } else if is_word(name, "/start") {
        Ok(Command::Start)
    } else if is_word(name, "/register") {
        Ok(Command::Register(args))
    } else if is_word(name, "/cancel") {
        Ok(Command::Cancel)
    } else if is_word(name, "/acknowledge") {
        match parse_uuid(args.as_str()) {
            Some(id) => Ok(Command::Acknowledge { quest_id: id }),
            None => Err(CommandError::IncorrectFormat),
        }
    } else if is_word(name, "/createquest") {
        parse_quest_args(args.as_str())
    } else {
        Err(CommandError::UnknownCommand(String::from_str(name)))
    }
}

/// Sorts the text `text` of a message into a command, a malformed command or free text.
pub fn classify_message(text: &str, bot_name: &str) -> (r: Incoming)
    ensures
        r@ == incoming_of(text@, bot_name@),
{
    let chars = chars_of(text);
    if chars.len() > 0 && chars[0] == '/' {
        match parse_command(text, bot_name) {
            Ok(c) => Incoming::Command(c),
            Err(e) => Incoming::Invalid(e),
        }
    } else {
        Incoming::Text(String::from_str(text))
    }
}

} // verus!
