use vstd::prelude::*;
use vstd::string::StringExecFns;

use crate::number::{parse_u32, u32_of};

verus! {

/// The words of a line of text, split at white space, in order.
pub uninterp spec fn words_of(line: Seq<char>) -> Seq<Seq<char>>;

/// Relies on `str::split_whitespace`: the words of `line` in order, each
/// word a maximal run of characters that are not Unicode white space.
#[verifier::external_body]
fn split_words(line: &str) -> (r: Vec<String>)
    ensures
        r@.map_values(|w: String| w@) == words_of(line@),
{
    line.split_whitespace().map(String::from).collect()
}

/// A command that takes a cue id as its one argument.
#[derive(Debug, PartialEq, Eq, Structural)]
pub enum Verb {
    Remove,
    Goto,
    Stop,
}

/// One operator command, read from a line of input.
#[derive(Debug, PartialEq, Eq)]
pub enum Command {
    /// A blank line.
    Empty,
    /// `define cue <id> play <file>`.
    Define { id: u32, file: String },
    /// A `define` line without both a valid `cue <id>` and a `play <file>`.
    InvalidDefine,
    /// `show` or `list`.
    Show,
    /// `remove <id>`.
    Remove(u32),
    /// `go`.
    Go,
    /// `goto <id>`, or a bare `<id>`.
    Goto(u32),
    /// `stop <id>`.
    Stop(u32),
    /// `exit` or `quit`.
    Exit,
    /// A verb that needs a cue id was given none.
    Usage(Verb),
    /// The cue id given to a verb is not a number.
    InvalidId,
    /// The first word is no command.
    Unknown(String),
}

/// Mathematical model of a `Command`.
pub enum CommandModel {
    Empty,
    Define { id: u32, file: Seq<char> },
    InvalidDefine,
    Show,
    Remove(u32),
    Go,
    Goto(u32),
    Stop(u32),
    Exit,
    Usage(Verb),
    InvalidId,
    Unknown(Seq<char>),
}

impl View for Command {
    type V = CommandModel;

    open spec fn view(&self) -> CommandModel {
        match self {
            Command::Empty => CommandModel::Empty,
            Command::Define { id, file } => CommandModel::Define { id: *id, file: file@ },
            Command::InvalidDefine => CommandModel::InvalidDefine,
            Command::Show => CommandModel::Show,
            Command::Remove(id) => CommandModel::Remove(*id),
            Command::Go => CommandModel::Go,
            Command::Goto(id) => CommandModel::Goto(*id),
            Command::Stop(id) => CommandModel::Stop(*id),
            Command::Exit => CommandModel::Exit,
            Command::Usage(v) => CommandModel::Usage(*v),
            Command::InvalidId => CommandModel::InvalidId,
            Command::Unknown(w) => CommandModel::Unknown(w@),
        }
    }
}

/// The words of a line, each as its characters.
pub open spec fn words_view(words: Seq<String>) -> Seq<Seq<char>> {
    words.map_values(|w: String| w@)
}

/// The arguments of `define`, scanned from word `i` on: `cue` takes the next
/// word as the id (the last such pair wins, and an invalid id clears it),
/// `play` takes the next word as the file; other words are skipped.
pub open spec fn define_scan(t: Seq<Seq<char>>, i: nat, id: Option<u32>, file: Option<Seq<char>>) -> (
    Option<u32>,
    Option<Seq<char>>,
)
    decreases t.len() - i,
{
    if i >= t.len() {
        (id, file)
    } else if t[i as int] == "cue"@ {
        if i + 1 < t.len() {
            define_scan(t, i + 2, u32_of(t[(i + 1) as int]), file)
        } else {
            (id, file)
        }
    } else if t[i as int] == "play"@ {
        if i + 1 < t.len() {
            define_scan(t, i + 2, id, Some(t[(i + 1) as int]))
        } else {
            (id, file)
        }
    } else {
        define_scan(t, i + 1, id, file)
    }
}

/// A verb with a cue id as its argument, read from the second word.
pub open spec fn id_command(t: Seq<Seq<char>>, verb: Verb) -> CommandModel {
    if t.len() < 2 {
        CommandModel::Usage(verb)
    } else {
        match u32_of(t[1]) {
            Some(id) => match verb {
                Verb::Remove => CommandModel::Remove(id),
                Verb::Goto => CommandModel::Goto(id),
                Verb::Stop => CommandModel::Stop(id),
            },
            None => CommandModel::InvalidId,
        }
    }
}

/// The command that the words `t` of a line denote.
pub open spec fn command_of(t: Seq<Seq<char>>) -> CommandModel {
    if t.len() == 0 {
        CommandModel::Empty
    } else if t[0] == "define"@ {
        match define_scan(t, 1, None, None) {
            (Some(id), Some(file)) => CommandModel::Define { id, file },
            _ => CommandModel::InvalidDefine,
        }
    } else if t[0] == "show"@ || t[0] == "list"@ {
        CommandModel::Show
    } else if t[0] == "remove"@ {
        id_command(t, Verb::Remove)
    } else if t[0] == "go"@ {
        CommandModel::Go
    } else if t[0] == "goto"@ {
        id_command(t, Verb::Goto)
    } else if t[0] == "stop"@ {
        id_command(t, Verb::Stop)
    } else if t[0] == "exit"@ || t[0] == "quit"@ {
        CommandModel::Exit
    } else {
        match u32_of(t[0]) {
            Some(id) => CommandModel::Goto(id),
            None => CommandModel::Unknown(t[0]),
        }
    }
}

fn is_word(w: &String, lit: &str) -> (r: bool)
    ensures
        r == (w@ == lit@),
{
    *w == String::from_str(lit)
}

fn scan_define(words: &Vec<String>) -> (r: (Option<u32>, Option<String>))
    ensures
        (r.0, match r.1 {
            Some(f) => Some(f@),
            None => None,
        }) == define_scan(words_view(words@), 1, None, None),
{
    let ghost t = words_view(words@);
    let mut id: Option<u32> = None;
    let mut file: Option<String> = None;
    let mut i: usize = 1;
    while i < words.len()
        invariant
            1 <= i,
            t == words_view(words@),
            define_scan(t, 1, None, None) == define_scan(
                t,
                i as nat,
                id,
                match file {
                    Some(f) => Some(f@),
                    None => None,
                },
            ),
        decreases words.len() - i,
    {
        assert(t[i as int] == words@[i as int]@);
        if is_word(&words[i], "cue") {
            if i + 1 < words.len() {
                assert(t[i + 1] == words@[i + 1]@);
                id = parse_u32(words[i + 1].as_str());
                i = i + 2;
            } else {
                i = words.len();
            }
        } else if is_word(&words[i], "play") {
            if i + 1 < words.len() {
                assert(t[i + 1] == words@[i + 1]@);
                file = Some(words[i + 1].clone());
                i = i + 2;
            } else {
                i = words.len();
            }
        } else {
            i = i + 1;
        }
    }
    (id, file)
}

fn id_arg(words: &Vec<String>, verb: Verb) -> (r: Command)
    ensures
        r@ == id_command(words_view(words@), verb),
{
    if words.len() < 2 {
        Command::Usage(verb)
    } else {
        assert(words_view(words@)[1] == words@[1]@);
        match parse_u32(words[1].as_str()) {
            Some(id) => match verb {
                Verb::Remove => Command::Remove(id),
                Verb::Goto => Command::Goto(id),
                Verb::Stop => Command::Stop(id),
            },
            None => Command::InvalidId,
        }
    }
}

/// The command that the words of a line denote.
pub fn parse_command(words: &Vec<String>) -> (r: Command)
    ensures
        r@ == command_of(words_view(words@)),
{
    if words.len() == 0 {
        return Command::Empty;
    }
    assert(words_view(words@)[0] == words@[0]@);
    let first = &words[0];
    if is_word(first, "define") {
        match scan_define(words) {
            (Some(id), Some(file)) => Command::Define { id, file },
            _ => Command::InvalidDefine,
        }
    } else if is_word(first, "show") || is_word(first, "list") {
        Command::Show
    } else if is_word(first, "remove") {
        id_arg(words, Verb::Remove)
    } else if is_word(first, "go") {
        Command::Go
    } else if is_word(first, "goto") {
        id_arg(words, Verb::Goto)
    } else if is_word(first, "stop") {
        id_arg(words, Verb::Stop)
    } else if is_word(first, "exit") || is_word(first, "quit") {
        Command::Exit
    } else {
        match parse_u32(first.as_str()) {
            Some(id) => Command::Goto(id),
            None => Command::Unknown(first.clone()),
        }
    }
}

/// The command on a line of input.
pub fn parse_line(line: &str) -> (r: Command)
    ensures
        r@ == command_of(words_of(line@)),
{
    let words = split_words(line);
    parse_command(&words)
}

} // verus!
