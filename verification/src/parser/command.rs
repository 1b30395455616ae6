//! The player's commands and how a line of input is read as one.

use crate::utils::{lowercase, split_whitespace, str_equal, texts, to_lowercase, trim, trimmed, words};
use crate::world::room::Direction;
use vstd::prelude::*;

verus! {

/// What the player can ask for.
#[derive(Debug, PartialEq, Eq)]
pub enum Command {
    Look(Option<String>),
    Examine(Option<String>),
    Open(String),
    Close(String),
    Go(Direction),
    Take(String),
    Drop(String),
    TakeFrom(String, String),
    PutInto(String, String),
    Use(String),
    Enter(String),
    Combine(String, String),
    Push(String),
    Pull(String),
    Turn(String),
    Read(String),
    Eat(String),
    Inventory,
    Status,
    Help,
    Save,
    Load,
    DebugListAllCommands,
}

/// A command as a mathematical value.
pub enum CommandView {
    Look(Option<Seq<char>>),
    Examine(Option<Seq<char>>),
    Open(Seq<char>),
    Close(Seq<char>),
    Go(Direction),
    Take(Seq<char>),
    Drop(Seq<char>),
    TakeFrom(Seq<char>, Seq<char>),
    PutInto(Seq<char>, Seq<char>),
    Use(Seq<char>),
    Enter(Seq<char>),
    Combine(Seq<char>, Seq<char>),
    Push(Seq<char>),
    Pull(Seq<char>),
    Turn(Seq<char>),
    Read(Seq<char>),
    Eat(Seq<char>),
    Inventory,
    Status,
    Help,
    Save,
    Load,
    DebugListAllCommands,
}

impl View for Command {
    type V = CommandView;

    open spec fn view(&self) -> CommandView {
        match self {
            Command::Look(Some(obj)) => CommandView::Look(Some(obj@)),
            Command::Look(None) => CommandView::Look(None),
            Command::Examine(Some(obj)) => CommandView::Examine(Some(obj@)),
            Command::Examine(None) => CommandView::Examine(None),
            Command::Open(obj) => CommandView::Open(obj@),
            Command::Close(obj) => CommandView::Close(obj@),
            Command::Go(direction) => CommandView::Go(*direction),
            Command::Take(obj) => CommandView::Take(obj@),
            Command::Drop(obj) => CommandView::Drop(obj@),
            Command::TakeFrom(obj, cont) => CommandView::TakeFrom(obj@, cont@),
            Command::PutInto(obj, cont) => CommandView::PutInto(obj@, cont@),
            Command::Use(obj) => CommandView::Use(obj@),
            Command::Enter(code) => CommandView::Enter(code@),
            Command::Combine(first, second) => CommandView::Combine(first@, second@),
            Command::Push(obj) => CommandView::Push(obj@),
            Command::Pull(obj) => CommandView::Pull(obj@),
            Command::Turn(obj) => CommandView::Turn(obj@),
            Command::Read(obj) => CommandView::Read(obj@),
            Command::Eat(obj) => CommandView::Eat(obj@),
            Command::Inventory => CommandView::Inventory,
            Command::Status => CommandView::Status,
            Command::Help => CommandView::Help,
            Command::Save => CommandView::Save,
            Command::Load => CommandView::Load,
            Command::DebugListAllCommands => CommandView::DebugListAllCommands,
        }
    }
}

/// The view of what a line was read as.
pub open spec fn reading(parsed: Option<Command>) -> Option<CommandView> {
    match parsed {
        Some(command) => Some(command@),
        None => None,
    }
}

/// Whether a word is an article.
pub open spec fn article_word(word: Seq<char>) -> bool {
    word == "the"@ || word == "a"@ || word == "an"@
}

/// The words without the articles among them, the rest in order.
pub open spec fn without_articles(all: Seq<Seq<char>>) -> Seq<Seq<char>>
    decreases all.len(),
{
    if all.len() == 0 {
        all
    } else if article_word(all.last()) {
        without_articles(all.drop_last())
    } else {
        without_articles(all.drop_last()).push(all.last())
    }
}

/// The direction that a word names, by its full name or its first letter.
pub open spec fn direction_word(word: Seq<char>) -> Option<Direction> {
    if word == "north"@ || word == "n"@ {
        Some(Direction::North)
    } else if word == "east"@ || word == "e"@ {
        Some(Direction::East)
    } else if word == "south"@ || word == "s"@ {
        Some(Direction::South)
    } else if word == "west"@ || word == "w"@ {
        Some(Direction::West)
    } else if word == "up"@ || word == "u"@ {
        Some(Direction::Up)
    } else if word == "down"@ || word == "d"@ {
        Some(Direction::Down)
    } else {
        None
    }
}

/// What a single word asks for.
pub open spec fn one_word(verb: Seq<char>) -> Option<CommandView> {
    if verb == "look"@ || verb == "examine"@ || verb == "x"@ {
        Some(CommandView::Look(None))
    } else if verb == "inventory"@ || verb == "i"@ {
        Some(CommandView::Inventory)
    } else if verb == "status"@ {
        Some(CommandView::Status)
    } else if verb == "help"@ || verb == "h"@ {
        Some(CommandView::Help)
    } else if verb == "save"@ {
        Some(CommandView::Save)
    } else if verb == "load"@ {
        Some(CommandView::Load)
    } else {
        match direction_word(verb) {
            Some(direction) => Some(CommandView::Go(direction)),
            None => None,
        }
    }
}

/// What a verb with one object asks for.
pub open spec fn two_words(verb: Seq<char>, obj: Seq<char>) -> Option<CommandView> {
    if verb == "look"@ || verb == "examine"@ || verb == "x"@ {
        Some(CommandView::Look(Some(obj)))
    } else if verb == "open"@ || verb == "o"@ {
        Some(CommandView::Open(obj))
    } else if verb == "close"@ || verb == "c"@ {
        Some(CommandView::Close(obj))
    } else if verb == "take"@ || verb == "get"@ {
        Some(CommandView::Take(obj))
    } else if verb == "drop"@ {
        Some(CommandView::Drop(obj))
    } else if verb == "use"@ {
        Some(CommandView::Use(obj))
    } else if verb == "enter"@ {
        Some(CommandView::Enter(obj))
    } else if verb == "turn"@ {
        Some(CommandView::Turn(obj))
    } else if verb == "read"@ {
        Some(CommandView::Read(obj))
    } else if verb == "eat"@ || verb == "consume"@ {
        Some(CommandView::Eat(obj))
    } else if verb == "go"@ {
        match direction_word(obj) {
            Some(direction) => Some(CommandView::Go(direction)),
            None => None,
        }
    } else {
        None
    }
}

/// What the words of a line ask for, the articles already left out.
pub open spec fn command_of(line: Seq<Seq<char>>) -> Option<CommandView> {
    if line.len() == 1 {
        one_word(line[0])
    } else if line.len() == 2 {
        two_words(line[0], line[1])
    } else if line.len() == 3 {
        if line[0] == "x"@ && line[1] == "room"@ && line[2] == "ls"@ {
            Some(CommandView::Look(None))
        } else if line[0] == "pick"@ && line[1] == "up"@ {
            Some(CommandView::Take(line[2]))
        } else {
            None
        }
    } else if line.len() == 4 {
        if (line[0] == "take"@ || line[0] == "get"@ || line[0] == "pick"@ || line[0]
            == "retrieve"@) && line[2] == "from"@ {
            Some(CommandView::TakeFrom(line[1], line[3]))
        } else if (line[0] == "put"@ || line[0] == "place"@) && line[2] == "into"@ {
            Some(CommandView::PutInto(line[1], line[3]))
        } else {
            None
        }
    } else if line.len() == 5 {
        if line[0] == "pick"@ && line[1] == "up"@ && line[3] == "from"@ {
            Some(CommandView::TakeFrom(line[2], line[4]))
        } else {
            None
        }
    } else {
        None
    }
}

/// Whether a word is an article.
pub fn is_article(word: &str) -> (yes: bool)
    ensures
        yes == article_word(word@),
{
    str_equal(word, "the") || str_equal(word, "a") || str_equal(word, "an")
}

/// The words of a text without the articles. The text is taken as it
/// stands.
pub fn sanitize_and_split(input: &str) -> (line: Vec<String>)
    ensures
        texts(line@) == without_articles(words(input@)),
{
    let all = split_whitespace(input);
    strip_articles(&all)
}

/// The words without the articles among them, the rest in order.
pub fn strip_articles(all: &Vec<String>) -> (line: Vec<String>)
    ensures
        texts(line@) == without_articles(texts(all@)),
{
    let mut line: Vec<String> = Vec::new();
    let mut i: usize = 0;
    assert(texts(line@) =~= without_articles(texts(all@).subrange(0, 0)));
    while i < all.len()
        invariant
            i <= all.len(),
            texts(line@) == without_articles(texts(all@).subrange(0, i as int)),
        decreases all.len() - i,
    {
        let ghost before = line@;
        assert(texts(all@).subrange(0, i + 1).drop_last() =~= texts(all@).subrange(0, i as int));
        assert(texts(all@).subrange(0, i + 1).last() == all@[i as int]@);
        if !is_article(all[i].as_str()) {
            line.push(all[i].clone());
            assert(texts(line@) =~= texts(before).push(all@[i as int]@));
        }
        i += 1;
    }
    assert(texts(all@).subrange(0, all.len() as int) =~= texts(all@));
    line
}

fn direction_of(word: &str) -> (found: Option<Direction>)
    ensures
        found == direction_word(word@),
{
    if str_equal(word, "north") || str_equal(word, "n") {
        Some(Direction::North)
    } else if str_equal(word, "east") || str_equal(word, "e") {
        Some(Direction::East)
    } else if str_equal(word, "south") || str_equal(word, "s") {
        Some(Direction::South)
    } else if str_equal(word, "west") || str_equal(word, "w") {
        Some(Direction::West)
    } else if str_equal(word, "up") || str_equal(word, "u") {
        Some(Direction::Up)
    } else if str_equal(word, "down") || str_equal(word, "d") {
        Some(Direction::Down)
    } else {
        None
    }
}

fn read_one_word(verb: &str) -> (parsed: Option<Command>)
    ensures
        reading(parsed) == one_word(verb@),
{
    if str_equal(verb, "look") || str_equal(verb, "examine") || str_equal(verb, "x") {
        Some(Command::Look(None))
    } else if str_equal(verb, "inventory") || str_equal(verb, "i") {
        Some(Command::Inventory)
    } else if str_equal(verb, "status") {
        Some(Command::Status)
    } else if str_equal(verb, "help") || str_equal(verb, "h") {
        Some(Command::Help)
    } else if str_equal(verb, "save") {
        Some(Command::Save)
    } else if str_equal(verb, "load") {
        Some(Command::Load)
    } else {
        match direction_of(verb) {
            Some(direction) => Some(Command::Go(direction)),
            None => None,
        }
    }
}

fn read_two_words(verb: &str, obj: &str) -> (parsed: Option<Command>)
    ensures
        reading(parsed) == two_words(verb@, obj@),
{
    if str_equal(verb, "look") || str_equal(verb, "examine") || str_equal(verb, "x") {
        Some(Command::Look(Some(obj.to_owned())))
    } else if str_equal(verb, "open") || str_equal(verb, "o") {
        Some(Command::Open(obj.to_owned()))
    } else if str_equal(verb, "close") || str_equal(verb, "c") {
        Some(Command::Close(obj.to_owned()))
    } else if str_equal(verb, "take") || str_equal(verb, "get") {
        Some(Command::Take(obj.to_owned()))
    } else if str_equal(verb, "drop") {
        Some(Command::Drop(obj.to_owned()))
    } else if str_equal(verb, "use") {
        Some(Command::Use(obj.to_owned()))
    } else if str_equal(verb, "enter") {
        Some(Command::Enter(obj.to_owned()))
    } else if str_equal(verb, "turn") {
        Some(Command::Turn(obj.to_owned()))
    } else if str_equal(verb, "read") {
        Some(Command::Read(obj.to_owned()))
    } else if str_equal(verb, "eat") || str_equal(verb, "consume") {
        Some(Command::Eat(obj.to_owned()))
    } else if str_equal(verb, "go") {
        match direction_of(obj) {
            Some(direction) => Some(Command::Go(direction)),
            None => None,
        }
    } else {
        None
    }
}

/// Reads the words of a line, the articles already left out, as a command.
pub fn parse_words(line: &Vec<String>) -> (parsed: Option<Command>)
    ensures
        reading(parsed) == command_of(texts(line@)),
{
    let n = line.len();
    if n == 1 {
        read_one_word(line[0].as_str())
    } else if n == 2 {
        read_two_words(line[0].as_str(), line[1].as_str())
    } else if n == 3 {
        if str_equal(line[0].as_str(), "x") && str_equal(line[1].as_str(), "room") && str_equal(
            line[2].as_str(),
            "ls",
        ) {
            Some(Command::Look(None))
        } else if str_equal(line[0].as_str(), "pick") && str_equal(line[1].as_str(), "up") {
            Some(Command::Take(line[2].clone()))
        } else {
            None
        }
    } else if n == 4 {
        let verb = line[0].as_str();
        if (str_equal(verb, "take") || str_equal(verb, "get") || str_equal(verb, "pick")
            || str_equal(verb, "retrieve")) && str_equal(line[2].as_str(), "from") {
            Some(Command::TakeFrom(line[1].clone(), line[3].clone()))
        } else if (str_equal(verb, "put") || str_equal(verb, "place")) && str_equal(
            line[2].as_str(),
            "into",
        ) {
            Some(Command::PutInto(line[1].clone(), line[3].clone()))
        } else {
            None
        }
    } else if n == 5 {
        if str_equal(line[0].as_str(), "pick") && str_equal(line[1].as_str(), "up") && str_equal(
            line[3].as_str(),
            "from",
        ) {
            Some(Command::TakeFrom(line[2].clone(), line[4].clone()))
        } else {
            None
        }
    } else {
        None
    }
}

/// Reads a line of input as a command: the line is trimmed and folded to
/// lower case and split into words at white space, and the words without
/// the articles are matched against the forms of the commands.
pub fn parse(input: &str) -> (parsed: Option<Command>)
    ensures
        reading(parsed) == command_of(without_articles(words(lowercase(trimmed(input@))))),
{
    let input_lowercase = to_lowercase(trim(input));
    let line = sanitize_and_split(input_lowercase.as_str());
    parse_words(&line)
}

} // verus!
