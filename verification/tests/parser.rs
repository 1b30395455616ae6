use voidlogue::parser::command::{
    is_article, parse, parse_words, sanitize_and_split, strip_articles, Command,
};
use voidlogue::world::room::Direction;

fn s(text: &str) -> String {
    text.to_string()
}

#[test]
fn parse_looks() {
    assert_eq!(parse("look"), Some(Command::Look(None)));
    assert_eq!(parse("examine"), Some(Command::Look(None)));
    assert_eq!(parse("x"), Some(Command::Look(None)));
    assert_eq!(parse("x room ls"), Some(Command::Look(None)));
    assert_eq!(parse("look bucket"), Some(Command::Look(Some(s("bucket")))));
    assert_eq!(parse("examine the bucket"), Some(Command::Look(Some(s("bucket")))));
    assert_eq!(parse("x a bucket"), Some(Command::Look(Some(s("bucket")))));
}

#[test]
fn parse_folds_case_and_trims() {
    assert_eq!(parse("  LOOK   The  Bucket \n"), Some(Command::Look(Some(s("bucket")))));
    assert_eq!(parse("\tTake\tAn\tApple  "), Some(Command::Take(s("apple"))));
    assert_eq!(parse("Inventory\n"), Some(Command::Inventory));
}

#[test]
fn parse_open_and_close() {
    assert_eq!(parse("open door"), Some(Command::Open(s("door"))));
    assert_eq!(parse("o door"), Some(Command::Open(s("door"))));
    assert_eq!(parse("close door"), Some(Command::Close(s("door"))));
    assert_eq!(parse("c door"), Some(Command::Close(s("door"))));
}

#[test]
fn parse_take_and_drop() {
    assert_eq!(parse("take bucket"), Some(Command::Take(s("bucket"))));
    assert_eq!(parse("get bucket"), Some(Command::Take(s("bucket"))));
    assert_eq!(parse("pick up bucket"), Some(Command::Take(s("bucket"))));
    assert_eq!(parse("pick up the bucket"), Some(Command::Take(s("bucket"))));
    assert_eq!(parse("drop bucket"), Some(Command::Drop(s("bucket"))));
    assert_eq!(parse("pick bucket"), None);
}

#[test]
fn parse_take_from_and_put_into() {
    let expected = Some(Command::TakeFrom(s("note"), s("counter")));
    assert_eq!(parse("take note from counter"), expected);
    assert_eq!(parse("get the note from the counter"), expected);
    assert_eq!(parse("pick up note from counter"), expected);
    assert_eq!(parse("pick note from counter"), expected);
    assert_eq!(parse("retrieve note from counter"), expected);
    let expected = Some(Command::PutInto(s("card"), s("bucket")));
    assert_eq!(parse("put card into bucket"), expected);
    assert_eq!(parse("place a card into the bucket"), expected);
    assert_eq!(parse("put card in bucket"), None);
    assert_eq!(parse("take note out counter"), None);
}

#[test]
fn parse_single_object_verbs() {
    assert_eq!(parse("use computer"), Some(Command::Use(s("computer"))));
    assert_eq!(parse("enter 01::05::42"), Some(Command::Enter(s("01::05::42"))));
    assert_eq!(parse("turn knob"), Some(Command::Turn(s("knob"))));
    assert_eq!(parse("read note"), Some(Command::Read(s("note"))));
    assert_eq!(parse("eat ration"), Some(Command::Eat(s("ration"))));
    assert_eq!(parse("consume ration"), Some(Command::Eat(s("ration"))));
}

#[test]
fn parse_session_commands() {
    assert_eq!(parse("inventory"), Some(Command::Inventory));
    assert_eq!(parse("i"), Some(Command::Inventory));
    assert_eq!(parse("status"), Some(Command::Status));
    assert_eq!(parse("help"), Some(Command::Help));
    assert_eq!(parse("h"), Some(Command::Help));
    assert_eq!(parse("save"), Some(Command::Save));
    assert_eq!(parse("load"), Some(Command::Load));
}

#[test]
fn parse_directions() {
    let table = [
        ("north", "n", Direction::North),
        ("east", "e", Direction::East),
        ("south", "s", Direction::South),
        ("west", "w", Direction::West),
        ("up", "u", Direction::Up),
        ("down", "d", Direction::Down),
    ];
    for (long, short, direction) in table {
        assert_eq!(parse(long), Some(Command::Go(direction)));
        assert_eq!(parse(short), Some(Command::Go(direction)));
        assert_eq!(parse(&format!("go {}", long)), Some(Command::Go(direction)));
        assert_eq!(parse(&format!("go {}", short)), Some(Command::Go(direction)));
    }
    assert_eq!(parse("go nowhere"), None);
    assert_eq!(parse("stay"), None);
}

#[test]
fn parse_rejects_the_rest() {
    assert_eq!(parse(""), None);
    assert_eq!(parse("   "), None);
    assert_eq!(parse("the"), None);
    assert_eq!(parse("dance"), None);
    assert_eq!(parse("push button"), None);
    assert_eq!(parse("look at the bucket now please"), None);
    assert_eq!(parse("one two three four five six"), None);
}

#[test]
fn articles_are_three_words() {
    assert!(is_article("the"));
    assert!(is_article("a"));
    assert!(is_article("an"));
    assert!(!is_article("The"));
    assert!(!is_article("and"));
    assert!(!is_article(""));
}

#[test]
fn splitting_leaves_out_articles() {
    assert_eq!(sanitize_and_split("take the  red an apple a"), vec![s("take"), s("red"), s("apple")]);
    assert_eq!(sanitize_and_split(" \t "), Vec::<String>::new());
    assert_eq!(
        strip_articles(&vec![s("a"), s("the"), s("An"), s("an"), s("x")]),
        vec![s("An"), s("x")]
    );
}

#[test]
fn words_are_read_as_they_stand() {
    assert_eq!(parse_words(&vec![s("look")]), Some(Command::Look(None)));
    assert_eq!(parse_words(&vec![s("LOOK")]), None);
    assert_eq!(parse_words(&vec![s("look"), s("the")]), Some(Command::Look(Some(s("the")))));
    assert_eq!(parse_words(&vec![]), None);
}

#[test]
fn texts_are_trimmed_and_split_as_std_does() {
    let samples = [
        "",
        " ",
        "a",
        " a",
        "a ",
        "  take   the\tbucket \n",
        "\u{2003}wide\u{2003}space\u{2003}",
        "no-break\u{a0}space",
        "line\r\nbreak",
        "zero\u{200b}width",
        " \t\n ",
        "ünïcödé  wörds ",
    ];
    for text in samples {
        assert_eq!(voidlogue::utils::trim(text), text.trim());
        let expected: Vec<String> = text.split_whitespace().map(|w| w.to_string()).collect();
        assert_eq!(voidlogue::utils::split_whitespace(text), expected);
    }
}
