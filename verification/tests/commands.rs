use g213_colours::commands::{
    get_colour_or_red, get_colours_or_red, get_command, list_colours, parse_u16_dec, parse_u8_dec,
    Command, Status, Successful, RED,
};
use g213_colours::x11_colours::ColourTable;

fn to_string_vec(words: Vec<&str>) -> Vec<String> {
    words.iter().map(|s| s.to_string()).collect()
}

#[test]
fn colour_command() {
    let args = to_string_vec(vec!["colour"]);

    let cmd = get_command(&args);

    assert!(match cmd {
        Command::Colour(_) => true,
        _ => false,
    });

    assert!(!cmd.has_args());
}

#[test]
fn colour_command_with_args() {
    let args = to_string_vec(vec!["colour", "0xff00ff"]);

    let cmd = get_command(&args);

    assert!(match cmd {
        Command::Colour(_) => true,
        _ => false,
    });

    assert!(cmd.has_args());
}

#[test]
fn successful_status() {
    let res = Status::Success.successful() && Status::SuccessNoSave.successful();

    assert_eq!(res, true);
}

#[test]
fn unsuccessful_status() {
    let res = Status::Failure.successful();

    assert_eq!(res, false);
}

#[test]
fn abbreviated_commands() {
    assert!(matches!(get_command(&to_string_vec(vec!["c"])), Command::Colour(_)));
    assert!(matches!(get_command(&to_string_vec(vec!["r", "2"])), Command::Region(_)));
    assert!(matches!(get_command(&to_string_vec(vec!["rs"])), Command::Regions(_)));
    assert!(matches!(get_command(&to_string_vec(vec!["b", "1000"])), Command::Breathe(_)));
    assert!(matches!(get_command(&to_string_vec(vec!["cy", "1000"])), Command::Cycle(_)));
    assert!(matches!(get_command(&to_string_vec(vec!["l"])), Command::List(_)));
    assert!(matches!(get_command(&to_string_vec(vec!["i"])), Command::Info));
    assert!(matches!(get_command(&to_string_vec(vec!["s"])), Command::Saved));
    assert!(matches!(get_command(&to_string_vec(vec!["?"])), Command::Help(_)));
}

#[test]
fn unknown_command_keeps_args() {
    let cmd = get_command(&to_string_vec(vec!["sparkle", "red"]));

    match cmd {
        Command::Unknown(args) => assert_eq!(args, to_string_vec(vec!["sparkle", "red"])),
        _ => panic!("expected an unknown command"),
    }
}

#[test]
fn empty_args_give_unknown() {
    let cmd = get_command(&Vec::new());

    assert!(matches!(cmd, Command::Unknown(_)));
    assert!(!cmd.has_args());
}

#[test]
fn display_strings() {
    let colour = Command::Colour(to_string_vec(vec!["alice", "blue"]));
    let info = Command::Info;
    let saved = Command::Saved;

    assert_eq!(colour.display_string(), "colour alice blue");
    assert_eq!(info.display_string(), "info");
    assert_eq!(saved.display_string(), "saved");
}

#[test]
fn parse_u8_values() {
    assert_eq!(parse_u8_dec("0"), Some(0));
    assert_eq!(parse_u8_dec("5"), Some(5));
    assert_eq!(parse_u8_dec("255"), Some(255));
    assert_eq!(parse_u8_dec("256"), None);
    assert_eq!(parse_u8_dec(""), None);
    assert_eq!(parse_u8_dec("2x"), None);
}

#[test]
fn parse_u16_values() {
    assert_eq!(parse_u16_dec("1000"), Some(1000));
    assert_eq!(parse_u16_dec("65535"), Some(65535));
    assert_eq!(parse_u16_dec("65536"), None);
    assert_eq!(parse_u16_dec("-1"), None);
}

#[test]
fn colour_or_red_resolved() {
    let table = ColourTable::new();

    let (colour, status) = get_colour_or_red(&table, &to_string_vec(vec!["red"]));

    assert_eq!(colour, 0xff0000);
    assert_eq!(status, Status::Success);
}

#[test]
fn colour_or_red_unresolved() {
    let table = ColourTable::new();

    let (colour, status) = get_colour_or_red(&table, &to_string_vec(vec!["nonsense"]));

    assert_eq!(colour, RED);
    assert_eq!(status, Status::Failure);
}

#[test]
fn colours_or_red_unresolved() {
    let table = ColourTable::new();

    let (colours, status) = get_colours_or_red(&table, &to_string_vec(vec!["nonsense"]), 5);

    assert_eq!(colours, vec![RED; 5]);
    assert_eq!(status, Status::Failure);
}

#[test]
fn list_colours_filtered() {
    let table = ColourTable::new();

    let (matched, status) = list_colours(&table, &to_string_vec(vec!["ALICE"]));

    assert_eq!(matched.len(), 2);
    assert_eq!(status, Status::SuccessNoSave);
}

#[test]
fn list_colours_no_match() {
    let table = ColourTable::new();

    let (matched, status) = list_colours(&table, &to_string_vec(vec!["zzzz"]));

    assert!(matched.is_empty());
    assert_eq!(status, Status::Failure);
}
