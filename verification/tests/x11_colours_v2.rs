use g213_colours::x11_colours::{
    get_colour_def, next_non_whitespace, parse_x11_colours, ColourTable, NUM_X11_COLOURS,
};

#[test]
fn non_ws_first() {
    assert_eq!(next_non_whitespace("Hello", 0), Some(0));
}

#[test]
fn non_ws_next() {
    assert_eq!(next_non_whitespace("Hello  there", 5), Some(7));
}

#[test]
fn non_ws_none() {
    assert_eq!(next_non_whitespace("Hello  ", 5), None);
}

#[test]
fn non_ws_end_none() {
    assert_eq!(next_non_whitespace("Hello", 5), None);
}

#[test]
fn x11_colours_v2_num_colours() {
    let table = ColourTable::new();

    assert_eq!(table.len(), NUM_X11_COLOURS);
}

#[test]
fn get_snow() {
    let table = ColourTable::new();

    assert_eq!(get_colour_def(&table, "snow"), Some(0xfffafa));
}

#[test]
fn parse_small_colour_list() {
    let text = "255 0 0\tred\n# a comment line\n\n1 2 3\tTwo Words\n";

    let entries = parse_x11_colours(text);

    assert_eq!(entries.len(), 2);
    assert_eq!(entries[0].0, "red");
    assert_eq!(entries[0].1, 0xff0000);
    assert_eq!(entries[1].0, "two words");
    assert_eq!(entries[1].1, 0x010203);
}

#[test]
fn parse_skips_malformed_lines() {
    let text = "255 0 0\tred\n300 0 0 toobig\nnot numbers at all\n0 0\n";

    let entries = parse_x11_colours(text);

    assert_eq!(entries.len(), 1);
    assert_eq!(entries[0].0, "red");
}
