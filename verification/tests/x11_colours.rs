use g213_colours::x11_colours::{
    adjust_3_digit_colour, get_colour_def, get_x11_colour, get_x11_colours, random_colour,
    random_x11_colour, ColourTable, DEFAULT_WHITE, NUM_X11_COLOURS,
};

fn to_string_vec(words: Vec<&str>) -> Vec<String> {
    words.iter().map(|s| s.to_string()).collect()
}

#[test]
fn x11_colours_num_colours() {
    let table = ColourTable::new();

    assert_eq!(table.len(), NUM_X11_COLOURS);
}

#[test]
fn get_def_white() {
    let table = ColourTable::new();

    assert_eq!(get_colour_def(&table, "white"), Some(0xffffff));
}

#[test]
fn get_def_alice_blue() {
    let table = ColourTable::new();

    assert_eq!(get_colour_def(&table, "alice blue"), Some(0xf0f8ff));
}

#[test]
fn get_def_alice_blue_mixed_case() {
    let table = ColourTable::new();

    assert_eq!(get_colour_def(&table, "ALICE blue"), Some(0xf0f8ff));
}

#[test]
fn get_def_aliceblue() {
    let table = ColourTable::new();

    assert_eq!(get_colour_def(&table, "AliceBlue"), Some(0xf0f8ff));
}

#[test]
fn get_def_aliceblue_mixed_case() {
    let table = ColourTable::new();

    assert_eq!(get_colour_def(&table, "AlicEBLUE"), Some(0xf0f8ff));
}

#[test]
fn def_none_for_bluuuu() {
    let table = ColourTable::new();

    assert_eq!(get_colour_def(&table, "bluuuuu"), None);
}

#[test]
fn def_none_for_blue_uuu() {
    let table = ColourTable::new();

    assert_eq!(get_colour_def(&table, "blue uuu"), None);
}

#[test]
fn get_def_first_snow() {
    let table = ColourTable::new();

    assert_eq!(get_colour_def(&table, "snow"), Some(0xfffafa));
}

#[test]
fn get_def_last_light_green() {
    let table = ColourTable::new();

    assert_eq!(get_colour_def(&table, "LightGreen"), Some(0x90ee90));
}

#[test]
fn get_def_medium_violet_red() {
    let table = ColourTable::new();

    assert_eq!(get_colour_def(&table, "mediumvioletRED"), Some(0xc71585));
}

#[test]
fn get_colour_default() {
    let table = ColourTable::new();
    let args = Vec::new();

    assert_eq!(get_x11_colour(&table, &args), Some(DEFAULT_WHITE));
}

#[test]
fn get_colour_medium_violet_red() {
    let table = ColourTable::new();
    let args = to_string_vec(vec!["Medium", "Violet", "Red"]);

    assert_eq!(get_x11_colour(&table, &args), Some(0xc71585));
}

#[test]
fn get_colour_alt_medium_violet_red() {
    let table = ColourTable::new();
    let args = to_string_vec(vec!["Medium", "Violet Red"]);

    assert_eq!(get_x11_colour(&table, &args), Some(0xc71585));
}

#[test]
fn get_colour_with_underscores() {
    let table = ColourTable::new();
    let args = to_string_vec(vec!["light_goldenrod", "yellow"]);

    assert_eq!(get_x11_colour(&table, &args), Some(0xfafad2));
}

#[test]
fn get_colour_none_for_x11_uknown() {
    let table = ColourTable::new();
    let args = to_string_vec(vec!["not", "a_colour"]);

    assert_eq!(get_x11_colour(&table, &args), None);
}

#[test]
fn get_colour_none_for_x11_too_many_args() {
    let table = ColourTable::new();
    let args = to_string_vec(vec!["no", "four", "word", "colours"]);

    assert_eq!(get_x11_colour(&table, &args), None);
}

#[test]
fn get_colour_hex() {
    let table = ColourTable::new();
    let args = to_string_vec(vec!["ff0055"]);

    assert_eq!(get_x11_colour(&table, &args), Some(0xff0055));
}

#[test]
fn get_colour_hex_4digits() {
    let table = ColourTable::new();
    let args = to_string_vec(vec!["ff00"]);

    assert_eq!(get_x11_colour(&table, &args), Some(0xff00));
}

#[test]
fn get_colour_hex_3digits_fs() {
    let table = ColourTable::new();
    let args = to_string_vec(vec!["fff"]);

    assert_eq!(get_x11_colour(&table, &args), Some(0xffffff));
}

#[test]
fn get_colour_hex_3digits_1s() {
    let table = ColourTable::new();
    let args = to_string_vec(vec!["111"]);

    assert_eq!(get_x11_colour(&table, &args), Some(0x111111));
}

#[test]
fn get_colour_hex_2digits() {
    let table = ColourTable::new();
    let args = to_string_vec(vec!["f1"]);

    assert_eq!(get_x11_colour(&table, &args), Some(0xf1));
}

#[test]
fn get_colour_0x_hex() {
    let table = ColourTable::new();
    let args = to_string_vec(vec!["0xbeefee"]);

    assert_eq!(get_x11_colour(&table, &args), Some(0xbeefee));
}

#[test]
fn get_colour_0x_hex_max_3_bytes() {
    let table = ColourTable::new();
    let args = to_string_vec(vec!["0x1fbeefee"]);

    assert_eq!(get_x11_colour(&table, &args), Some(0xbeefee));
}

#[test]
fn get_random_colour() {
    let col = random_colour();

    assert!(col <= 0xffffff);
}

#[test]
fn get_random_x11_colour() {
    let table = ColourTable::new();
    let col = random_x11_colour(&table);

    assert!(!col.0.is_empty());
    assert!(col.1 <= 0xffffff);
}

#[test]
fn get_5_colours() {
    let table = ColourTable::new();
    let args = to_string_vec(vec!["red", "blue", "green", "white", "black"]);

    assert_eq!(
        get_x11_colours(&table, &args, 5),
        Some(vec![0xff0000, 0xff, 0xff00, 0xffffff, 0x0])
    );
}

#[test]
fn get_5_colours_empty_args() {
    let table = ColourTable::new();
    let args = to_string_vec(vec![]);

    assert_eq!(get_x11_colours(&table, &args, 5), Some(vec![DEFAULT_WHITE; 5]));
}

#[test]
fn get_5_colours_check_padding() {
    let table = ColourTable::new();
    let args = to_string_vec(vec!["red", "blue", "green", "white"]);

    assert_eq!(
        get_x11_colours(&table, &args, 5),
        Some(vec![0xff0000, 0xff, 0xff00, 0xffffff, 0xffffff])
    );
}

#[test]
fn get_5_colours_single_random() {
    let table = ColourTable::new();
    let args = to_string_vec(vec!["random"]);
    let num_regions: u8 = g213_colours::g213_keyboard::NUM_REGIONS;

    let colours = get_x11_colours(&table, &args, num_regions).unwrap();

    assert_eq!(colours.len(), num_regions as usize);

    let mut differences: u32 = 0;

    for i in 0..num_regions {
        for j in 0..num_regions {
            if i != j && colours[i as usize] != colours[j as usize] {
                differences += 1;
            }
        }
    }

    assert!(differences > num_regions as u32);
}

#[test]
fn get_2_colours_multi_word() {
    let table = ColourTable::new();
    let args = to_string_vec(vec!["alice", "blue", "medium", "violet", "red"]);

    assert_eq!(get_x11_colours(&table, &args, 2), Some(vec![0xf0f8ff, 0xc71585]));
}

#[test]
fn adjust_3_digit_111() {
    assert_eq!(adjust_3_digit_colour(0x111), 0x111111);
}

#[test]
fn adjust_3_digit_321() {
    assert_eq!(adjust_3_digit_colour(0x321), 0x332211);
}

#[test]
fn adjust_3_digit_345678_unchanged() {
    assert_eq!(adjust_3_digit_colour(0x345678), 0x345678);
}

#[test]
fn adjust_3_digit_35678_unchanged() {
    assert_eq!(adjust_3_digit_colour(0x35678), 0x35678);
}

#[test]
fn adjust_3_digit_3678_unchanged() {
    assert_eq!(adjust_3_digit_colour(0x3678), 0x3678);
}

#[test]
fn all_alice_blue_forms_agree() {
    let table = ColourTable::new();

    let spaced = get_colour_def(&table, "alice blue");
    let shouted = get_colour_def(&table, "ALICE_BLUE");
    let mixed = get_colour_def(&table, "alice_BLUE");
    let camel = get_colour_def(&table, "AliceBlue");

    assert!(spaced.is_some());
    assert_eq!(spaced, shouted);
    assert_eq!(spaced, mixed);
    assert_eq!(spaced, camel);
}

#[test]
fn randomx11_resolves_to_table_value() {
    let table = ColourTable::new();
    let args = to_string_vec(vec!["randomx11"]);

    let col = get_x11_colour(&table, &args).unwrap();

    assert!(col <= 0xffffff);
}

#[test]
fn matching_entries_alice() {
    let table = ColourTable::new();

    let matched = table.matching_entries("alice");

    assert_eq!(matched.len(), 2);
    assert!(matched.iter().all(|e| e.0.contains("alice")));
    assert!(matched.iter().all(|e| e.1 == 0xf0f8ff));
}

#[test]
fn matching_entries_empty_filter_keeps_all() {
    let table = ColourTable::new();

    let matched = table.matching_entries("");

    assert_eq!(matched.len(), NUM_X11_COLOURS);
}
