use quick_menu::config::Config;
use quick_menu::options::{
    map_char, map_key, options_width, parse_lines, MenuOption, MenuOptionError, OptionsError,
};
use quick_menu::style::{Color, ColorError};

fn option(key: char, output: &str, display: &str) -> MenuOption {
    MenuOption { key, output: String::from(output), display: String::from(display) }
}

#[test]
fn line_with_display_parses() {
    let parsed = MenuOption::from_str("a: echo hi|Say hello").unwrap();
    assert_eq!(parsed.key, 'a');
    assert_eq!(parsed.output, "echo hi");
    assert_eq!(parsed.display, "Say hello");
}

#[test]
fn line_without_display_parses() {
    let parsed = MenuOption::from_str("k : firefox").unwrap();
    assert_eq!(parsed.key, 'k');
    assert_eq!(parsed.output, "firefox");
    assert_eq!(parsed.display, "");
}

#[test]
fn separator_may_hug_the_key() {
    let parsed = MenuOption::from_str("x:").unwrap();
    assert_eq!(parsed.key, 'x');
    assert_eq!(parsed.output, "");
    assert_eq!(parsed.display, "");
}

#[test]
fn empty_line_is_missing_key() {
    assert_eq!(MenuOption::from_str(""), Err(MenuOptionError::MissingKey));
}

#[test]
fn line_without_colon_is_missing_separator() {
    assert_eq!(MenuOption::from_str("ab"), Err(MenuOptionError::MissingSeparator));
    assert_eq!(MenuOption::from_str("a  b: c"), Err(MenuOptionError::MissingSeparator));
}

#[test]
fn lines_parse_in_order() {
    let lines = vec![String::from("a: one|One"), String::from("b: two|Two")];
    let parsed = parse_lines(&lines).unwrap();
    assert_eq!(parsed.len(), 2);
    assert_eq!(parsed[0].key, 'a');
    assert_eq!(parsed[1].display, "Two");
}

#[test]
fn no_lines_is_refused() {
    let lines: Vec<String> = Vec::new();
    assert_eq!(parse_lines(&lines), Err(OptionsError::NoOptions));
}

#[test]
fn first_bad_line_is_reported() {
    let lines = vec![String::from("a: one|One"), String::from("nope")];
    assert_eq!(
        parse_lines(&lines),
        Err(OptionsError::Line(1, MenuOptionError::MissingSeparator))
    );
}

#[test]
fn shortcut_lookup_finds_first_match() {
    let options = vec![option('a', "A", "Apple"), option('b', "B", "Banana"), option('a', "C", "Cherry")];
    assert_eq!(map_char('a', &options), Some(0));
    assert_eq!(map_char('b', &options), Some(1));
    assert_eq!(map_char('z', &options), None);
    assert_eq!(map_key('a', &options), Some(0));
    assert_eq!(map_key('z', &options), None);
}

#[test]
fn width_counts_longest_display_plus_shortcut_column() {
    let options = vec![option('a', "A", "Apple"), option('b', "B", "Banana")];
    assert_eq!(options_width(&options), 10);
}

#[test]
fn named_colors_parse() {
    assert_eq!(Color::from_str("red"), Ok(Color::Red));
    assert_eq!(Color::from_str("light magenta"), Ok(Color::LightMagenta));
    assert_eq!(Color::from_str("dark gray"), Ok(Color::DarkGray));
    assert_eq!(Color::from_str("white"), Ok(Color::White));
}

#[test]
fn hex_colors_parse() {
    assert_eq!(Color::from_str("#000000"), Ok(Color::Rgb(0, 0, 0)));
    assert_eq!(Color::from_str("#A0b1C2"), Ok(Color::Rgb(0xA0, 0xB1, 0xC2)));
    assert_eq!(Color::from_str("#ffffff"), Ok(Color::Rgb(255, 255, 255)));
}

#[test]
fn short_or_junk_hex_is_rejected() {
    assert_eq!(Color::from_str("#12345"), Err(ColorError));
    assert_eq!(Color::from_str("#1234567"), Err(ColorError));
    assert_eq!(Color::from_str("#12g45x"), Err(ColorError));
}

#[test]
fn palette_indices_parse_up_to_255() {
    assert_eq!(Color::from_str("0"), Ok(Color::Indexed(0)));
    assert_eq!(Color::from_str("200"), Ok(Color::Indexed(200)));
    assert_eq!(Color::from_str("255"), Ok(Color::Indexed(255)));
    assert_eq!(Color::from_str("256"), Err(ColorError));
    assert_eq!(Color::from_str("999999"), Err(ColorError));
}

#[test]
fn unknown_color_text_is_rejected() {
    assert_eq!(Color::from_str(""), Err(ColorError));
    assert_eq!(Color::from_str("crimson"), Err(ColorError));
}

#[test]
fn default_config_keys() {
    let config = Config::default();
    assert_eq!(config.up_key, 'j');
    assert_eq!(config.down_key, 'k');
    assert_eq!(config.search_key, 's');
}
