use quick_menu::geometry::Vector;
use quick_menu::list::List;
use quick_menu::options::MenuOption;
use quick_menu::searchbar::Searchbar;
use quick_menu::style::{BorderStyle, CellColor, Color, Colorscheme, Customizations};
use quick_menu::ui::{InputMode, Ui};
use quick_menu::wrapping::wrap_display;

fn option(key: char, output: &str, display: &str) -> MenuOption {
    MenuOption { key, output: String::from(output), display: String::from(display) }
}

fn customizations(border_style: BorderStyle) -> Customizations {
    let plain = CellColor { foreground: Color::Black, background: Color::White };
    let colorscheme =
        Colorscheme { selected: plain, key: plain, border: Color::White };
    Customizations { colorscheme, border_style }
}

#[test]
fn border_reservation_is_zero_or_two() {
    assert_eq!(BorderStyle::Hidden.size(), 0);
    assert_eq!(BorderStyle::Plain.size(), 2);
    assert_eq!(BorderStyle::Thick.size(), 2);
    assert_eq!(BorderStyle::Rounded.size(), 2);
    assert_eq!(BorderStyle::Double.size(), 2);
}

#[test]
fn centering_splits_the_leftover_evenly() {
    let footprint = Vector { x: 12, y: 4 };
    let outer = Vector { x: 40, y: 20 };
    let rect = footprint.center_in(outer);
    assert_eq!((rect.x, rect.y, rect.width, rect.height), (14, 8, 12, 4));
}

#[test]
fn centering_clamps_to_a_small_terminal() {
    let footprint = Vector { x: 50, y: 30 };
    let outer = Vector { x: 40, y: 20 };
    let rect = footprint.center_in(outer);
    assert_eq!((rect.x, rect.y, rect.width, rect.height), (0, 0, 40, 20));
}

#[test]
fn intrinsic_footprint_counts_border_and_shortcut_column() {
    let options = vec![option('a', "A", "Apple"), option('b', "B", "Banana")];
    let list = List::new(options, customizations(BorderStyle::Thick));
    assert_eq!(list.dimensions.x, 12);
    assert_eq!(list.dimensions.y, 4);

    let options = vec![option('a', "A", "Apple"), option('b', "B", "Banana")];
    let borderless = List::new(options, customizations(BorderStyle::Hidden));
    assert_eq!(borderless.dimensions.x, 10);
    assert_eq!(borderless.dimensions.y, 2);
}

#[test]
fn selecting_layout_centers_the_list() {
    let options = vec![option('a', "A", "Apple"), option('b', "B", "Banana")];
    let mut ui = Ui::new(options, customizations(BorderStyle::Thick));
    let placed = ui.layout(Vector { x: 40, y: 20 });
    assert_eq!((placed.list.x, placed.list.y), (14, 8));
    assert_eq!((placed.list.width, placed.list.height), (12, 4));
    assert!(placed.searchbar.is_none());
}

#[test]
fn searching_layout_puts_the_bar_below_the_list() {
    let options = vec![option('a', "A", "Apple"), option('b', "B", "Banana")];
    let mut ui = Ui::new(options, customizations(BorderStyle::Thick));
    ui.input_mode = InputMode::Searching;
    let placed = ui.layout(Vector { x: 40, y: 20 });
    assert_eq!((placed.list.x, placed.list.y), (14, 6));
    let bar = placed.searchbar.unwrap();
    assert_eq!((bar.x, bar.y, bar.width, bar.height), (14, 10, 12, 3));
    assert_eq!(ui.input_mode, InputMode::Searching);
}

#[test]
fn too_short_terminal_forces_selecting_mode() {
    let options = vec![option('a', "A", "Apple")];
    let mut ui = Ui::new(options, customizations(BorderStyle::Thick));
    ui.input_mode = InputMode::Searching;
    let placed = ui.layout(Vector { x: 40, y: 3 });
    assert_eq!(ui.input_mode, InputMode::Selecting);
    assert!(placed.searchbar.is_none());
}

#[test]
fn input_mode_switch_toggles() {
    let mut mode = InputMode::Selecting;
    mode.switch();
    assert_eq!(mode, InputMode::Searching);
    mode.switch();
    assert_eq!(mode, InputMode::Selecting);
}

#[test]
fn wrapping_keeps_lines_inside_the_budget() {
    let lines = wrap_display("a very long line of text", 10);
    assert!(lines.len() >= 2);
    for line in &lines {
        assert!(line.chars().count() <= 6, "line too wide: {:?}", line);
    }
    for line in &lines[1..] {
        assert!(line.starts_with("    "), "continuation not indented: {:?}", line);
    }
}

#[test]
fn short_text_stays_on_one_line() {
    let lines = wrap_display("hello", 20);
    assert_eq!(lines, vec![String::from("hello")]);
}

#[test]
fn searchbar_cursor_follows_the_query() {
    let mut bar = Searchbar::new(customizations(BorderStyle::Thick));
    assert_eq!(bar.cursor(10), 1);
    bar.query.push_str("ab");
    assert_eq!(bar.cursor(10), 3);
    bar.query.push_str("cdefghij");
    assert_eq!(bar.cursor(10), 7);
}

#[test]
fn searchbar_scrolls_once_the_query_outgrows_the_bar() {
    let mut bar = Searchbar::new(customizations(BorderStyle::Thick));
    assert_eq!(bar.scroll(10), 0);
    bar.query.push_str("abcdefghij");
    assert_eq!(bar.scroll(10), 4);
}
