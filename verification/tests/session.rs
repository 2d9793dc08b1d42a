use quick_menu::config::Config;
use quick_menu::events::{
    handle_key, handle_mouse, Choice, KeyCode, KeyInput, Modifiers, MouseInput, MouseKind,
};
use quick_menu::geometry::Vector;
use quick_menu::options::MenuOption;
use quick_menu::style::{BorderStyle, CellColor, Color, Colorscheme, Customizations};
use quick_menu::ui::{InputMode, Ui};

fn option(key: char, output: &str, display: &str) -> MenuOption {
    MenuOption { key, output: String::from(output), display: String::from(display) }
}

fn fruit_options() -> Vec<MenuOption> {
    vec![option('a', "A", "Apple"), option('b', "B", "Banana")]
}

fn fruit_ui() -> Ui {
    let plain = CellColor { foreground: Color::Black, background: Color::White };
    let colorscheme = Colorscheme { selected: plain, key: plain, border: Color::White };
    let customizations = Customizations { colorscheme, border_style: BorderStyle::Thick };
    Ui::new(fruit_options(), customizations)
}

fn plain(code: KeyCode) -> KeyInput {
    KeyInput { code, modifiers: Modifiers::Plain }
}

fn control(code: KeyCode) -> KeyInput {
    KeyInput { code, modifiers: Modifiers::Control }
}

#[test]
fn down_then_enter_chooses_the_first_option() {
    let mut ui = fruit_ui();
    let options = fruit_options();
    let config = Config::default();

    assert_eq!(handle_key(plain(KeyCode::Down), &mut ui, &options, &config), None);
    assert_eq!(ui.list.state.selected(), Some(0));
    assert_eq!(
        handle_key(plain(KeyCode::Enter), &mut ui, &options, &config),
        Some(Choice::Chosen(0))
    );
}

#[test]
fn escape_cancels_immediately() {
    let mut ui = fruit_ui();
    let options = fruit_options();
    let config = Config::default();

    assert_eq!(
        handle_key(plain(KeyCode::Esc), &mut ui, &options, &config),
        Some(Choice::Cancelled)
    );
}

#[test]
fn shortcut_key_chooses_its_option_immediately() {
    let mut ui = fruit_ui();
    let options = fruit_options();
    let config = Config::default();

    assert_eq!(
        handle_key(plain(KeyCode::Char('b')), &mut ui, &options, &config),
        Some(Choice::Chosen(1))
    );
    assert_eq!(
        handle_key(plain(KeyCode::Char('z')), &mut ui, &options, &config),
        None
    );
}

#[test]
fn enter_with_nothing_selected_defaults_to_the_first_row() {
    let mut ui = fruit_ui();
    let options = fruit_options();
    let config = Config::default();

    assert_eq!(
        handle_key(plain(KeyCode::Enter), &mut ui, &options, &config),
        Some(Choice::Chosen(0))
    );
}

#[test]
fn left_unselects() {
    let mut ui = fruit_ui();
    let options = fruit_options();
    let config = Config::default();

    handle_key(plain(KeyCode::Down), &mut ui, &options, &config);
    handle_key(plain(KeyCode::Down), &mut ui, &options, &config);
    assert_eq!(ui.list.state.selected(), Some(1));
    handle_key(plain(KeyCode::Left), &mut ui, &options, &config);
    assert_eq!(ui.list.state.selected(), None);
}

#[test]
fn typed_characters_edit_the_query_while_searching() {
    let mut ui = fruit_ui();
    let options = fruit_options();
    let config = Config::default();

    handle_key(control(KeyCode::Char('s')), &mut ui, &options, &config);
    assert_eq!(ui.input_mode, InputMode::Searching);

    handle_key(plain(KeyCode::Char('b')), &mut ui, &options, &config);
    handle_key(plain(KeyCode::Char('a')), &mut ui, &options, &config);
    assert_eq!(ui.query.string, "ba");
    assert_eq!(ui.list.state.selected(), Some(1));

    handle_key(plain(KeyCode::Backspace), &mut ui, &options, &config);
    assert_eq!(ui.query.string, "b");
    assert_eq!(ui.list.state.selected(), Some(1));

    handle_key(plain(KeyCode::Backspace), &mut ui, &options, &config);
    assert_eq!(ui.query.string, "");
    assert_eq!(ui.list.state.selected(), Some(0));
}

#[test]
fn unmatched_query_clears_and_stays_in_search_mode() {
    let mut ui = fruit_ui();
    let options = fruit_options();
    let config = Config::default();

    ui.input_mode = InputMode::Searching;
    handle_key(plain(KeyCode::Char('q')), &mut ui, &options, &config);
    assert_eq!(ui.list.state.selected(), None);
    assert_eq!(ui.input_mode, InputMode::Searching);
}

#[test]
fn control_keys_scroll_and_toggle_search() {
    let mut ui = fruit_ui();
    let options = fruit_options();
    let config = Config::default();

    handle_key(control(KeyCode::Char('j')), &mut ui, &options, &config);
    assert_eq!(ui.list.state.selected(), Some(0));
    handle_key(control(KeyCode::Char('k')), &mut ui, &options, &config);
    assert_eq!(ui.list.state.selected(), Some(1));
    handle_key(control(KeyCode::Char('x')), &mut ui, &options, &config);
    assert_eq!(ui.input_mode, InputMode::Selecting);
    handle_key(control(KeyCode::Char('s')), &mut ui, &options, &config);
    assert_eq!(ui.input_mode, InputMode::Searching);
}

#[test]
fn scroll_wheel_moves_the_selection() {
    let mut ui = fruit_ui();
    let scroll_down = MouseInput { kind: MouseKind::ScrollDown, x: 0, y: 0 };
    let scroll_up = MouseInput { kind: MouseKind::ScrollUp, x: 0, y: 0 };

    assert_eq!(handle_mouse(scroll_down, &mut ui), None);
    assert_eq!(ui.list.state.selected(), Some(0));
    assert_eq!(handle_mouse(scroll_down, &mut ui), None);
    assert_eq!(ui.list.state.selected(), Some(1));
    assert_eq!(handle_mouse(scroll_up, &mut ui), None);
    assert_eq!(ui.list.state.selected(), Some(0));
}

#[test]
fn middle_click_confirms_the_current_selection() {
    let mut ui = fruit_ui();
    let middle = MouseInput { kind: MouseKind::MiddleDown, x: 0, y: 0 };

    assert_eq!(handle_mouse(middle, &mut ui), None);
    let scroll_down = MouseInput { kind: MouseKind::ScrollDown, x: 0, y: 0 };
    handle_mouse(scroll_down, &mut ui);
    assert_eq!(handle_mouse(middle, &mut ui), Some(0));
}

#[test]
fn click_highlights_then_confirms() {
    let mut ui = fruit_ui();
    let placed = ui.layout(Vector { x: 40, y: 20 });

    let second_row = MouseInput {
        kind: MouseKind::LeftDown,
        x: placed.list.x + 1,
        y: placed.list.y + 2,
    };
    assert_eq!(handle_mouse(second_row, &mut ui), None);
    assert_eq!(ui.list.state.selected(), Some(1));
    assert_eq!(handle_mouse(second_row, &mut ui), Some(1));
}

#[test]
fn click_outside_the_list_changes_nothing() {
    let mut ui = fruit_ui();
    let placed = ui.layout(Vector { x: 40, y: 20 });

    handle_mouse(MouseInput { kind: MouseKind::ScrollDown, x: 0, y: 0 }, &mut ui);
    assert_eq!(ui.list.state.selected(), Some(0));

    let outside = MouseInput {
        kind: MouseKind::LeftDown,
        x: placed.list.x + placed.list.width + 1,
        y: placed.list.y + 2,
    };
    assert_eq!(handle_mouse(outside, &mut ui), None);
    assert_eq!(ui.list.state.selected(), Some(0));
}

#[test]
fn click_before_any_render_changes_nothing() {
    let mut ui = fruit_ui();
    let click = MouseInput { kind: MouseKind::LeftDown, x: 5, y: 5 };
    assert_eq!(handle_mouse(click, &mut ui), None);
    assert_eq!(ui.list.state.selected(), None);
}
