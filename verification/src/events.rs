//! The event-dispatch state machine: one input event at a time mutates the
//! interface state and may produce the session's outcome. The host reads
//! raw terminal events, maps them onto the event types here, and performs
//! the blocking loop around these handlers.

use vstd::prelude::*;

use crate::config::Config;
use crate::geometry::Vector;
use crate::list::{hit, select_next, select_outcome};
use crate::options::{map_char, MenuOption};
use crate::search::{is_best_match, no_match};
use crate::state::{next_sel, previous_sel};
use crate::ui::{InputMode, Ui};

verus! {

/// How the session ends: a confirmed option, or cancellation (in which
/// case the host prints nothing).
#[derive(Clone, Copy, PartialEq, Eq, Structural, Debug)]
pub enum Choice {
    Chosen(usize),
    Cancelled,
}

/// The keys the engine reacts to. Anything else arrives as `Other` and is
/// ignored.
#[derive(Clone, Copy, PartialEq, Eq, Structural, Debug)]
pub enum KeyCode {
    Down,
    Up,
    Left,
    Char(char),
    Backspace,
    Enter,
    Esc,
    Other,
}

/// The modifier state of a key event: no modifier, the control key, or
/// anything else (ignored).
#[derive(Clone, Copy, PartialEq, Eq, Structural, Debug)]
pub enum Modifiers {
    Plain,
    Control,
    Other,
}

/// One key event.
#[derive(Clone, Copy, PartialEq, Eq, Structural, Debug)]
pub struct KeyInput {
    pub code: KeyCode,
    pub modifiers: Modifiers,
}

/// The pointer events the engine reacts to.
#[derive(Clone, Copy, PartialEq, Eq, Structural, Debug)]
pub enum MouseKind {
    ScrollUp,
    ScrollDown,
    MiddleDown,
    LeftDown,
    Other,
}

/// One pointer event: its kind and the screen cell it happened on.
#[derive(Clone, Copy, PartialEq, Eq, Structural, Debug)]
pub struct MouseInput {
    pub kind: MouseKind,
    pub x: u16,
    pub y: u16,
}

/// Everything of the interface that no event may silently change: the
/// option set, the footprint, the styling, the rendered rectangle, and the
/// list length.
pub open spec fn same_shape(before: Ui, after: Ui) -> bool {
    &&& after.list.state.length == before.list.state.length
    &&& after.list.dimensions == before.list.dimensions
    &&& after.list.data == before.list.data
    &&& after.list.customizations == before.list.customizations
    &&& after.list.area == before.list.area
}

/// Dispatch one pointer event: scrolling moves the selection cyclically, a
/// middle click confirms the current selection, a left click highlights or
/// (on the already selected row) confirms, and anything else is ignored.
/// A returned index is the confirmed choice.
pub fn handle_mouse(mouse: MouseInput, ui: &mut Ui) -> (r: Option<usize>)
    requires
        old(ui).inv(),
    ensures
        final(ui).inv(),
        same_shape(*old(ui), *final(ui)),
        final(ui).query.string@ == old(ui).query.string@,
        final(ui).input_mode == old(ui).input_mode,
        match mouse.kind {
            MouseKind::ScrollUp => r is None && final(ui).list.state.inner == previous_sel(
                old(ui).list.state.inner,
                old(ui).list.state.length,
            ),
            MouseKind::ScrollDown => r is None && final(ui).list.state.inner == next_sel(
                old(ui).list.state.inner,
                old(ui).list.state.length,
            ),
            MouseKind::MiddleDown => r == old(ui).list.state.inner && final(ui).list.state.inner
                == old(ui).list.state.inner,
            MouseKind::LeftDown => {
                let coordinate = Vector { x: mouse.x, y: mouse.y };
                &&& r == select_outcome(old(ui).list, coordinate)
                &&& final(ui).list == select_next(old(ui).list, coordinate)
            },
            MouseKind::Other => r is None && final(ui).list.state.inner == old(
                ui,
            ).list.state.inner,
        },
{
    let coordinate = Vector { x: mouse.x, y: mouse.y };

    match mouse.kind {
        MouseKind::ScrollUp => ui.list.state.previous(),
        MouseKind::ScrollDown => ui.list.state.next(),
        MouseKind::MiddleDown => {
            return ui.list.state.selected();
        },
        MouseKind::LeftDown => {
            return ui.list.select(coordinate);
        },
        MouseKind::Other => {},
    }
    None
}

/// Dispatch one key event.
///
/// Without a modifier: the arrow keys navigate (down and up cyclically,
/// left deselects), `Enter` confirms the selection (row 0 when nothing is
/// selected), `Esc` cancels, a printable character either edits the query
/// (while searching) or confirms the first option carrying it as shortcut
/// (while selecting), and `Backspace` shrinks the query while searching.
/// With control: the configured keys scroll or toggle search mode, the
/// scroll keys checked first and in the order down-key, up-key. Anything
/// else is ignored.
pub fn handle_key(key: KeyInput, ui: &mut Ui, options: &[MenuOption], config: &Config) -> (r:
    Option<Choice>)
    requires
        old(ui).inv(),
    ensures
        final(ui).inv(),
        same_shape(*old(ui), *final(ui)),
        match key.modifiers {
            Modifiers::Plain => match key.code {
                KeyCode::Down => {
                    &&& r is None
                    &&& final(ui).list.state.inner == next_sel(
                        old(ui).list.state.inner,
                        old(ui).list.state.length,
                    )
                    &&& final(ui).query.string@ == old(ui).query.string@
                    &&& final(ui).input_mode == old(ui).input_mode
                },
                KeyCode::Up => {
                    &&& r is None
                    &&& final(ui).list.state.inner == previous_sel(
                        old(ui).list.state.inner,
                        old(ui).list.state.length,
                    )
                    &&& final(ui).query.string@ == old(ui).query.string@
                    &&& final(ui).input_mode == old(ui).input_mode
                },
                KeyCode::Left => {
                    &&& r is None
                    &&& final(ui).list.state.inner is None
                    &&& final(ui).query.string@ == old(ui).query.string@
                    &&& final(ui).input_mode == old(ui).input_mode
                },
                KeyCode::Char(c) => match old(ui).input_mode {
                    InputMode::Searching => {
                        &&& r is None
                        &&& final(ui).query.string@ == old(ui).query.string@.push(c)
                        &&& final(ui).input_mode == old(ui).input_mode
                        &&& match final(ui).list.state.inner {
                            Some(i) => is_best_match(
                                old(ui).list.data@,
                                final(ui).query.string@,
                                i as int,
                            ),
                            None => no_match(old(ui).list.data@, final(ui).query.string@),
                        }
                    },
                    InputMode::Selecting => {
                        &&& *final(ui) == *old(ui)
                        &&& match r {
                            Some(Choice::Chosen(i)) => {
                                &&& i < options@.len()
                                &&& options@[i as int].key == c
                                &&& forall|j: int| 0 <= j < i ==> options@[j].key != c
                            },
                            Some(Choice::Cancelled) => false,
                            None => forall|j: int|
                                0 <= j < options@.len() ==> options@[j].key != c,
                        }
                    },
                },
                KeyCode::Backspace => match old(ui).input_mode {
                    InputMode::Searching => {
                        &&& r is None
                        &&& final(ui).query.string@ == (if old(ui).query.string@.len() == 0 {
                            old(ui).query.string@
                        } else {
                            old(ui).query.string@.drop_last()
                        })
                        &&& final(ui).input_mode == old(ui).input_mode
                        &&& match final(ui).list.state.inner {
                            Some(i) => is_best_match(
                                old(ui).list.data@,
                                final(ui).query.string@,
                                i as int,
                            ),
                            None => no_match(old(ui).list.data@, final(ui).query.string@),
                        }
                    },
                    InputMode::Selecting => r is None && *final(ui) == *old(ui),
                },
                KeyCode::Enter => {
                    &&& *final(ui) == *old(ui)
                    &&& r == Some(Choice::Chosen(
                        match old(ui).list.state.inner {
                            Some(i) => i,
                            None => 0usize,
                        },
                    ))
                },
                KeyCode::Esc => r == Some(Choice::Cancelled) && *final(ui) == *old(ui),
                KeyCode::Other => r is None && *final(ui) == *old(ui),
            },
            Modifiers::Control => match key.code {
                KeyCode::Char(c) => {
                    &&& r is None
                    &&& final(ui).query.string@ == old(ui).query.string@
                    &&& if c == config.down_key {
                        &&& final(ui).list.state.inner == previous_sel(
                            old(ui).list.state.inner,
                            old(ui).list.state.length,
                        )
                        &&& final(ui).input_mode == old(ui).input_mode
                    } else if c == config.up_key {
                        &&& final(ui).list.state.inner == next_sel(
                            old(ui).list.state.inner,
                            old(ui).list.state.length,
                        )
                        &&& final(ui).input_mode == old(ui).input_mode
                    } else if c == config.search_key {
                        &&& final(ui).list.state.inner == old(ui).list.state.inner
                        &&& final(ui).input_mode == (match old(ui).input_mode {
                            InputMode::Searching => InputMode::Selecting,
                            InputMode::Selecting => InputMode::Searching,
                        })
                    } else {
                        *final(ui) == *old(ui)
                    }
                },
                _ => r is None && *final(ui) == *old(ui),
            },
            Modifiers::Other => r is None && *final(ui) == *old(ui),
        },
{
    match key.modifiers {
        Modifiers::Plain => match key.code {
            KeyCode::Down => ui.list.state.next(),
            KeyCode::Up => ui.list.state.previous(),
            KeyCode::Left => ui.list.state.unselect(),
            KeyCode::Char(character) => match ui.input_mode {
                InputMode::Searching => ui.append_query(character),
                InputMode::Selecting => {
                    return match map_char(character, options) {
                        Some(index) => Some(Choice::Chosen(index)),
                        None => None,
                    };
                },
            },
            KeyCode::Backspace => {
                if matches!(ui.input_mode, InputMode::Searching) {
                    ui.pop_query();
                }
            },
            KeyCode::Enter => {
                let index = match ui.list.state.selected() {
                    Some(i) => i,
                    None => 0,
                };
                return Some(Choice::Chosen(index));
            },
            KeyCode::Esc => {
                return Some(Choice::Cancelled);
            },
            KeyCode::Other => {},
        },
        Modifiers::Control => match key.code {
            KeyCode::Char(c) => {
                if c == config.down_key {
                    ui.list.state.previous();
                } else if c == config.up_key {
                    ui.list.state.next();
                } else if c == config.search_key {
                    ui.input_mode.switch();
                }
            },
            _ => {},
        },
        Modifiers::Other => {},
    }
    None
}

} // verus!
