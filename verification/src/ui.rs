//! The top-level interface state: the list, the query, and the input mode,
//! with the per-frame layout computation that places the list (and, while
//! searching, the search bar) inside the terminal area.

use vstd::prelude::*;

use crate::geometry::{center_rect, Rect, Vector};
use crate::list::List;
use crate::options::{max_display_len, MenuOption};
use crate::query::Query;
use crate::search::{is_best_match, no_match};
use crate::style::Customizations;

verus! {

/// Rows reserved for the search bar under the list while searching.
pub const QUERY_HEIGHT: u16 = 3;

/// Whether keystrokes navigate the list or edit the search query.
#[derive(Clone, Copy, PartialEq, Eq, Structural, Debug)]
pub enum InputMode {
    Selecting,
    Searching,
}

impl InputMode {
    /// Toggle between selecting and searching.
    pub fn switch(&mut self)
        ensures
            *final(self) == (match *old(self) {
                InputMode::Searching => InputMode::Selecting,
                InputMode::Selecting => InputMode::Searching,
            }),
    {
        *self = match *self {
            Self::Searching => Self::Selecting,
            Self::Selecting => Self::Searching,
        };
    }
}

/// Where one frame puts things: the list's rectangle, and the search bar's
/// while searching.
#[derive(Clone, Copy, PartialEq, Eq, Structural, Debug)]
pub struct UiLayout {
    pub list: Rect,
    pub searchbar: Option<Rect>,
}

/// The whole interface state for one session.
pub struct Ui {
    pub list: List,
    pub query: Query,
    pub input_mode: InputMode,
}

/// The rectangle of the search bar drawn directly under the list.
pub open spec fn searchbar_rect(list: Rect) -> Rect {
    Rect {
        x: list.x,
        y: (list.y + list.height) as u16,
        width: list.width,
        height: QUERY_HEIGHT,
    }
}

/// Relies on `String::push`: appends the character at the end.
#[verifier::external_body]
fn push_char(s: &mut String, c: char)
    ensures
        final(s)@ == old(s)@.push(c),
{
    s.push(c);
}

/// Relies on `String::pop`: removes and returns the last character, or
/// returns nothing from an empty string.
#[verifier::external_body]
fn pop_char(s: &mut String) -> (r: Option<char>)
    ensures
        old(s)@.len() == 0 ==> r is None && final(s)@ == old(s)@,
        old(s)@.len() > 0 ==> r == Some(old(s)@.last()) && final(s)@ == old(s)@.drop_last(),
{
    s.pop()
}

impl Ui {
    pub open spec fn inv(self) -> bool {
        self.list.inv()
    }

    /// Start a session over a non-empty option set: nothing selected, an
    /// empty query, and the selecting mode.
    pub fn new(options: Vec<MenuOption>, customizations: Customizations) -> (r: Self)
        requires
            options@.len() >= 1,
            options@.len() + customizations.border_style.reservation() <= u16::MAX,
            max_display_len(options@) + 4 + customizations.border_style.reservation()
                <= u16::MAX,
        ensures
            r.inv(),
            r.list.state.length == options@.len(),
            r.list.state.inner is None,
            r.list.data == options,
            r.list.customizations == customizations,
            r.list.area is None,
            r.query.string@.len() == 0,
            r.input_mode == InputMode::Selecting,
    {
        let list = List::new(options, customizations);
        let query = Query::new();
        let input_mode = InputMode::Selecting;

        Ui { list, query, input_mode }
    }

    /// Compute where this frame draws: the list centered in the terminal
    /// area, or — while searching — centered in the area above a
    /// three-row search bar that sits directly below it. A terminal too
    /// short for the search bar forces the mode back to selecting. The
    /// list's rectangle is recorded for mouse hit-testing.
    pub fn layout(&mut self, area: Vector) -> (r: UiLayout)
        requires
            old(self).inv(),
        ensures
            final(self).inv(),
            final(self).list.state == old(self).list.state,
            final(self).list.dimensions == old(self).list.dimensions,
            final(self).list.data == old(self).list.data,
            final(self).list.customizations == old(self).list.customizations,
            final(self).query.string@ == old(self).query.string@,
            final(self).input_mode == (if area.y <= QUERY_HEIGHT {
                InputMode::Selecting
            } else {
                old(self).input_mode
            }),
            final(self).list.area == Some(r.list),
            match final(self).input_mode {
                InputMode::Selecting => {
                    &&& r.list == center_rect(old(self).list.dimensions, area)
                    &&& r.searchbar is None
                },
                InputMode::Searching => {
                    &&& r.list == center_rect(
                        old(self).list.dimensions,
                        Vector { x: area.x, y: (area.y - QUERY_HEIGHT) as u16 },
                    )
                    &&& r.searchbar == Some(searchbar_rect(r.list))
                },
            },
    {
        if area.y <= QUERY_HEIGHT {
            self.input_mode = InputMode::Selecting;
        }

        match self.input_mode {
            InputMode::Searching => {
                let bounds = Vector { x: area.x, y: area.y - QUERY_HEIGHT };
                let list_area = self.list.dimensions.center_in(bounds);
                let query_area = Rect {
                    x: list_area.x,
                    y: list_area.y + list_area.height,
                    width: list_area.width,
                    height: QUERY_HEIGHT,
                };
                self.list.area = Some(list_area);
                UiLayout { list: list_area, searchbar: Some(query_area) }
            },
            InputMode::Selecting => {
                let list_area = self.list.dimensions.center_in(area);
                self.list.area = Some(list_area);
                UiLayout { list: list_area, searchbar: None }
            },
        }
    }

    /// Append one character to the query and re-rank the options against
    /// the grown query.
    pub fn append_query(&mut self, character: char)
        requires
            old(self).inv(),
        ensures
            final(self).inv(),
            final(self).query.string@ == old(self).query.string@.push(character),
            final(self).input_mode == old(self).input_mode,
            final(self).list.state.length == old(self).list.state.length,
            final(self).list.dimensions == old(self).list.dimensions,
            final(self).list.data == old(self).list.data,
            final(self).list.customizations == old(self).list.customizations,
            final(self).list.area == old(self).list.area,
            match final(self).list.state.inner {
                Some(i) => is_best_match(
                    old(self).list.data@,
                    final(self).query.string@,
                    i as int,
                ),
                None => no_match(old(self).list.data@, final(self).query.string@),
            },
    {
        push_char(&mut self.query.string, character);
        self.update_query();
    }

    /// Drop the last character of the query (a no-op on an empty query) and
    /// re-rank the options against the shrunk query.
    pub fn pop_query(&mut self)
        requires
            old(self).inv(),
        ensures
            final(self).inv(),
            final(self).query.string@ == (if old(self).query.string@.len() == 0 {
                old(self).query.string@
            } else {
                old(self).query.string@.drop_last()
            }),
            final(self).input_mode == old(self).input_mode,
            final(self).list.state.length == old(self).list.state.length,
            final(self).list.dimensions == old(self).list.dimensions,
            final(self).list.data == old(self).list.data,
            final(self).list.customizations == old(self).list.customizations,
            final(self).list.area == old(self).list.area,
            match final(self).list.state.inner {
                Some(i) => is_best_match(
                    old(self).list.data@,
                    final(self).query.string@,
                    i as int,
                ),
                None => no_match(old(self).list.data@, final(self).query.string@),
            },
            final(self).query.string@.len() == 0 ==> final(self).list.state.inner == Some(
                0usize,
            ),
    {
        pop_char(&mut self.query.string);
        self.update_query();
    }

    /// Re-apply the current query to the list.
    fn update_query(&mut self)
        requires
            old(self).inv(),
        ensures
            final(self).inv(),
            final(self).query.string@ == old(self).query.string@,
            final(self).input_mode == old(self).input_mode,
            final(self).list.state.length == old(self).list.state.length,
            final(self).list.dimensions == old(self).list.dimensions,
            final(self).list.data == old(self).list.data,
            final(self).list.customizations == old(self).list.customizations,
            final(self).list.area == old(self).list.area,
            match final(self).list.state.inner {
                Some(i) => is_best_match(
                    old(self).list.data@,
                    old(self).query.string@,
                    i as int,
                ),
                None => no_match(old(self).list.data@, old(self).query.string@),
            },
            old(self).query.string@.len() == 0 ==> final(self).list.state.inner == Some(0usize),
    {
        self.list.query(self.query.string.as_str());
    }
}

} // verus!
