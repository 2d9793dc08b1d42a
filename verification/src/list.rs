//! The options list: the option records, their navigation state, the list's
//! intrinsic footprint, and the rectangle it was last rendered into. Mouse
//! hit-testing and fuzzy re-ranking act on this type.

use vstd::prelude::*;

use crate::geometry::{Rect, Vector};
use crate::options::{max_display_len, options_width, MenuOption};
use crate::search::{best_match, is_best_match, no_match};
use crate::state::State;
use crate::style::Customizations;

verus! {

/// The list widget's state between renders.
pub struct List {
    pub state: State,
    pub dimensions: Vector,
    pub data: Vec<MenuOption>,
    pub customizations: Customizations,
    pub area: Option<Rect>,
}

/// The row a screen coordinate falls on, against the rectangle the list was
/// rendered into: `None` when the column is outside the rectangle or the
/// row is on or above the top line (the first content row sits one cell
/// below the rectangle's top edge).
pub open spec fn row_at(area: Rect, coordinate: Vector) -> Option<int> {
    if coordinate.x < area.x || coordinate.x > area.x + area.width {
        None
    } else if coordinate.y <= area.y {
        None
    } else {
        Some(coordinate.y - area.y - 1)
    }
}

/// The row a click at `coordinate` resolves to: nothing when the list has
/// not been rendered yet, when the coordinate misses the rectangle, or when
/// the row index runs past the options.
pub open spec fn hit(list: List, coordinate: Vector) -> Option<int> {
    match list.area {
        None => None,
        Some(area) => match row_at(area, coordinate) {
            None => None,
            Some(row) => if row < list.state.length {
                Some(row)
            } else {
                None
            },
        },
    }
}

/// What a click at `coordinate` returns: the row's index when it confirms
/// (the row was already selected), nothing otherwise.
pub open spec fn select_outcome(list: List, coordinate: Vector) -> Option<usize> {
    match hit(list, coordinate) {
        None => None,
        Some(row) => if list.state.inner == Some(row as usize) {
            Some(row as usize)
        } else {
            None
        },
    }
}

/// The list after a click at `coordinate`: the hit row becomes the
/// selection unless the click missed or confirmed; nothing else changes.
pub open spec fn select_next(list: List, coordinate: Vector) -> List {
    match hit(list, coordinate) {
        None => list,
        Some(row) => if list.state.inner == Some(row as usize) {
            list
        } else {
            List {
                state: State { length: list.state.length, inner: Some(row as usize) },
                dimensions: list.dimensions,
                data: list.data,
                customizations: list.customizations,
                area: list.area,
            }
        },
    }
}

impl List {
    /// The navigation state tracks exactly the held options.
    pub open spec fn inv(self) -> bool {
        &&& self.state.inv()
        &&& self.state.length == self.data@.len()
    }

    /// Build the list from a non-empty option set: nothing selected, the
    /// intrinsic footprint computed from the longest display text and the
    /// border reservation, and no rendered rectangle yet.
    pub fn new(data: Vec<MenuOption>, customizations: Customizations) -> (r: Self)
        requires
            data@.len() >= 1,
            data@.len() + customizations.border_style.reservation() <= u16::MAX,
            max_display_len(data@) + 4 + customizations.border_style.reservation() <= u16::MAX,
        ensures
            r.inv(),
            r.state.length == data@.len(),
            r.state.inner is None,
            r.dimensions.x == max_display_len(data@) + 4
                + customizations.border_style.reservation(),
            r.dimensions.y == data@.len() + customizations.border_style.reservation(),
            r.data == data,
            r.customizations == customizations,
            r.area is None,
    {
        let length = data.len();
        let state = State::with_length(length);

        let border_size = customizations.border_style.size();
        let width = options_width(data.as_slice());
        let height = length as u16;
        let dimensions = Vector { x: width + border_size, y: height + border_size };

        List { state, dimensions, data, customizations, area: None }
    }

    /// Hit-test a coordinate against a rendered rectangle.
    fn row_in_area(area: Rect, coordinate: Vector) -> (r: Option<usize>)
        ensures
            match r {
                Some(row) => row_at(area, coordinate) == Some(row as int),
                None => row_at(area, coordinate) is None,
            },
    {
        if coordinate.x < area.x || coordinate.x - area.x > area.width {
            None
        } else if coordinate.y <= area.y {
            None
        } else {
            Some((coordinate.y - area.y - 1) as usize)
        }
    }

    /// A click on a row: clicking the already selected row confirms it and
    /// returns its index; clicking another row only moves the selection
    /// there. A click that resolves to no row (nothing rendered yet, or the
    /// coordinate outside the list) changes nothing.
    pub fn select(&mut self, coordinate: Vector) -> (r: Option<usize>)
        requires
            old(self).inv(),
        ensures
            final(self).inv(),
            r == select_outcome(*old(self), coordinate),
            *final(self) == select_next(*old(self), coordinate),
    {
        let position: Option<usize> = match self.area {
            None => None,
            Some(area) => {
                match Self::row_in_area(area, coordinate) {
                    None => None,
                    Some(row) => {
                        if row < self.state.length {
                            Some(row)
                        } else {
                            None
                        }
                    },
                }
            },
        };
        match position {
            None => None,
            Some(row) => {
                let confirmed = match self.state.inner {
                    Some(current) => current == row,
                    None => false,
                };
                if confirmed {
                    Some(row)
                } else {
                    self.state.inner = Some(row);
                    None
                }
            },
        }
    }

    /// Re-rank the options against the query and select the best match, or
    /// clear the selection when nothing matches. An empty query selects the
    /// first option.
    pub fn query(&mut self, term: &str)
        requires
            old(self).inv(),
        ensures
            final(self).inv(),
            final(self).state.length == old(self).state.length,
            final(self).dimensions == old(self).dimensions,
            final(self).data == old(self).data,
            final(self).customizations == old(self).customizations,
            final(self).area == old(self).area,
            match final(self).state.inner {
                Some(i) => is_best_match(old(self).data@, term@, i as int),
                None => no_match(old(self).data@, term@),
            },
            term@.len() == 0 ==> final(self).state.inner == Some(0usize),
    {
        let index = best_match(&self.data, term);
        self.state.inner = index;
    }
}

/// Law (two-phase confirm): when two clicks resolve to the same row and
/// that row was not selected beforehand, the first click returns nothing
/// and only highlights the row, and the second click confirms it.
pub proof fn lemma_select_twice(list: List, first: Vector, second: Vector, row: int)
    requires
        list.inv(),
        hit(list, first) == Some(row),
        hit(list, second) == Some(row),
        list.state.inner != Some(row as usize),
    ensures
        select_outcome(list, first) is None,
        select_next(list, first).state.inner == Some(row as usize),
        select_outcome(select_next(list, first), second) == Some(row as usize),
{
    let highlighted = select_next(list, first);
    assert(highlighted.area == list.area);
    assert(highlighted.state.length == list.state.length);
    assert(hit(highlighted, second) == Some(row));
}

/// Law: a click whose column falls outside the rendered rectangle (or that
/// lands before any render) neither confirms nor moves the selection.
pub proof fn lemma_select_outside(list: List, coordinate: Vector)
    requires
        list.inv(),
        match list.area {
            None => true,
            Some(area) => coordinate.x < area.x || coordinate.x > area.x + area.width,
        },
    ensures
        select_outcome(list, coordinate) is None,
        select_next(list, coordinate) == list,
{
}

} // verus!
