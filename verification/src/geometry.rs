//! Screen geometry in terminal cell units: sizes, rectangles, and centering
//! of the list's intrinsic footprint inside the available area.

use vstd::prelude::*;

verus! {

/// A width/height pair (or a column/row coordinate) in terminal cells.
#[derive(Clone, Copy, PartialEq, Eq, Structural, Debug)]
pub struct Vector {
    pub x: u16,
    pub y: u16,
}

/// A rectangle of terminal cells: the area the list was rendered into.
#[derive(Clone, Copy, PartialEq, Eq, Structural, Debug)]
pub struct Rect {
    pub x: u16,
    pub y: u16,
    pub width: u16,
    pub height: u16,
}

/// The rectangle that centers a footprint of size `dims` inside an area of
/// size `outer`: each dimension is clamped to the outer area, and what is
/// left over is split evenly (rounding the offset down).
pub open spec fn center_rect(dims: Vector, outer: Vector) -> Rect {
    let width = if dims.x <= outer.x { dims.x } else { outer.x };
    let height = if dims.y <= outer.y { dims.y } else { outer.y };
    Rect {
        x: ((outer.x - width) as int / 2) as u16,
        y: ((outer.y - height) as int / 2) as u16,
        width,
        height,
    }
}

impl Vector {
    /// Center a footprint of size `self` inside an area of size `outer`,
    /// clamping each dimension so the result never exceeds the outer area
    /// and the offsets never go negative.
    pub fn center_in(self, outer: Self) -> (r: Rect)
        ensures
            r == center_rect(self, outer),
            r.width == if self.x <= outer.x { self.x } else { outer.x },
            r.height == if self.y <= outer.y { self.y } else { outer.y },
            r.x == (outer.x - r.width) as int / 2,
            r.y == (outer.y - r.height) as int / 2,
    {
        let width = if self.x <= outer.x { self.x } else { outer.x };
        let height = if self.y <= outer.y { self.y } else { outer.y };

        let x = (outer.x - width) / 2;
        let y = (outer.y - height) / 2;

        Rect { x, y, width, height }
    }
}

} // verus!
