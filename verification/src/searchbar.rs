//! The search bar widget's arithmetic: where the cursor sits and how far
//! the text scrolls when the query outgrows the bar's width. The drawing
//! itself is the host's.

use vstd::prelude::*;

use crate::style::Customizations;

verus! {

/// The search bar: the query text it shows and the styling it is drawn
/// with.
pub struct Searchbar {
    pub query: String,
    pub customizations: Customizations,
}

impl Searchbar {
    pub fn new(customizations: Customizations) -> (r: Self)
        ensures
            r.query@.len() == 0,
            r.customizations == customizations,
    {
        let string = String::new();
        Searchbar { query: string, customizations }
    }

    /// The cursor's column offset inside a bar `width` cells wide: one past
    /// the query text, but never past the bar's right border.
    pub fn cursor(&self, width: u16) -> (r: u16)
        requires
            3 <= width,
            self.query@.len() + 1 <= u16::MAX,
        ensures
            r == if self.query@.len() + 1 <= width - 3 {
                self.query@.len() + 1 as int
            } else {
                (width - 3) as int
            },
    {
        let length = self.query.as_str().unicode_len() as u16;
        if length + 1 <= width - 3 {
            length + 1
        } else {
            width - 3
        }
    }

    /// How many columns the query text is scrolled left so its tail stays
    /// visible in a bar `width` cells wide.
    pub fn scroll(&self, width: u16) -> (r: u16)
        requires
            self.query@.len() + 4 <= u16::MAX,
        ensures
            r == if self.query@.len() + 4 >= width {
                self.query@.len() + 4 - width as int
            } else {
                0
            },
    {
        let length = self.query.as_str().unicode_len() as u16;
        if length + 4 >= width {
            length + 4 - width
        } else {
            0
        }
    }
}

} // verus!
