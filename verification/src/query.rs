//! The search query: a string grown and shrunk one character at a time
//! while the search bar is open.

use vstd::prelude::*;

verus! {

/// The text typed into the search bar so far.
pub struct Query {
    pub string: String,
}

impl Query {
    pub fn new() -> (r: Self)
        ensures
            r.string@.len() == 0,
    {
        let string = String::new();
        Query { string }
    }
}

} // verus!
