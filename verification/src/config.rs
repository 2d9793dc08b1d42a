//! Control-key bindings, loaded by the host from its configuration file.

use vstd::prelude::*;

verus! {

/// The three configurable control keys: scroll up, scroll down, and the
/// search-mode toggle. Each acts together with the control modifier.
pub struct Config {
    pub up_key: char,
    pub down_key: char,
    pub search_key: char,
}

impl Default for Config {
    fn default() -> (r: Self)
        ensures
            r.up_key == 'j',
            r.down_key == 'k',
            r.search_key == 's',
    {
        Config { up_key: 'j', down_key: 'k', search_key: 's' }
    }
}

} // verus!
