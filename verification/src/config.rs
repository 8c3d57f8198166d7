//! The persisted configuration.

use crate::bookmarks::Browser;
use vstd::prelude::*;

verus! {

/// The configuration: which browser the bookmarks are imported from.
#[derive(Clone, Copy, Debug, PartialEq, Eq, Structural)]
pub struct Config {
    pub browser: Browser,
}

impl Default for Config {
    /// Bookmarks come from Firefox unless configured otherwise.
    fn default() -> (r: Self)
        ensures
            r.browser == Browser::Firefox,
    {
        Config { browser: Browser::Firefox }
    }
}

} // verus!
