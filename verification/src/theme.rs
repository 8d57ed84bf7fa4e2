//! The colour themes of the dashboard.

use vstd::prelude::*;

verus! {

/// A colour theme. The colours themselves belong to the toolkit that draws.
#[derive(Debug, Clone, Copy, PartialEq, Eq, Structural)]
pub enum Theme {
    /// Light marks on a dark dial.
    Dark,
}

impl Default for Theme {
    fn default() -> (theme: Theme)
        ensures
            theme == Theme::Dark,
    {
        Theme::Dark
    }
}

} // verus!
