//! Which theory diagrams are on screen.

use vstd::prelude::*;
use vstd::view::View as _;

verus! {

/// One theory diagram.
#[derive(Clone, Copy, PartialEq, Eq, Debug, Structural)]
pub enum View {
    Circle,
    Tonnetz,
    Triangles,
}

/// The diagrams that are showing, in the order they stand.
#[derive(Clone, PartialEq, Eq, Debug)]
pub struct Views {
    pub shown: Vec<View>,
}

impl Views {
    pub fn of(shown: Vec<View>) -> (r: Views)
        ensures
            r.shown@ == shown@,
    {
        Views { shown }
    }

    /// Whether any diagram at all is showing.
    pub fn any(&self) -> (r: bool)
        ensures
            r == (self.shown@.len() > 0),
    {
        self.shown.len() > 0
    }
}

impl Default for Views {
    fn default() -> (r: Views)
        ensures
            r.shown@.len() == 0,
    {
        Views { shown: Vec::new() }
    }
}

} // verus!
