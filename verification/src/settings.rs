//! The settings the dialogs are seeded from.

use crate::theory_panel::{View, Views};
use vstd::prelude::*;
use vstd::view::View as _;

verus! {

/// Which panels are on screen.
#[derive(Clone, Copy, PartialEq, Eq, Debug, Structural)]
pub struct Settings {
    pub show_fretboard: bool,
    pub theory_circle: bool,
    pub theory_tonnetz: bool,
    pub theory_triangles: bool,
}

impl Default for Settings {
    fn default() -> (r: Settings)
        ensures
            !r.show_fretboard && !r.theory_circle && !r.theory_tonnetz && !r.theory_triangles,
    {
        Settings {
            show_fretboard: false,
            theory_circle: false,
            theory_tonnetz: false,
            theory_triangles: false,
        }
    }
}

/// `view`, when it is on.
pub open spec fn one(on: bool, view: View) -> Seq<View> {
    if on {
        seq![view]
    } else {
        seq![]
    }
}

impl Settings {
    /// The theory diagrams that are showing.
    pub fn theory_views(&self) -> (r: Views)
        ensures
            r.shown@ == one(self.theory_circle, View::Circle) + one(
                self.theory_tonnetz,
                View::Tonnetz,
            ) + one(self.theory_triangles, View::Triangles),
    {
        let mut shown: Vec<View> = Vec::new();
        if self.theory_circle {
            shown.push(View::Circle);
        }
        if self.theory_tonnetz {
            shown.push(View::Tonnetz);
        }
        if self.theory_triangles {
            shown.push(View::Triangles);
        }
        assert(shown@ =~= one(self.theory_circle, View::Circle) + one(
            self.theory_tonnetz,
            View::Tonnetz,
        ) + one(self.theory_triangles, View::Triangles));
        Views::of(shown)
    }
}

} // verus!
