//! Style of the color picker.

use vstd::prelude::*;

verus! {

/// The one style that the color picker has.
#[derive(Clone, Copy, Debug, PartialEq, Eq, Structural)]
pub enum Style {
    Basic,
}

impl Default for Style {
    fn default() -> (s: Self)
        ensures
            s == Style::Basic,
    {
        Style::Basic
    }
}

} // verus!
