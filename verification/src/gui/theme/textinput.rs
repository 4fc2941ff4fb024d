//! Style of a themed text input.

use vstd::prelude::*;

verus! {

/// The one style that the widget has.
#[derive(Clone, Copy, Debug, PartialEq, Eq, Structural)]
pub enum Style {
    Default,
}

impl Default for Style {
    fn default() -> (s: Self)
        ensures
            s == Style::Default,
    {
        Style::Default
    }
}

} // verus!
