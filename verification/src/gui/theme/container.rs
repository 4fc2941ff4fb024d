//! Container styles.

use vstd::prelude::*;
use crate::gui::theme::PaletteColor;

verus! {

/// How a container is drawn: plain, as an outlined card, as an ellipse
/// filled with a palette color, as a framed window, or as a dark panel.
#[derive(Clone, Copy, Debug, PartialEq, Eq, Structural)]
pub enum Style {
    Default,
    OutlinedCard,
    FilledEllipse(PaletteColor),
    Window,
    Container,
}

impl Default for Style {
    fn default() -> (s: Self)
        ensures
            s == Style::Default,
    {
        Style::Default
    }
}

} // verus!
