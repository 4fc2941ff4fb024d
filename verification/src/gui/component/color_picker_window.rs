//! The window with the color picker for annotations.

use vstd::prelude::*;

verus! {

#[derive(Clone, Copy, Debug, PartialEq, Eq, Structural)]
pub enum MessageColorPicker {
    CloseRequested,
}

} // verus!
