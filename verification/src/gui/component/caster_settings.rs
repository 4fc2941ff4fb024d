//! The page where the caster chooses what to share.

use vstd::prelude::*;

verus! {

/// Share the whole screen, or an area of it chosen next.
#[derive(Clone, Copy, Debug, PartialEq, Eq, Structural)]
pub enum Window {
    FullScreen,
    Area,
}

} // verus!
