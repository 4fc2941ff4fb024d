//! The window of annotation tools drawn over the shared screen.

use vstd::prelude::*;

verus! {

#[derive(Clone, Copy, Debug, PartialEq, Eq, Structural)]
pub enum MessageAnnotation {
    CloseRequested,
}

} // verus!
