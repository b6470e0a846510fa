use vstd::prelude::*;

verus! {

/// Terminal dimensions in character cells, captured once at startup.
#[derive(Clone, Copy, PartialEq, Eq, Structural)]
pub struct Screen {
    pub width: u16,
    pub height: u16,
}

} // verus!
