//!
//! Hover: a widget rendered last, on top of everything else.
//!
use vstd::prelude::*;

verus! {

/// Render a hover.
///
/// The state contains a buffer which can be used to render the hover
/// wherever needed. At the very end of rendering the Hover widget itself
/// is rendered and uses the stored buffer.
#[derive(Debug, Default, Clone, Copy)]
pub struct Hover {}

impl Hover {
    /// New hover widget.
    pub fn new() -> (r: Self)
        ensures
            r == (Hover {}),
    {
        Hover {}
    }
}

} // verus!
