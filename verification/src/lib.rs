pub mod controller;
pub mod dot;
pub mod icon;
pub mod pixel;

use vstd::prelude::*;

verus! {

/// A presentation surface can only be allocated for a window whose inner
/// size is positive in both dimensions; a zero width or height is rejected.
pub fn dimensions_valid(width: u32, height: u32) -> (r: bool)
    ensures
        r == (width > 0 && height > 0),
{
    width > 0 && height > 0
}

} // verus!
