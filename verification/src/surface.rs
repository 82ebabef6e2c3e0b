//! The presentable surface's extent and the resize rule.

use vstd::prelude::*;

verus! {

/// The pixel extent of the presentable surface.
#[derive(Clone, Copy, Debug, PartialEq, Eq, Structural)]
pub struct SurfaceExtent {
    pub width: u32,
    pub height: u32,
}

/// Apply a resize request: only a non-degenerate size (both dimensions
/// positive) changes the extent and asks for a surface reconfiguration;
/// a degenerate one leaves everything as it was.
pub fn apply_resize(current: &mut SurfaceExtent, new_width: u32, new_height: u32) -> (changed:
    bool)
    ensures
        changed <==> (new_width > 0 && new_height > 0),
        changed ==> (*final(current) == (SurfaceExtent { width: new_width, height: new_height })),
        !changed ==> *final(current) == *old(current),
{
    if new_width > 0 && new_height > 0 {
        current.width = new_width;
        current.height = new_height;
        true
    } else {
        false
    }
}

} // verus!
