//! Orthographic camera parameters.
//!
//! The camera looks from `eye` towards `target` with `up` as its vertical,
//! and projects orthographically over the configured half-extents and
//! near/far planes. All scalars are 32-bit IEEE-754 bit patterns; the
//! view-projection matrix itself is floating-point work computed outside
//! this library and handed back as matrix words for publishing.

use vstd::prelude::*;
use crate::vertex::{NEG_ONE_BITS, ONE_BITS, ZERO_BITS};

verus! {

/// The parameters the view-projection matrix is a pure function of.
#[derive(Clone, Copy, Debug, PartialEq)]
pub struct CameraParams {
    /// The eye position, `(x, y, z)` scalar bit patterns.
    pub eye: [u32; 3],
    /// The point looked at.
    pub target: [u32; 3],
    /// The up direction.
    pub up: [u32; 3],
    /// Width of the projected extent.
    pub width: u32,
    /// Height of the projected extent.
    pub height: u32,
    /// Near clipping plane.
    pub znear: u32,
    /// Far clipping plane.
    pub zfar: u32,
}

impl CameraParams {
    /// A camera one unit in front of the origin, looking at it along the
    /// z axis with y up, projecting over the given extent and planes.
    pub fn new(width: u32, height: u32, znear: u32, zfar: u32) -> (c: CameraParams)
        ensures
            c.eye@ == seq![ZERO_BITS, ZERO_BITS, NEG_ONE_BITS],
            c.target@ == seq![ZERO_BITS, ZERO_BITS, ZERO_BITS],
            c.up@ == seq![ZERO_BITS, ONE_BITS, ZERO_BITS],
            c.width == width,
            c.height == height,
            c.znear == znear,
            c.zfar == zfar,
    {
        let c = CameraParams {
            eye: [ZERO_BITS, ZERO_BITS, NEG_ONE_BITS],
            target: [ZERO_BITS, ZERO_BITS, ZERO_BITS],
            up: [ZERO_BITS, ONE_BITS, ZERO_BITS],
            width,
            height,
            znear,
            zfar,
        };
        proof {
            assert(c.eye@ =~= seq![ZERO_BITS, ZERO_BITS, NEG_ONE_BITS]);
            assert(c.target@ =~= seq![ZERO_BITS, ZERO_BITS, ZERO_BITS]);
            assert(c.up@ =~= seq![ZERO_BITS, ONE_BITS, ZERO_BITS]);
        }
        c
    }
}

} // verus!
