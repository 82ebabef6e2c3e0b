//! Fixed demo meshes: a unit quad and a triangle.

use vstd::prelude::*;
use crate::vertex::{Vertex, HALF_BITS, NEG_HALF_BITS, NEG_ONE_BITS, ONE_BITS, ZERO_BITS};

verus! {

/// Bit pattern of floating-point `0.4`, the red channel of the demo color.
pub const DEMO_COLOR_R_BITS: u32 = 0x3ECC_CCCD;

/// Bit pattern of floating-point `0.2`, the green channel of the demo color.
pub const DEMO_COLOR_G_BITS: u32 = 0x3E4C_CCCD;

/// Bit pattern of floating-point `0.5`, the blue channel of the demo color.
pub const DEMO_COLOR_B_BITS: u32 = HALF_BITS;

/// The fixed color all demo vertices carry.
pub open spec fn demo_color() -> Seq<u32> {
    seq![DEMO_COLOR_R_BITS, DEMO_COLOR_G_BITS, DEMO_COLOR_B_BITS]
}

/// A triangle around the origin, in counter-clockwise order.
pub fn _triangle() -> (vs: [Vertex; 3])
    ensures
        vs@[0].position@ == seq![ZERO_BITS, HALF_BITS, ZERO_BITS],
        vs@[1].position@ == seq![NEG_HALF_BITS, NEG_HALF_BITS, ZERO_BITS],
        vs@[2].position@ == seq![HALF_BITS, NEG_HALF_BITS, ZERO_BITS],
        forall|i: int| 0 <= i < 3 ==> vs@[i].color@ == demo_color(),
{
    let vs = [
        Vertex { position: [ZERO_BITS, HALF_BITS, ZERO_BITS], color: [DEMO_COLOR_R_BITS, DEMO_COLOR_G_BITS, DEMO_COLOR_B_BITS] },
        Vertex { position: [NEG_HALF_BITS, NEG_HALF_BITS, ZERO_BITS], color: [DEMO_COLOR_R_BITS, DEMO_COLOR_G_BITS, DEMO_COLOR_B_BITS] },
        Vertex { position: [HALF_BITS, NEG_HALF_BITS, ZERO_BITS], color: [DEMO_COLOR_R_BITS, DEMO_COLOR_G_BITS, DEMO_COLOR_B_BITS] },
    ];
    proof {
        assert(vs@[0].color@ == demo_color());
        assert(vs@[1].color@ == demo_color());
        assert(vs@[2].color@ == demo_color());
    }
    vs
}

/// The unit quad: four corners at `(+-1, +-1, 0)`, in counter-clockwise
/// winding order starting from the upper-right corner.
pub fn plane() -> (vs: [Vertex; 4])
    ensures
        vs@[0].position@ == seq![ONE_BITS, ONE_BITS, ZERO_BITS],
        vs@[1].position@ == seq![NEG_ONE_BITS, ONE_BITS, ZERO_BITS],
        vs@[2].position@ == seq![NEG_ONE_BITS, NEG_ONE_BITS, ZERO_BITS],
        vs@[3].position@ == seq![ONE_BITS, NEG_ONE_BITS, ZERO_BITS],
        forall|i: int| 0 <= i < 4 ==> vs@[i].color@ == demo_color(),
{
    let vs = [
        Vertex { position: [ONE_BITS, ONE_BITS, ZERO_BITS], color: [DEMO_COLOR_R_BITS, DEMO_COLOR_G_BITS, DEMO_COLOR_B_BITS] },
        Vertex { position: [NEG_ONE_BITS, ONE_BITS, ZERO_BITS], color: [DEMO_COLOR_R_BITS, DEMO_COLOR_G_BITS, DEMO_COLOR_B_BITS] },
        Vertex { position: [NEG_ONE_BITS, NEG_ONE_BITS, ZERO_BITS], color: [DEMO_COLOR_R_BITS, DEMO_COLOR_G_BITS, DEMO_COLOR_B_BITS] },
        Vertex { position: [ONE_BITS, NEG_ONE_BITS, ZERO_BITS], color: [DEMO_COLOR_R_BITS, DEMO_COLOR_G_BITS, DEMO_COLOR_B_BITS] },
    ];
    proof {
        assert(vs@[0].color@ == demo_color());
        assert(vs@[1].color@ == demo_color());
        assert(vs@[2].color@ == demo_color());
        assert(vs@[3].color@ == demo_color());
    }
    vs
}

/// The index list of the unit quad: two triangles covering it. Every index
/// refers to one of the quad's four vertices.
pub fn plane_indices() -> (ix: [u16; 6])
    ensures
        ix@ == seq![0u16, 1u16, 2u16, 0u16, 2u16, 3u16],
        forall|i: int| 0 <= i < 6 ==> ix@[i] < 4,
{
    let ix = [0u16, 1u16, 2u16, 0u16, 2u16, 3u16];
    proof {
        assert(ix@ =~= seq![0u16, 1u16, 2u16, 0u16, 2u16, 3u16]);
    }
    ix
}

} // verus!
