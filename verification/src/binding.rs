//! Binding-set layouts: the ordered contract between a pipeline and the
//! resources a shader reads.
//!
//! A binding layout is an ordered list of (slot, resource kind, visibility)
//! entries. The layout declared when building a pipeline must match, slot by
//! slot in index order, the layout the shader expects; the match is checked
//! at build time, never at draw time.

use vstd::prelude::*;

verus! {

/// The kind of GPU resource a binding slot carries.
#[derive(Clone, Copy, Debug, PartialEq, Eq, Structural)]
pub enum ResourceKind {
    /// A uniform buffer (the camera block).
    UniformBlock,
    /// A sampled 2D texture.
    Texture,
    /// A texture sampler.
    Sampler,
}

/// The shading stage a binding is visible to.
#[derive(Clone, Copy, Debug, PartialEq, Eq, Structural)]
pub enum StageVisibility {
    /// Visible to the vertex stage only.
    VertexStage,
    /// Visible to the fragment stage only.
    FragmentStage,
}

/// One slot of a binding-set layout.
#[derive(Clone, Copy, Debug, PartialEq, Eq, Structural)]
pub struct BindingEntry {
    pub slot: u32,
    pub kind: ResourceKind,
    pub visibility: StageVisibility,
}

/// Entry `i` of the layout declares slot `i`: slots are contiguous and in
/// index order.
pub open spec fn slots_in_order(s: Seq<BindingEntry>) -> bool {
    forall|i: int| 0 <= i < s.len() ==> (#[trigger] s[i]).slot == i
}

/// The camera's binding layout: one uniform block at slot 0, visible to the
/// vertex stage only.
pub open spec fn camera_layout_seq() -> Seq<BindingEntry> {
    seq![
        (BindingEntry {
            slot: 0,
            kind: ResourceKind::UniformBlock,
            visibility: StageVisibility::VertexStage,
        }),
    ]
}

/// The layout of a sampled-texture binding set: the texture at slot 0 and
/// its sampler at slot 1, both visible to the fragment stage only.
pub open spec fn texture_layout_seq() -> Seq<BindingEntry> {
    seq![
        (BindingEntry {
            slot: 0,
            kind: ResourceKind::Texture,
            visibility: StageVisibility::FragmentStage,
        }),
        (BindingEntry {
            slot: 1,
            kind: ResourceKind::Sampler,
            visibility: StageVisibility::FragmentStage,
        }),
    ]
}

/// Build the camera's binding layout.
pub fn camera_binding_layout() -> (l: Vec<BindingEntry>)
    ensures
        l@ == camera_layout_seq(),
        slots_in_order(l@),
{
    let mut l: Vec<BindingEntry> = Vec::new();
    l.push(
        BindingEntry {
            slot: 0,
            kind: ResourceKind::UniformBlock,
            visibility: StageVisibility::VertexStage,
        },
    );
    proof {
        assert(l@ =~= camera_layout_seq());
    }
    l
}

/// Build the sampled-texture binding layout.
pub fn texture_binding_layout() -> (l: Vec<BindingEntry>)
    ensures
        l@ == texture_layout_seq(),
        slots_in_order(l@),
{
    let mut l: Vec<BindingEntry> = Vec::new();
    l.push(
        BindingEntry {
            slot: 0,
            kind: ResourceKind::Texture,
            visibility: StageVisibility::FragmentStage,
        },
    );
    l.push(
        BindingEntry {
            slot: 1,
            kind: ResourceKind::Sampler,
            visibility: StageVisibility::FragmentStage,
        },
    );
    proof {
        assert(l@ =~= texture_layout_seq());
    }
    l
}

/// Whether two binding layouts agree 1:1, in index order, on slot, resource
/// kind and visibility.
pub fn layouts_match(a: &Vec<BindingEntry>, b: &Vec<BindingEntry>) -> (r: bool)
    ensures
        r <==> a@ =~= b@,
{
    if a.len() != b.len() {
        return false;
    }
    let mut i: usize = 0;
    while i < a.len()
        invariant
            i <= a@.len(),
            a@.len() == b@.len(),
            forall|j: int| 0 <= j < i ==> a@[j] == b@[j],
        decreases a@.len() - i,
    {
        if a[i] != b[i] {
            return false;
        }
        i = i + 1;
    }
    proof {
        assert(a@ =~= b@);
    }
    true
}

} // verus!
