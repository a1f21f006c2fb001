//! The fragment asset and its components: the forerunner of the scene asset,
//! kept for hosts that still address drawings as fragments.  A fragment
//! behaves exactly like a scene: an opaque, immutable document shared by
//! handle.

use vstd::prelude::*;

use crate::mat4::Mat4;

verus! {

/// An immutable vector-drawing fragment, shared by handle.  As with
/// [`crate::vello_scene::VelloScene`], the encoded content is opaque here.
pub struct VelloFragment {
    pub fragment: Vec<u64>,
}

/// Everything a host attaches to one entity to make it render a fragment.
pub struct VelloFragmentBundle {
    /// Handle of the fragment asset to draw.
    pub fragment: u64,
    /// Local transform of the entity.
    pub transform: Mat4,
    /// Global transform of the entity.
    pub global_transform: Mat4,
    /// The visibility the host author set on the entity.
    pub visibility: bool,
    /// The visibility inherited from the entity's ancestors.
    pub inherited_visibility: bool,
    /// The computed visibility of the entity for this frame.
    pub view_visibility: bool,
}

/// The render-world copy of one fragment-bearing entity, valid for one frame.
pub struct ExtractedVelloFragmentInstance {
    pub fragment_handle: u64,
    pub global_transform: Mat4,
}

} // verus!
