//! The scene asset and the components that make an entity scene-bearing.

use vstd::prelude::*;

use crate::mat4::Mat4;

verus! {

/// An immutable vector-drawing document, shared by handle through an asset
/// store.  The drawing itself is opaque to the pipeline: the host builds the
/// encoded content once and the pipeline only ever appends whole documents
/// into the frame's aggregate, so the content is carried as plain words and
/// never interpreted here.
pub struct VelloScene {
    pub scene: Vec<u64>,
}

/// Everything a host attaches to one entity to make it renderable: the scene
/// handle, its transforms, and the visibility flags the host's visibility
/// systems maintain.  Only the computed per-frame view visibility decides
/// extraction.
pub struct VelloSceneBundle {
    /// Handle of the scene asset to draw.
    pub scene: u64,
    /// Local transform of the entity.
    pub transform: Mat4,
    /// Global transform of the entity.
    pub global_transform: Mat4,
    /// The visibility the host author set on the entity.
    pub visibility: bool,
    /// The visibility inherited from the entity's ancestors.
    pub inherited_visibility: bool,
    /// The computed visibility of the entity for this frame.
    pub view_visibility: bool,
}

/// The render-world copy of one scene-bearing entity, valid for one frame: the
/// scene handle and the world transform, nothing else.
pub struct ExtractedVelloSceneInstance {
    pub scene_handle: u64,
    pub global_transform: Mat4,
}

} // verus!
