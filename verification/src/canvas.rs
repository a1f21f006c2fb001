//! The offscreen canvas: the texture the aggregate scene is rasterized into,
//! the material that samples it, and the full-screen quad it is shown on.
//!
//! The canvas texture always matches the last observed non-zero window
//! resolution: a resize request with a zero dimension is ignored and leaves
//! the previous texture intact, and several resize events arriving in one
//! tick collapse to the window's final resolution.

use vstd::prelude::*;

use crate::assets::Assets;
use crate::fixed::FX_NEG_ONE;
use crate::fixed::FX_ONE;

verus! {

/// The texture formats the canvas model distinguishes.  The canvas is
/// always allocated as RGBA with 8-bit unsigned normalized channels.
#[derive(Clone, Copy, PartialEq, Eq, Structural, Debug)]
pub enum TextureFormat {
    Rgba8Unorm,
}

/// The dimensionality of a texture.  The canvas is two-dimensional.
#[derive(Clone, Copy, PartialEq, Eq, Structural, Debug)]
pub enum TextureDimension {
    D1,
    D2,
    D3,
}

/// The usage flags a texture is allocated with.
#[derive(Clone, Copy, PartialEq, Eq, Structural, Debug)]
pub struct TextureUsage {
    /// The texture can be bound for sampling in a shader.
    pub texture_binding: bool,
    /// The texture can be the destination of a copy.
    pub copy_dst: bool,
    /// The texture can be bound as a storage texture — the binding the
    /// rasterizer writes the frame through.
    pub storage_binding: bool,
}

/// The offscreen color texture: its dimensions in physical pixels and the
/// descriptor it is allocated with.  Its backing buffer holds
/// [`image_byte_len`] zero-filled bytes at creation and after every resize.
#[derive(Clone, Copy, PartialEq, Eq, Structural, Debug)]
pub struct CanvasImage {
    pub width: u32,
    pub height: u32,
    pub dimension: TextureDimension,
    pub format: TextureFormat,
    pub usage: TextureUsage,
    pub mip_level_count: u32,
    pub sample_count: u32,
}

/// The one descriptor every canvas texture is allocated with: a
/// two-dimensional RGBA8 texture that can be sampled by a shader, written
/// as a copy destination and written by the rasterizer through a storage
/// binding, with one mip level and one sample per pixel.
pub open spec fn canvas_image_of(width: u32, height: u32) -> CanvasImage {
    CanvasImage {
        width,
        height,
        dimension: TextureDimension::D2,
        format: TextureFormat::Rgba8Unorm,
        usage: TextureUsage { texture_binding: true, copy_dst: true, storage_binding: true },
        mip_level_count: 1,
        sample_count: 1,
    }
}

/// The size in bytes of a canvas texture's backing buffer: four bytes per
/// pixel for the RGBA8 format.  The buffer is zero-filled whenever the
/// texture is allocated or reallocated.
pub open spec fn image_byte_len(img: CanvasImage) -> int {
    img.width * img.height * 4
}

/// The material that samples the canvas texture onto the display quad.
#[derive(Clone, Copy, PartialEq, Eq, Structural, Debug)]
pub struct CanvasMaterial {
    /// Handle of the canvas texture this material samples.
    pub texture: u64,
}

/// The handles of the one canvas: its display material and its texture.
#[derive(Clone, Copy, PartialEq, Eq, Structural, Debug)]
pub struct VelloCanvas {
    pub material_handle: u64,
    pub image_handle: u64,
}

/// A triangle mesh: fixed-point positions, fixed-point texture coordinates,
/// and triangle indices.
pub struct QuadMesh {
    pub positions: Vec<(i64, i64, i64)>,
    pub uvs: Vec<(i64, i64)>,
    pub indices: Vec<u32>,
}

/// The corners of the full-screen quad in normalized device coordinates.
pub open spec fn unit_quad_positions() -> Seq<(i64, i64, i64)> {
    seq![
        (FX_NEG_ONE, FX_NEG_ONE, 0i64),
        (FX_ONE, FX_NEG_ONE, 0i64),
        (FX_ONE, FX_ONE, 0i64),
        (FX_NEG_ONE, FX_ONE, 0i64),
    ]
}

/// The texture coordinates of the quad's corners, covering [0, 1] x [0, 1].
pub open spec fn unit_quad_uvs() -> Seq<(i64, i64)> {
    seq![(0i64, 0i64), (FX_ONE, 0i64), (FX_ONE, FX_ONE), (0i64, FX_ONE)]
}

/// The two triangles of the quad.
pub open spec fn unit_quad_indices() -> Seq<u32> {
    seq![0u32, 1u32, 2u32, 0u32, 2u32, 3u32]
}

/// Whether a mesh is the full-screen unit quad.
pub open spec fn is_unit_quad(q: &QuadMesh) -> bool {
    q.positions@ == unit_quad_positions() && q.uvs@ == unit_quad_uvs() && q.indices@
        == unit_quad_indices()
}

/// Allocates the canvas texture at the window's physical resolution, under
/// the fixed canvas descriptor.
fn create_image(images: &mut Assets<CanvasImage>, width: u32, height: u32) -> (h: u64)
    requires
        old(images)@.len() < 0xffffffffffffffff,
    ensures
        final(images)@ == old(images)@.push(canvas_image_of(width, height)),
        h == old(images)@.len() + 1,
        final(images).resolves(h),
{
    images.store(
        CanvasImage {
            width,
            height,
            dimension: TextureDimension::D2,
            format: TextureFormat::Rgba8Unorm,
            usage: TextureUsage { texture_binding: true, copy_dst: true, storage_binding: true },
            mip_level_count: 1,
            sample_count: 1,
        },
    )
}

/// Builds the canvas for a window: a texture at the window's resolution, a
/// material sampling it, and the full-screen quad mesh the material is drawn
/// on.  With no window there is nothing to size the canvas to, and nothing is
/// created.
pub fn setup_canvas(
    window: Option<(u32, u32)>,
    meshes: &mut Assets<QuadMesh>,
    images: &mut Assets<CanvasImage>,
    materials: &mut Assets<CanvasMaterial>,
) -> (r: Option<VelloCanvas>)
    requires
        old(meshes)@.len() < 0xffffffffffffffff,
        old(images)@.len() < 0xffffffffffffffff,
        old(materials)@.len() < 0xffffffffffffffff,
    ensures
        window.is_none() ==> {
            &&& r.is_none()
            &&& final(meshes)@ == old(meshes)@
            &&& final(images)@ == old(images)@
            &&& final(materials)@ == old(materials)@
        },
        window.is_some() ==> {
            &&& r.is_some()
            &&& final(images)@ == old(images)@.push(
                canvas_image_of(window.unwrap().0, window.unwrap().1),
            )
            &&& r.unwrap().image_handle == old(images)@.len() + 1
            &&& final(materials)@ == old(materials)@.push(
                (CanvasMaterial { texture: r.unwrap().image_handle }),
            )
            &&& r.unwrap().material_handle == old(materials)@.len() + 1
            &&& final(meshes)@.len() == old(meshes)@.len() + 1
            &&& forall|j: int|
                0 <= j < old(meshes)@.len() ==> #[trigger] final(meshes)@[j] == old(meshes)@[j]
            &&& is_unit_quad(&final(meshes)@.last())
        },
{
    let (width, height) = match window {
        Some(d) => d,
        None => {
            return None;
        },
    };
    let mut positions: Vec<(i64, i64, i64)> = Vec::new();
    positions.push((FX_NEG_ONE, FX_NEG_ONE, 0i64));
    positions.push((FX_ONE, FX_NEG_ONE, 0i64));
    positions.push((FX_ONE, FX_ONE, 0i64));
    positions.push((FX_NEG_ONE, FX_ONE, 0i64));
    let mut uvs: Vec<(i64, i64)> = Vec::new();
    uvs.push((0i64, 0i64));
    uvs.push((FX_ONE, 0i64));
    uvs.push((FX_ONE, FX_ONE));
    uvs.push((0i64, FX_ONE));
    let mut indices: Vec<u32> = Vec::new();
    indices.push(0);
    indices.push(1);
    indices.push(2);
    indices.push(0);
    indices.push(2);
    indices.push(3);
    let quad = QuadMesh { positions, uvs, indices };
    proof {
        assert(quad.positions@ =~= unit_quad_positions());
        assert(quad.uvs@ =~= unit_quad_uvs());
        assert(quad.indices@ =~= unit_quad_indices());
    }
    let _mesh_handle = meshes.store(quad);
    let image_handle = create_image(images, width, height);
    let material_handle = materials.store(CanvasMaterial { texture: image_handle });
    Some(VelloCanvas { material_handle, image_handle })
}

/// Whether a resize request takes effect: resize events arrived this tick,
/// the window reports a non-zero resolution, and the canvas handles resolve.
pub open spec fn resize_applies(
    window: Option<(u32, u32)>,
    n_events: int,
    canvas: &VelloCanvas,
    materials: Seq<CanvasMaterial>,
    images: Seq<CanvasImage>,
) -> bool {
    &&& n_events > 0
    &&& match window {
        Some(d) => d.0 != 0 && d.1 != 0,
        None => false,
    }
    &&& 1 <= canvas.material_handle <= materials.len()
    &&& 1 <= canvas.image_handle <= images.len()
}

/// Resizes the canvas texture to the window's current resolution when resize
/// events arrived this tick, and rebinds the material to the texture, whose
/// identity on the device changes with the reallocation.  Several events in
/// one tick collapse to the window's final resolution; a zero-area resolution
/// is ignored and the previous texture is kept.
pub fn resize_canvas_image(
    window: Option<(u32, u32)>,
    resize_events: &Vec<(u32, u32)>,
    canvas: &VelloCanvas,
    materials: &mut Assets<CanvasMaterial>,
    images: &mut Assets<CanvasImage>,
)
    ensures
        resize_applies(
            window,
            resize_events@.len() as int,
            canvas,
            old(materials)@,
            old(images)@,
        ) ==> {
            &&& final(images)@ == old(images)@.update(
                canvas.image_handle as int - 1,
                canvas_image_of(window.unwrap().0, window.unwrap().1),
            )
            &&& final(materials)@ == old(materials)@.update(
                canvas.material_handle as int - 1,
                (CanvasMaterial { texture: canvas.image_handle }),
            )
        },
        !resize_applies(
            window,
            resize_events@.len() as int,
            canvas,
            old(materials)@,
            old(images)@,
        ) ==> {
            &&& final(images)@ == old(images)@
            &&& final(materials)@ == old(materials)@
        },
{
    let (width, height) = match window {
        Some(d) => d,
        None => {
            return ;
        },
    };
    if resize_events.len() == 0 {
        return ;
    }
    if width == 0 || height == 0 {
        return ;
    }
    if !materials.contains(canvas.material_handle) {
        return ;
    }
    if !images.contains(canvas.image_handle) {
        return ;
    }
    let _resized = images.set(
        canvas.image_handle,
        CanvasImage {
            width,
            height,
            dimension: TextureDimension::D2,
            format: TextureFormat::Rgba8Unorm,
            usage: TextureUsage { texture_binding: true, copy_dst: true, storage_binding: true },
            mip_level_count: 1,
            sample_count: 1,
        },
    );
    let _rebound = materials.set(
        canvas.material_handle,
        CanvasMaterial { texture: canvas.image_handle },
    );
}

} // verus!
