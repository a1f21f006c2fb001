use vello_render::assets::Assets;
use vello_render::canvas::{
    resize_canvas_image, setup_canvas, CanvasImage, CanvasMaterial, QuadMesh, TextureDimension,
    TextureFormat, TextureUsage, VelloCanvas,
};
use vello_render::fixed::FX_ONE;

fn fresh_stores() -> (Assets<QuadMesh>, Assets<CanvasImage>, Assets<CanvasMaterial>) {
    (Assets::new(), Assets::new(), Assets::new())
}

fn canvas_image(width: u32, height: u32) -> CanvasImage {
    CanvasImage {
        width,
        height,
        dimension: TextureDimension::D2,
        format: TextureFormat::Rgba8Unorm,
        usage: TextureUsage {
            texture_binding: true,
            copy_dst: true,
            storage_binding: true,
        },
        mip_level_count: 1,
        sample_count: 1,
    }
}

#[test]
fn setup_creates_canvas_at_window_resolution() {
    let (mut meshes, mut images, mut materials) = fresh_stores();
    let canvas = setup_canvas(Some((800, 600)), &mut meshes, &mut images, &mut materials).unwrap();
    let img = images.get(canvas.image_handle).unwrap();
    assert_eq!(*img, canvas_image(800, 600));
    let mat = materials.get(canvas.material_handle).unwrap();
    assert_eq!(mat.texture, canvas.image_handle);
}

#[test]
fn setup_builds_the_full_screen_quad() {
    let (mut meshes, mut images, mut materials) = fresh_stores();
    let _canvas = setup_canvas(Some((800, 600)), &mut meshes, &mut images, &mut materials).unwrap();
    assert_eq!(meshes.len(), 1);
    let quad = meshes.get(1).unwrap();
    assert_eq!(
        quad.positions,
        vec![
            (-FX_ONE, -FX_ONE, 0),
            (FX_ONE, -FX_ONE, 0),
            (FX_ONE, FX_ONE, 0),
            (-FX_ONE, FX_ONE, 0)
        ]
    );
    assert_eq!(
        quad.uvs,
        vec![(0, 0), (FX_ONE, 0), (FX_ONE, FX_ONE), (0, FX_ONE)]
    );
    assert_eq!(quad.indices, vec![0, 1, 2, 0, 2, 3]);
}

#[test]
fn setup_without_window_creates_nothing() {
    let (mut meshes, mut images, mut materials) = fresh_stores();
    let canvas = setup_canvas(None, &mut meshes, &mut images, &mut materials);
    assert!(canvas.is_none());
    assert_eq!(meshes.len(), 0);
    assert_eq!(images.len(), 0);
    assert_eq!(materials.len(), 0);
}

fn canvas_with_stores() -> (VelloCanvas, Assets<CanvasImage>, Assets<CanvasMaterial>) {
    let (mut meshes, mut images, mut materials) = fresh_stores();
    let canvas = setup_canvas(Some((800, 600)), &mut meshes, &mut images, &mut materials).unwrap();
    (canvas, images, materials)
}

#[test]
fn resize_with_zero_width_keeps_dimensions() {
    let (canvas, mut images, mut materials) = canvas_with_stores();
    resize_canvas_image(
        Some((0, 768)),
        &vec![(0, 768)],
        &canvas,
        &mut materials,
        &mut images,
    );
    let img = images.get(canvas.image_handle).unwrap();
    assert_eq!(*img, canvas_image(800, 600));
}

#[test]
fn resize_with_zero_height_keeps_dimensions() {
    let (canvas, mut images, mut materials) = canvas_with_stores();
    resize_canvas_image(
        Some((1024, 0)),
        &vec![(1024, 0)],
        &canvas,
        &mut materials,
        &mut images,
    );
    let img = images.get(canvas.image_handle).unwrap();
    assert_eq!(*img, canvas_image(800, 600));
}

#[test]
fn resize_without_events_keeps_dimensions() {
    let (canvas, mut images, mut materials) = canvas_with_stores();
    resize_canvas_image(
        Some((1024, 768)),
        &Vec::new(),
        &canvas,
        &mut materials,
        &mut images,
    );
    let img = images.get(canvas.image_handle).unwrap();
    assert_eq!(*img, canvas_image(800, 600));
}

#[test]
fn resize_applies_window_resolution_once() {
    let (canvas, mut images, mut materials) = canvas_with_stores();
    resize_canvas_image(
        Some((1024, 768)),
        &vec![(1024, 768)],
        &canvas,
        &mut materials,
        &mut images,
    );
    let img = images.get(canvas.image_handle).unwrap();
    assert_eq!(*img, canvas_image(1024, 768));
    assert_eq!(images.len(), 1);
}

#[test]
fn several_events_in_one_tick_collapse_to_the_last_resolution() {
    let (canvas, mut images, mut materials) = canvas_with_stores();
    resize_canvas_image(
        Some((1024, 768)),
        &vec![(900, 700), (1000, 750), (1024, 768)],
        &canvas,
        &mut materials,
        &mut images,
    );
    let img = images.get(canvas.image_handle).unwrap();
    assert_eq!(*img, canvas_image(1024, 768));
    let mat = materials.get(canvas.material_handle).unwrap();
    assert_eq!(mat.texture, canvas.image_handle);
}

#[test]
fn resize_rebinds_the_material_to_the_texture() {
    let (canvas, mut images, mut materials) = canvas_with_stores();
    let _changed = materials.set(canvas.material_handle, CanvasMaterial { texture: 77 });
    resize_canvas_image(
        Some((1024, 768)),
        &vec![(1024, 768)],
        &canvas,
        &mut materials,
        &mut images,
    );
    let mat = materials.get(canvas.material_handle).unwrap();
    assert_eq!(mat.texture, canvas.image_handle);
}

#[test]
fn canvas_texture_keeps_its_descriptor_through_resize() {
    let (canvas, mut images, mut materials) = canvas_with_stores();
    resize_canvas_image(
        Some((1024, 768)),
        &vec![(1024, 768)],
        &canvas,
        &mut materials,
        &mut images,
    );
    let img = images.get(canvas.image_handle).unwrap();
    assert_eq!(img.format, TextureFormat::Rgba8Unorm);
    assert_eq!(img.dimension, TextureDimension::D2);
    assert!(img.usage.texture_binding);
    assert!(img.usage.copy_dst);
    assert!(img.usage.storage_binding);
    assert_eq!(img.mip_level_count, 1);
    assert_eq!(img.sample_count, 1);
}
