use vello_render::fixed::FX_ONE;
use vello_render::mat4::Mat4;
use vello_render::render_pipeline::{
    extract_fragment_instances, prepare_affine, prepare_fragment_affines, ExtractedCameraView,
};
use vello_render::vello_scene::VelloSceneBundle;

fn translation(tx: i64, ty: i64, tz: i64) -> Mat4 {
    Mat4::from_entries(vec![
        FX_ONE, 0, 0, tx, 0, FX_ONE, 0, ty, 0, 0, FX_ONE, tz, 0, 0, 0, FX_ONE,
    ])
    .unwrap()
}

fn bundle(scene: u64, tz: i64, visible: bool) -> VelloSceneBundle {
    VelloSceneBundle {
        scene,
        transform: translation(0, 0, 0),
        global_transform: translation(0, 0, tz),
        visibility: visible,
        inherited_visibility: visible,
        view_visibility: visible,
    }
}

fn identity_camera(width: u32, height: u32) -> ExtractedCameraView {
    ExtractedCameraView {
        physical_viewport_size: Some((width, height)),
        view_transform: translation(0, 0, 0),
        projection: translation(0, 0, 0),
    }
}

#[test]
fn extraction_skips_invisible_entities() {
    let world = vec![
        (1u64, bundle(10, 0, true)),
        (2u64, bundle(20, 0, false)),
        (3u64, bundle(30, 0, true)),
    ];
    let instances = extract_fragment_instances(world);
    assert_eq!(instances.len(), 2);
    assert_eq!(instances[0].0, 1);
    assert_eq!(instances[0].1.scene_handle, 10);
    assert_eq!(instances[1].0, 3);
    assert_eq!(instances[1].1.scene_handle, 30);
}

#[test]
fn extraction_of_empty_world_is_empty() {
    let instances = extract_fragment_instances(Vec::new());
    assert!(instances.is_empty());
}

#[test]
fn reappearing_entity_is_extracted_next_frame() {
    let hidden = vec![(1u64, bundle(10, 0, false))];
    assert!(extract_fragment_instances(hidden).is_empty());
    let shown = vec![(1u64, bundle(10, 0, true))];
    let instances = extract_fragment_instances(shown);
    assert_eq!(instances.len(), 1);
    assert_eq!(instances[0].0, 1);
}

#[test]
fn origin_instance_maps_to_viewport_center() {
    let camera = identity_camera(800, 600);
    let affine = prepare_affine(&camera, &translation(0, 0, 0)).unwrap();
    assert_eq!(affine.a, 400 * FX_ONE);
    assert_eq!(affine.b, 0);
    assert_eq!(affine.c, 0);
    assert_eq!(affine.d, 300 * FX_ONE);
    assert_eq!(affine.e, 400 * FX_ONE);
    assert_eq!(affine.f, 300 * FX_ONE);
}

#[test]
fn derivation_is_deterministic_across_calls() {
    let camera = identity_camera(800, 600);
    let model = translation(FX_ONE, -2 * FX_ONE, FX_ONE / 2);
    let first = prepare_affine(&camera, &model).unwrap();
    let second = prepare_affine(&camera, &model).unwrap();
    assert_eq!(first, second);
}

#[test]
fn unit_step_right_moves_half_a_viewport() {
    let camera = identity_camera(800, 600);
    let affine = prepare_affine(&camera, &translation(FX_ONE, 0, 0)).unwrap();
    assert_eq!(affine.e, 800 * FX_ONE);
    assert_eq!(affine.f, 300 * FX_ONE);
}

#[test]
fn unit_step_up_moves_toward_the_top_edge() {
    let camera = identity_camera(800, 600);
    let affine = prepare_affine(&camera, &translation(0, FX_ONE, 0)).unwrap();
    assert_eq!(affine.e, 400 * FX_ONE);
    assert_eq!(affine.f, 0);
}

#[test]
fn camera_offset_shifts_instances_the_other_way() {
    let camera = ExtractedCameraView {
        physical_viewport_size: Some((800, 600)),
        view_transform: translation(FX_ONE, 0, 0),
        projection: translation(0, 0, 0),
    };
    let affine = prepare_affine(&camera, &translation(0, 0, 0)).unwrap();
    assert_eq!(affine.e, 0);
    assert_eq!(affine.f, 300 * FX_ONE);
}

#[test]
fn oversized_viewport_fails_soft() {
    let camera = identity_camera(9000, 600);
    assert!(prepare_affine(&camera, &translation(0, 0, 0)).is_none());
}

#[test]
fn singular_view_fails_soft() {
    let camera = ExtractedCameraView {
        physical_viewport_size: Some((800, 600)),
        view_transform: Mat4::from_entries(vec![0i64; 16]).unwrap(),
        projection: translation(0, 0, 0),
    };
    assert!(prepare_affine(&camera, &translation(0, 0, 0)).is_none());
}

#[test]
fn preparation_without_camera_does_no_work() {
    let instances = extract_fragment_instances(vec![(1u64, bundle(10, 0, true))]);
    let cameras: Vec<ExtractedCameraView> = Vec::new();
    let prepared = prepare_fragment_affines(&cameras, &instances);
    assert!(prepared.is_empty());
}

#[test]
fn preparation_with_two_cameras_does_no_work() {
    let instances = extract_fragment_instances(vec![(1u64, bundle(10, 0, true))]);
    let cameras = vec![identity_camera(800, 600), identity_camera(400, 300)];
    let prepared = prepare_fragment_affines(&cameras, &instances);
    assert!(prepared.is_empty());
}

#[test]
fn preparation_attaches_one_affine_per_instance() {
    let instances = extract_fragment_instances(vec![
        (1u64, bundle(10, 0, true)),
        (2u64, bundle(20, FX_ONE, true)),
    ]);
    let cameras = vec![identity_camera(800, 600)];
    let prepared = prepare_fragment_affines(&cameras, &instances);
    assert_eq!(prepared.len(), 2);
    assert_eq!(prepared[0].0, 1);
    assert_eq!(prepared[1].0, 2);
    assert_eq!(prepared[0].1 .0.e, 400 * FX_ONE);
    assert_eq!(prepared[0].1 .0.f, 300 * FX_ONE);
}
