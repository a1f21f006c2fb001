use vello_render::assets::Assets;
use vello_render::fixed::FX_ONE;
use vello_render::mat4::{Affine, Mat4};
use vello_render::render_pipeline::{
    render_scene, sort_render_queue, AaConfig, Color, PreparedAffine, RenderEntry, VelloRenderer,
};
use vello_render::vello_scene::{ExtractedVelloSceneInstance, VelloScene};

fn translation(tx: i64, ty: i64, tz: i64) -> Mat4 {
    Mat4::from_entries(vec![
        FX_ONE, 0, 0, tx, 0, FX_ONE, 0, ty, 0, 0, FX_ONE, tz, 0, 0, 0, FX_ONE,
    ])
    .unwrap()
}

fn plain_affine(e: i64) -> Affine {
    Affine {
        a: FX_ONE,
        b: 0,
        c: 0,
        d: FX_ONE,
        e,
        f: 0,
    }
}

fn instance(handle: u64, tz: i64) -> ExtractedVelloSceneInstance {
    ExtractedVelloSceneInstance {
        scene_handle: handle,
        global_transform: translation(0, 0, tz),
    }
}

fn entry(order: usize, handle: u64, tz: i64) -> RenderEntry {
    RenderEntry {
        order,
        instance: instance(handle, tz),
        affine: PreparedAffine(plain_affine(order as i64)),
    }
}

#[test]
fn sort_orders_ascending_by_depth() {
    let queue = vec![entry(0, 10, FX_ONE), entry(1, 20, -FX_ONE), entry(2, 30, 0)];
    let sorted = sort_render_queue(queue);
    assert_eq!(sorted.len(), 3);
    assert_eq!(sorted[0].instance.scene_handle, 20);
    assert_eq!(sorted[1].instance.scene_handle, 30);
    assert_eq!(sorted[2].instance.scene_handle, 10);
}

#[test]
fn sort_keeps_arrival_order_on_equal_depth() {
    let queue = vec![
        entry(0, 10, FX_ONE),
        entry(1, 20, FX_ONE),
        entry(2, 30, FX_ONE),
    ];
    let sorted = sort_render_queue(queue);
    assert_eq!(sorted[0].order, 0);
    assert_eq!(sorted[1].order, 1);
    assert_eq!(sorted[2].order, 2);
}

fn store_with(handles: &[u64]) -> Assets<VelloScene> {
    let mut scenes: Assets<VelloScene> = Assets::new();
    for h in handles.iter() {
        let stored = scenes.store(VelloScene { scene: vec![*h] });
        assert_eq!(stored, *h);
    }
    scenes
}

#[test]
fn empty_queue_never_triggers_a_render_call() {
    let mut renderer = VelloRenderer::new();
    let scenes = store_with(&[1, 2]);
    let out = render_scene(&mut renderer, Vec::new(), &scenes, Some((800, 600)));
    assert!(out.call.is_none());
    assert!(out.queue.is_empty());
    assert!(out.scene.items.is_empty());
    assert_eq!(renderer.frames_submitted, 0);
}

#[test]
fn missing_canvas_image_skips_the_stage() {
    let mut renderer = VelloRenderer::new();
    let scenes = store_with(&[1]);
    let pairs = vec![(instance(1, 0), PreparedAffine(plain_affine(7)))];
    let out = render_scene(&mut renderer, pairs, &scenes, None);
    assert!(out.call.is_none());
    assert!(out.queue.is_empty());
    assert!(out.scene.items.is_empty());
}

#[test]
fn one_instance_triggers_one_call_with_fixed_params() {
    let mut renderer = VelloRenderer::new();
    let scenes = store_with(&[1]);
    let pairs = vec![(instance(1, 0), PreparedAffine(plain_affine(7)))];
    let out = render_scene(&mut renderer, pairs, &scenes, Some((800, 600)));
    let call = out.call.unwrap();
    assert_eq!(call.width, 800);
    assert_eq!(call.height, 600);
    assert_eq!(
        call.base_color,
        Color {
            r: 0,
            g: 0,
            b: 0,
            a: 0
        }
    );
    assert_eq!(call.antialiasing_method, AaConfig::Area);
    assert_eq!(renderer.frames_submitted, 1);
}

#[test]
fn composition_is_back_to_front() {
    let mut renderer = VelloRenderer::new();
    let scenes = store_with(&[1, 2]);
    let pairs = vec![
        (instance(1, FX_ONE), PreparedAffine(plain_affine(100))),
        (instance(2, -FX_ONE), PreparedAffine(plain_affine(200))),
    ];
    let out = render_scene(&mut renderer, pairs, &scenes, Some((800, 600)));
    assert_eq!(out.scene.items.len(), 2);
    assert_eq!(out.scene.items[0].scene_handle, 2);
    assert_eq!(out.scene.items[0].affine.e, 200);
    assert_eq!(out.scene.items[1].scene_handle, 1);
    assert_eq!(out.scene.items[1].affine.e, 100);
}

#[test]
fn unresolved_scene_handles_are_skipped_in_composition() {
    let mut renderer = VelloRenderer::new();
    let scenes = store_with(&[1]);
    let pairs = vec![
        (instance(9, -FX_ONE), PreparedAffine(plain_affine(100))),
        (instance(1, FX_ONE), PreparedAffine(plain_affine(200))),
    ];
    let out = render_scene(&mut renderer, pairs, &scenes, Some((800, 600)));
    assert_eq!(out.queue.len(), 2);
    assert_eq!(out.scene.items.len(), 1);
    assert_eq!(out.scene.items[0].scene_handle, 1);
    assert!(out.call.is_some());
}

#[test]
fn empty_aggregate_from_unresolved_handles_skips_the_call() {
    let mut renderer = VelloRenderer::new();
    let scenes: Assets<VelloScene> = Assets::new();
    let pairs = vec![(instance(9, 0), PreparedAffine(plain_affine(1)))];
    let out = render_scene(&mut renderer, pairs, &scenes, Some((800, 600)));
    assert_eq!(out.queue.len(), 1);
    assert!(out.scene.items.is_empty());
    assert!(out.call.is_none());
    assert_eq!(renderer.frames_submitted, 0);
}
