//! The per-frame render pipeline: Extract, Prepare, Render.
//!
//! Each frame runs three stages in strict order.  Extraction copies a
//! snapshot of every visible scene-bearing entity out of the main world.
//! Preparation derives, for each snapshot, the 2D affine transform that
//! places the scene on the canvas, from the single active camera's view,
//! projection and viewport.  The render stage depth-sorts the prepared
//! instances, composes them back-to-front into one aggregate scene, and
//! decides whether the GPU rasterizer must be invoked at all.  The stages
//! are plain functions and [`run_frame`] is the frame driver that enforces
//! their order.

use vstd::prelude::*;
use vstd::seq_lib::lemma_multiset_commutative;

use crate::assets::Assets;
use crate::mat4::Affine;
use crate::mat4::Mat4;
use crate::mat4::affine_from_mat;
use crate::mat4::affine_of;
use crate::mat4::mat_inv_in_range;
use crate::mat4::mat_inv_v;
use crate::mat4::mat_mul_in_range;
use crate::mat4::mat_mul_v;
use crate::mat4::ndc_to_pixels;
use crate::mat4::ndc_to_pixels_v;
use crate::vello_scene::ExtractedVelloSceneInstance;
use crate::vello_scene::VelloScene;
use crate::vello_scene::VelloSceneBundle;

verus! {

/// The process-lifetime handle standing for the GPU-backed rasterizer.  It
/// is created once, after the host's GPU device is available, and the render
/// stage demands exclusive access to it (`&mut`) so that two render passes
/// can never share it.
pub struct VelloRenderer {
    /// How many frames this renderer has been asked to rasterize.
    pub frames_submitted: u64,
}

impl VelloRenderer {
    /// Brings the renderer up; once constructed it is ready for the rest of
    /// the process's life.
    pub fn new() -> (r: VelloRenderer)
        ensures
            r.frames_submitted == 0,
    {
        VelloRenderer { frames_submitted: 0 }
    }
}

// Extract ========================================

/// The render-world snapshot taken of one world row.
pub open spec fn extracted_of(b: VelloSceneBundle) -> ExtractedVelloSceneInstance {
    ExtractedVelloSceneInstance { scene_handle: b.scene, global_transform: b.global_transform }
}

/// The extraction of a world: for every entity, in world order, a snapshot of
/// its scene handle and world transform — but only if it is view-visible this
/// frame.  An invisible entity is simply absent, not present with an empty
/// scene.
pub open spec fn extract_spec(world: Seq<(u64, VelloSceneBundle)>) -> Seq<
    (u64, ExtractedVelloSceneInstance),
>
    decreases world.len(),
{
    if world.len() == 0 {
        Seq::empty()
    } else {
        let rest = extract_spec(world.drop_last());
        let last = world.last();
        if last.1.view_visibility {
            rest.push((last.0, extracted_of(last.1)))
        } else {
            rest
        }
    }
}

/// Extraction stage: consumes the frame's read-only snapshot of the main
/// world and emits the render-world instances.  The result replaces — never
/// extends — the previous frame's instances, so nothing stale lingers.
pub fn extract_fragment_instances(world: Vec<(u64, VelloSceneBundle)>) -> (r: Vec<
    (u64, ExtractedVelloSceneInstance),
>)
    ensures
        r@ == extract_spec(world@),
{
    let ghost orig = world@;
    let mut world = world;
    let mut out: Vec<(u64, ExtractedVelloSceneInstance)> = Vec::new();
    let ghost mut k: int = 0;
    while world.len() > 0
        invariant
            0 <= k,
            k + world@.len() == orig.len(),
            world@ == orig.skip(k),
            out@ == extract_spec(orig.take(k)),
        decreases world@.len(),
    {
        let (entity, bundle) = world.remove(0);
        proof {
            assert(orig.skip(k)[0] == orig[k]);
            assert(orig.skip(k).remove(0) =~= orig.skip(k + 1));
            assert(orig.take(k + 1).drop_last() =~= orig.take(k));
            assert(orig.take(k + 1).last() == orig[k]);
        }
        let visible = bundle.view_visibility;
        if visible {
            out.push(
                (
                    entity,
                    ExtractedVelloSceneInstance {
                        scene_handle: bundle.scene,
                        global_transform: bundle.global_transform,
                    },
                ),
            );
        }
        proof {
            k = k + 1;
        }
    }
    proof {
        assert(orig.take(k) =~= orig);
    }
    out
}

/// Every extracted instance comes from a view-visible world row: returns the
/// index of that row.
pub proof fn lemma_extracted_from_world(world: Seq<(u64, VelloSceneBundle)>, j: int) -> (i: int)
    requires
        0 <= j < extract_spec(world).len(),
    ensures
        0 <= i < world.len(),
        world[i].1.view_visibility,
        extract_spec(world)[j] == (world[i].0, extracted_of(world[i].1)),
    decreases world.len(),
{
    let rest = world.drop_last();
    if world.last().1.view_visibility && j == extract_spec(rest).len() {
        world.len() - 1
    } else {
        let i = lemma_extracted_from_world(rest, j);
        i
    }
}

/// An entity that is not view-visible this frame does not appear in the
/// extracted set, whatever the size of the world — the heart of the
/// extraction contract, stated for worlds whose entity identifiers are
/// distinct, as the host's entity store guarantees.
pub proof fn lemma_invisible_not_extracted(world: Seq<(u64, VelloSceneBundle)>, i: int)
    requires
        0 <= i < world.len(),
        !world[i].1.view_visibility,
        forall|p: int, q: int|
            0 <= p < q < world.len() ==> (#[trigger] world[p]).0 != (#[trigger] world[q]).0,
    ensures
        forall|j: int|
            0 <= j < extract_spec(world).len() ==> (#[trigger] extract_spec(world)[j]).0
                != world[i].0,
{
    assert forall|j: int|
        0 <= j < extract_spec(world).len() implies (#[trigger] extract_spec(world)[j]).0
        != world[i].0 by {
        let p = lemma_extracted_from_world(world, j);
        if p < i {
            assert(world[p].0 != world[i].0);
        } else if i < p {
            assert(world[i].0 != world[p].0);
        }
    }
}

// Prepare ========================================

/// The single active camera, as extracted into the render world: its
/// physical viewport in pixels, its world transform, and its projection.
pub struct ExtractedCameraView {
    /// The camera's viewport in physical pixels, when the camera has one.
    pub physical_viewport_size: Option<(u32, u32)>,
    /// The camera's world transform.
    pub view_transform: Mat4,
    /// The camera's projection matrix.
    pub projection: Mat4,
}

/// A camera whose matrices are well-formed.
pub open spec fn camera_wf(cam: ExtractedCameraView) -> bool {
    cam.view_transform.wf() && cam.projection.wf()
}

/// The affine derivation for one instance: flip the world and view
/// transforms to the renderer's Y-down convention, invert the view, multiply
/// by the projection, map the result to pixels, apply it to the model, and
/// read off the six affine coefficients.  `None` when the viewport exceeds
/// the representable size, the view cannot be inverted, or an intermediate
/// entry leaves the fixed-point range: such an instance is skipped for the
/// frame.
pub open spec fn prepare_affine_v(
    model: Seq<int>,
    view: Seq<int>,
    proj: Seq<int>,
    w: int,
    h: int,
) -> Option<Seq<int>> {
    let model_f = model.update(7, -model[7]);
    let view_f = view.update(7, -view[7]);
    if !(w <= 8192 && h <= 8192) {
        None
    } else if !mat_inv_in_range(view_f) {
        None
    } else {
        let view_inv = mat_inv_v(view_f);
        if !mat_mul_in_range(proj, view_inv) {
            None
        } else {
            let view_proj = mat_mul_v(proj, view_inv);
            let ndc = ndc_to_pixels_v(w, h);
            if !mat_mul_in_range(ndc, view_proj) {
                None
            } else {
                let m1 = mat_mul_v(ndc, view_proj);
                if !mat_mul_in_range(m1, model_f) {
                    None
                } else {
                    Some(affine_of(mat_mul_v(m1, model_f)))
                }
            }
        }
    }
}

/// Derives the affine transform that places one instance's scene on the
/// canvas.  The same inputs always give the same coefficients: the result is
/// pinned to [`prepare_affine_v`], a function of the arguments alone.
pub fn prepare_affine(camera: &ExtractedCameraView, model: &Mat4) -> (r: Option<Affine>)
    requires
        camera_wf(*camera),
        model.wf(),
        camera.physical_viewport_size.is_some(),
    ensures
        ({
            let vp = camera.physical_viewport_size.unwrap();
            let spec_r = prepare_affine_v(
                model@,
                camera.view_transform@,
                camera.projection@,
                vp.0 as int,
                vp.1 as int,
            );
            match r {
                Some(aff) => spec_r == Some(aff@),
                None => spec_r.is_none(),
            }
        }),
{
    let (w, h) = match camera.physical_viewport_size {
        Some(d) => d,
        None => {
            proof {
                assert(false);
            }
            (0, 0)
        },
    };
    if w > 8192 || h > 8192 {
        return None;
    }
    let model_f = model.with_y_flip();
    let view_f = camera.view_transform.with_y_flip();
    let view_inv = match view_f.inverse() {
        Some(m) => m,
        None => {
            return None;
        },
    };
    let view_proj = match camera.projection.mat_mul(&view_inv) {
        Some(m) => m,
        None => {
            return None;
        },
    };
    let ndc = ndc_to_pixels(w, h);
    let m1 = match ndc.mat_mul(&view_proj) {
        Some(m) => m,
        None => {
            return None;
        },
    };
    let m2 = match m1.mat_mul(&model_f) {
        Some(m) => m,
        None => {
            return None;
        },
    };
    Some(affine_from_mat(&m2))
}

/// The affine transform prepared for one instance this frame.
#[derive(Clone, Copy, PartialEq, Eq, Structural, Debug)]
pub struct PreparedAffine(pub Affine);

/// The preparations that succeed for a frame: for each instance, in order,
/// the derived coefficients — instances whose derivation fails soft are
/// absent.
pub open spec fn prepared_spec(
    cam: ExtractedCameraView,
    s: Seq<(u64, ExtractedVelloSceneInstance)>,
) -> Seq<(u64, Seq<int>)>
    decreases s.len(),
{
    if s.len() == 0 {
        Seq::empty()
    } else {
        let rest = prepared_spec(cam, s.drop_last());
        let last = s.last();
        let vp = cam.physical_viewport_size.unwrap();
        match prepare_affine_v(
            last.1.global_transform@,
            cam.view_transform@,
            cam.projection@,
            vp.0 as int,
            vp.1 as int,
        ) {
            Some(aff) => rest.push((last.0, aff)),
            None => rest,
        }
    }
}

/// Preparation stage: derives an affine for every extracted instance from
/// the one active camera.  With no camera, or more than one, the stage does
/// no work and fails soft: nothing is prepared this frame.
pub fn prepare_fragment_affines(
    cameras: &Vec<ExtractedCameraView>,
    instances: &Vec<(u64, ExtractedVelloSceneInstance)>,
) -> (r: Vec<(u64, PreparedAffine)>)
    requires
        forall|i: int| 0 <= i < cameras@.len() ==> camera_wf(#[trigger] cameras@[i]),
        cameras@.len() == 1 ==> cameras@[0].physical_viewport_size.is_some(),
        forall|i: int|
            0 <= i < instances@.len() ==> (#[trigger] instances@[i]).1.global_transform.wf(),
    ensures
        cameras@.len() != 1 ==> r@ == Seq::<(u64, PreparedAffine)>::empty(),
        cameras@.len() == 1 ==> ({
            let ps = prepared_spec(cameras@[0], instances@);
            &&& r@.len() == ps.len()
            &&& forall|j: int|
                0 <= j < ps.len() ==> (#[trigger] r@[j]).0 == ps[j].0 && r@[j].1.0@ == ps[j].1
        }),
{
    let mut out: Vec<(u64, PreparedAffine)> = Vec::new();
    if cameras.len() != 1 {
        proof {
            assert(out@ =~= Seq::<(u64, PreparedAffine)>::empty());
        }
        return out;
    }
    let camera = &cameras[0];
    let mut i: usize = 0;
    while i < instances.len()
        invariant
            cameras@.len() == 1,
            camera == cameras@[0],
            camera_wf(*camera),
            camera.physical_viewport_size.is_some(),
            forall|p: int|
                0 <= p < instances@.len() ==> (#[trigger] instances@[p]).1.global_transform.wf(),
            i <= instances@.len(),
            out@.len() == prepared_spec(*camera, instances@.take(i as int)).len(),
            forall|j: int|
                0 <= j < out@.len() ==> (#[trigger] out@[j]).0 == prepared_spec(
                    *camera,
                    instances@.take(i as int),
                )[j].0 && out@[j].1.0@ == prepared_spec(*camera, instances@.take(i as int))[j].1,
        decreases instances@.len() - i,
    {
        let inst = &instances[i];
        proof {
            assert(instances@.take(i as int + 1).drop_last() =~= instances@.take(i as int));
            assert(instances@.take(i as int + 1).last() == instances@[i as int]);
        }
        match prepare_affine(camera, &inst.1.global_transform) {
            Some(aff) => {
                out.push((inst.0, PreparedAffine(aff)));
            },
            None => {},
        }
        i += 1;
    }
    proof {
        assert(instances@.take(i as int) =~= instances@);
    }
    out
}

/// The derivation is deterministic: two instances with the same world
/// transform, seen by cameras with the same view, projection and viewport,
/// receive identical affine coefficients.
pub proof fn lemma_affine_derivation_deterministic(
    model1: Seq<int>,
    view1: Seq<int>,
    proj1: Seq<int>,
    w1: int,
    h1: int,
    model2: Seq<int>,
    view2: Seq<int>,
    proj2: Seq<int>,
    w2: int,
    h2: int,
)
    requires
        model1 == model2,
        view1 == view2,
        proj1 == proj2,
        w1 == w2,
        h1 == h2,
    ensures
        prepare_affine_v(model1, view1, proj1, w1, h1) == prepare_affine_v(
            model2,
            view2,
            proj2,
            w2,
            h2,
        ),
{
}

// Render ========================================

/// One prepared instance, queued for composition: its arrival position in
/// the render world, its extracted snapshot, and its prepared affine.
pub struct RenderEntry {
    /// The instance's position in the prepared set, before sorting: the
    /// secondary sort key that keeps the sort stable.
    pub order: usize,
    pub instance: ExtractedVelloSceneInstance,
    pub affine: PreparedAffine,
}

/// The depth an instance sits at: the Z translation of its world transform.
pub open spec fn depth_of(e: RenderEntry) -> int {
    e.instance.global_transform@[11]
}

/// The back-to-front queue order: ascending depth, ties broken by arrival
/// order, so that equal depths keep a deterministic, stable layering.
pub open spec fn entry_le(a: RenderEntry, b: RenderEntry) -> bool {
    depth_of(a) < depth_of(b) || (depth_of(a) == depth_of(b) && a.order <= b.order)
}

/// A queue sorted back-to-front.
pub open spec fn sorted_queue(s: Seq<RenderEntry>) -> bool {
    forall|i: int, j: int| 0 <= i < j < s.len() ==> entry_le(#[trigger] s[i], #[trigger] s[j])
}

/// An entry whose transform is well-formed.
pub open spec fn entry_wf(e: RenderEntry) -> bool {
    e.instance.global_transform.wf()
}

/// A queue of well-formed entries.
pub open spec fn entries_wf(s: Seq<RenderEntry>) -> bool {
    forall|i: int| 0 <= i < s.len() ==> entry_wf(#[trigger] s[i])
}

fn entry_le_exec(a: &RenderEntry, b: &RenderEntry) -> (r: bool)
    requires
        entry_wf(*a),
        entry_wf(*b),
    ensures
        r == entry_le(*a, *b),
{
    let da = a.instance.global_transform.entry(11);
    let db = b.instance.global_transform.entry(11);
    da < db || (da == db && a.order <= b.order)
}

/// Inserting an element anywhere in a sequence adds exactly it to the
/// sequence's multiset.
proof fn lemma_insert_to_multiset<T>(s: Seq<T>, pos: int, x: T)
    requires
        0 <= pos <= s.len(),
    ensures
        s.insert(pos, x).to_multiset() == s.to_multiset().insert(x),
{
    broadcast use vstd::multiset::group_multiset_axioms;

    let left = s.subrange(0, pos);
    let right = s.subrange(pos, s.len() as int);
    left.to_multiset_ensures();
    lemma_multiset_commutative(left.push(x), right);
    lemma_multiset_commutative(left, right);
    assert(s =~= left + right);
    assert(s.insert(pos, x) == left.push(x) + right);
    assert(s.insert(pos, x).to_multiset() =~= s.to_multiset().insert(x));
}

/// Depth sort of the render queue: an insertion sort whose result is the
/// unique permutation of the input that is sorted back-to-front with ties in
/// arrival order — a stable sort.
pub fn sort_render_queue(entries: Vec<RenderEntry>) -> (r: Vec<RenderEntry>)
    requires
        entries_wf(entries@),
    ensures
        r@.to_multiset() == entries@.to_multiset(),
        sorted_queue(r@),
        entries_wf(r@),
{
    let ghost orig = entries@;
    let mut entries = entries;
    let mut out: Vec<RenderEntry> = Vec::new();
    let ghost mut k: int = 0;
    proof {
        assert(orig.take(0) =~= out@);
    }
    while entries.len() > 0
        invariant
            0 <= k,
            k + entries@.len() == orig.len(),
            entries@ == orig.skip(k),
            entries_wf(orig),
            out@.to_multiset() == orig.take(k).to_multiset(),
            sorted_queue(out@),
            entries_wf(out@),
        decreases entries@.len(),
    {
        let x = entries.remove(0);
        proof {
            assert(orig.skip(k)[0] == orig[k]);
            assert(entry_wf(x));
            assert(orig.skip(k).remove(0) =~= orig.skip(k + 1));
        }
        let mut pos: usize = 0;
        while pos < out.len() && entry_le_exec(&out[pos], &x)
            invariant
                pos <= out@.len(),
                entry_wf(x),
                entries_wf(out@),
                sorted_queue(out@),
                forall|j: int| 0 <= j < pos ==> entry_le(#[trigger] out@[j], x),
            decreases out@.len() - pos,
        {
            pos += 1;
        }
        let ghost pre = out@;
        out.insert(pos, x);
        proof {
            lemma_insert_to_multiset(pre, pos as int, x);
            pre.insert_ensures(pos as int, x);
            assert(orig.take(k + 1).drop_last() =~= orig.take(k));
            assert(orig.take(k + 1) =~= orig.take(k).push(orig[k]));
            orig.take(k).to_multiset_ensures();
            assert(out@.to_multiset() == orig.take(k + 1).to_multiset());
            assert forall|a: int, b: int|
                0 <= a < b < out@.len() implies entry_le(out@[a], out@[b]) by {
                if b < pos {
                } else if b == pos {
                    assert(out@[a] == pre[a]);
                    assert(out@[b] == x);
                } else {
                    assert(out@[b] == pre[b - 1]);
                    if a < pos {
                        assert(out@[a] == pre[a]);
                        if a < b - 1 {
                        } else {
                            assert(a == b - 1);
                        }
                    } else if a == pos {
                        assert(out@[a] == x);
                        assert(!entry_le(pre[pos as int], x));
                        if pos < b - 1 {
                            assert(entry_le(pre[pos as int], pre[b - 1]));
                        }
                    } else {
                        assert(out@[a] == pre[a - 1]);
                    }
                }
            }
            assert forall|i: int| 0 <= i < out@.len() implies entry_wf(out@[i]) by {
                if i < pos {
                    assert(out@[i] == pre[i]);
                } else if i == pos {
                } else {
                    assert(out@[i] == pre[i - 1]);
                }
            }
            k = k + 1;
        }
    }
    proof {
        assert(orig.take(k) =~= orig);
    }
    out
}

/// In a sorted queue, an instance strictly shallower in depth stands
/// strictly before a deeper one: it is composited, and therefore drawn,
/// first.
pub proof fn lemma_depth_sort_monotone(q: Seq<RenderEntry>, i: int, j: int)
    requires
        sorted_queue(q),
        0 <= i < q.len(),
        0 <= j < q.len(),
        depth_of(q[i]) < depth_of(q[j]),
    ensures
        i < j,
{
    if j < i {
        assert(entry_le(q[j], q[i]));
    }
}

/// In a sorted queue, instances at equal depth keep their arrival order:
/// the sort is stable.
pub proof fn lemma_depth_sort_stable(q: Seq<RenderEntry>, i: int, j: int)
    requires
        sorted_queue(q),
        0 <= i < j < q.len(),
        depth_of(q[i]) == depth_of(q[j]),
    ensures
        q[i].order <= q[j].order,
{
    assert(entry_le(q[i], q[j]));
}

/// One appended document in the frame's aggregate scene: which scene asset,
/// under which affine.
#[derive(Clone, Copy, PartialEq, Eq, Structural, Debug)]
pub struct SceneItem {
    pub scene_handle: u64,
    pub affine: Affine,
}

/// The single scene composed each frame, in draw order: earlier items are
/// rasterized first and deeper.
pub struct AggregateScene {
    pub items: Vec<SceneItem>,
}

/// An RGBA color with 8-bit channels.
#[derive(Clone, Copy, PartialEq, Eq, Structural, Debug)]
pub struct Color {
    pub r: u8,
    pub g: u8,
    pub b: u8,
    pub a: u8,
}

/// The fully transparent background every render call clears the canvas to.
pub open spec fn transparent() -> Color {
    Color { r: 0, g: 0, b: 0, a: 0 }
}

/// The antialiasing methods the rasterizer offers.
#[derive(Clone, Copy, PartialEq, Eq, Structural, Debug)]
pub enum AaConfig {
    Area,
    Msaa8,
    Msaa16,
}

/// The parameters of one render-to-texture call.
#[derive(Clone, Copy, PartialEq, Eq, Structural, Debug)]
pub struct RenderParams {
    pub base_color: Color,
    pub width: u32,
    pub height: u32,
    pub antialiasing_method: AaConfig,
}

/// The composition of a sorted queue against the scene store: each entry
/// whose handle resolves contributes its scene under its affine, in queue
/// order; an unresolved handle is skipped for that instance alone.
pub open spec fn aggregate_spec(q: Seq<RenderEntry>, scenes: Seq<VelloScene>) -> Seq<SceneItem>
    decreases q.len(),
{
    if q.len() == 0 {
        Seq::empty()
    } else {
        let rest = aggregate_spec(q.drop_last(), scenes);
        let last = q.last();
        if 1 <= last.instance.scene_handle <= scenes.len() {
            rest.push(
                SceneItem { scene_handle: last.instance.scene_handle, affine: last.affine.0 },
            )
        } else {
            rest
        }
    }
}

/// Where in the aggregate scene the queue entry at `i` lands: the number of
/// entries before it whose handles resolve.
pub open spec fn composed_position(q: Seq<RenderEntry>, scenes: Seq<VelloScene>, i: int) -> int {
    aggregate_spec(q.take(i), scenes).len() as int
}

/// Extending the composed prefix by one queue entry appends its item when
/// the handle resolves, and nothing otherwise.
proof fn lemma_aggregate_take_step(q: Seq<RenderEntry>, scenes: Seq<VelloScene>, i: int)
    requires
        0 <= i < q.len(),
    ensures
        aggregate_spec(q.take(i + 1), scenes) == (if 1 <= q[i].instance.scene_handle
            <= scenes.len() {
            aggregate_spec(q.take(i), scenes).push(
                (SceneItem { scene_handle: q[i].instance.scene_handle, affine: q[i].affine.0 }),
            )
        } else {
            aggregate_spec(q.take(i), scenes)
        }),
{
    assert(q.take(i + 1).drop_last() =~= q.take(i));
    assert(q.take(i + 1).last() == q[i]);
}

/// Composed positions grow with the queue position.
proof fn lemma_composed_monotone(q: Seq<RenderEntry>, scenes: Seq<VelloScene>, a: int, b: int)
    requires
        0 <= a <= b <= q.len(),
    ensures
        composed_position(q, scenes, a) <= composed_position(q, scenes, b),
    decreases b - a,
{
    if a < b {
        lemma_aggregate_take_step(q, scenes, b - 1);
        lemma_composed_monotone(q, scenes, a, b - 1);
    }
}

/// The composition of a queue prefix is a prefix of the whole composition.
proof fn lemma_aggregate_take_prefix(q: Seq<RenderEntry>, scenes: Seq<VelloScene>, i: int)
    requires
        0 <= i <= q.len(),
    ensures
        composed_position(q, scenes, i) <= aggregate_spec(q, scenes).len(),
        aggregate_spec(q, scenes).take(composed_position(q, scenes, i)) == aggregate_spec(
            q.take(i),
            scenes,
        ),
    decreases q.len() - i,
{
    if i == q.len() {
        assert(q.take(i) =~= q);
        assert(aggregate_spec(q, scenes).take(composed_position(q, scenes, i)) =~= aggregate_spec(
            q,
            scenes,
        ));
    } else {
        lemma_aggregate_take_step(q, scenes, i);
        lemma_aggregate_take_prefix(q, scenes, i + 1);
        assert(aggregate_spec(q, scenes).take(composed_position(q, scenes, i)) =~= aggregate_spec(
            q.take(i),
            scenes,
        ));
    }
}

/// The full depth-order law, carried through composition: of two entries of
/// a sorted queue whose handles both resolve, the strictly shallower one is
/// appended to the aggregate scene strictly earlier — ascending Z is drawn
/// back to front.
pub proof fn lemma_composited_back_to_front(
    q: Seq<RenderEntry>,
    scenes: Seq<VelloScene>,
    i: int,
    j: int,
)
    requires
        sorted_queue(q),
        0 <= i < q.len(),
        0 <= j < q.len(),
        depth_of(q[i]) < depth_of(q[j]),
        1 <= q[i].instance.scene_handle <= scenes.len(),
        1 <= q[j].instance.scene_handle <= scenes.len(),
    ensures
        composed_position(q, scenes, i) < composed_position(q, scenes, j),
        aggregate_spec(q, scenes)[composed_position(q, scenes, i)] == (SceneItem {
            scene_handle: q[i].instance.scene_handle,
            affine: q[i].affine.0,
        }),
        aggregate_spec(q, scenes)[composed_position(q, scenes, j)] == (SceneItem {
            scene_handle: q[j].instance.scene_handle,
            affine: q[j].affine.0,
        }),
{
    lemma_depth_sort_monotone(q, i, j);
    lemma_aggregate_take_step(q, scenes, i);
    lemma_aggregate_take_step(q, scenes, j);
    lemma_composed_monotone(q, scenes, i + 1, j);
    lemma_composed_monotone(q, scenes, j + 1, q.len() as int);
    lemma_aggregate_take_prefix(q, scenes, i + 1);
    lemma_aggregate_take_prefix(q, scenes, j + 1);
    assert(q.take(q.len() as int) =~= q);
    assert(composed_position(q, scenes, q.len() as int) == aggregate_spec(q, scenes).len());
    let pos_i = composed_position(q, scenes, i);
    let pos_j = composed_position(q, scenes, j);
    assert(composed_position(q, scenes, i + 1) == pos_i + 1);
    assert(composed_position(q, scenes, j + 1) == pos_j + 1);
    assert(pos_j + 1 <= aggregate_spec(q, scenes).len());
    assert(aggregate_spec(q, scenes).take(pos_i + 1)[pos_i] == aggregate_spec(
        q.take(i + 1),
        scenes,
    )[pos_i]);
    assert(aggregate_spec(q, scenes).take(pos_j + 1)[pos_j] == aggregate_spec(
        q.take(j + 1),
        scenes,
    )[pos_j]);
    assert(aggregate_spec(q, scenes)[pos_i] == aggregate_spec(q, scenes).take(pos_i + 1)[pos_i]);
    assert(aggregate_spec(q, scenes)[pos_j] == aggregate_spec(q, scenes).take(pos_j + 1)[pos_j]);
}

/// The prepared pairs tagged with their arrival order: the queue before
/// sorting.
pub open spec fn with_order(pairs: Seq<(ExtractedVelloSceneInstance, PreparedAffine)>) -> Seq<
    RenderEntry,
> {
    Seq::new(
        pairs.len(),
        |i: int| RenderEntry { order: i as usize, instance: pairs[i].0, affine: pairs[i].1 },
    )
}

/// Prepared pairs with well-formed transforms.
pub open spec fn pairs_wf(pairs: Seq<(ExtractedVelloSceneInstance, PreparedAffine)>) -> bool {
    forall|i: int| 0 <= i < pairs.len() ==> (#[trigger] pairs[i]).0.global_transform.wf()
}

/// What one frame's render stage produced: the depth-sorted queue, the
/// aggregate scene composed from it, and the render-to-texture call to
/// submit — `None` when nothing must be drawn.
pub struct RenderOutput {
    pub queue: Vec<RenderEntry>,
    pub scene: AggregateScene,
    pub call: Option<RenderParams>,
}

/// Render stage: sorts the frame's prepared instances back-to-front, stably;
/// composes the resolvable ones into the aggregate scene in that order; and
/// decides the render call.  With no canvas image resolved on the GPU yet
/// the stage does nothing.  When the aggregate scene holds zero instances —
/// because none were prepared, or because no handle resolved — the render
/// call is skipped entirely and the canvas keeps its previous contents:
/// empty content never clears the frame.  Otherwise one call is owed,
/// clearing to the transparent background at the canvas's current
/// dimensions with area antialiasing.
pub fn render_scene(
    renderer: &mut VelloRenderer,
    pairs: Vec<(ExtractedVelloSceneInstance, PreparedAffine)>,
    scenes: &Assets<VelloScene>,
    canvas_image: Option<(u32, u32)>,
) -> (out: RenderOutput)
    requires
        pairs_wf(pairs@),
        old(renderer).frames_submitted < 0xffffffffffffffff,
    ensures
        canvas_image.is_none() ==> {
            &&& out.queue@ == Seq::<RenderEntry>::empty()
            &&& out.scene.items@ == Seq::<SceneItem>::empty()
            &&& out.call.is_none()
            &&& *final(renderer) == *old(renderer)
        },
        canvas_image.is_some() ==> {
            &&& out.queue@.to_multiset() == with_order(pairs@).to_multiset()
            &&& sorted_queue(out.queue@)
            &&& out.scene.items@ == aggregate_spec(out.queue@, scenes@)
            &&& (out.call.is_some() <==> out.scene.items@.len() > 0)
            &&& match out.call {
                Some(p) => p == (RenderParams {
                    base_color: transparent(),
                    width: canvas_image.unwrap().0,
                    height: canvas_image.unwrap().1,
                    antialiasing_method: AaConfig::Area,
                }) && final(renderer).frames_submitted == old(renderer).frames_submitted + 1,
                None => *final(renderer) == *old(renderer),
            }
        },
{
    let (cw, ch) = match canvas_image {
        Some(d) => d,
        None => {
            let empty_out = RenderOutput {
                queue: Vec::new(),
                scene: AggregateScene { items: Vec::new() },
                call: None,
            };
            proof {
                assert(empty_out.queue@ =~= Seq::<RenderEntry>::empty());
                assert(empty_out.scene.items@ =~= Seq::<SceneItem>::empty());
            }
            return empty_out;
        },
    };
    let n = pairs.len();
    let ghost origp = pairs@;
    let mut pairs = pairs;
    let mut entries: Vec<RenderEntry> = Vec::new();
    let mut idx: usize = 0;
    while pairs.len() > 0
        invariant
            n == origp.len(),
            idx + pairs@.len() == origp.len(),
            pairs@ == origp.skip(idx as int),
            pairs_wf(origp),
            entries@.len() == idx,
            forall|j: int| 0 <= j < idx ==> #[trigger] entries@[j] == with_order(origp)[j],
            entries_wf(entries@),
        decreases pairs@.len(),
    {
        let (inst, aff) = pairs.remove(0);
        proof {
            assert(origp.skip(idx as int)[0] == origp[idx as int]);
            assert(origp.skip(idx as int).remove(0) =~= origp.skip(idx as int + 1));
        }
        entries.push(RenderEntry { order: idx, instance: inst, affine: aff });
        idx += 1;
    }
    proof {
        assert(entries@ =~= with_order(origp));
    }
    let sorted = sort_render_queue(entries);
    let mut items: Vec<SceneItem> = Vec::new();
    let mut i: usize = 0;
    while i < sorted.len()
        invariant
            i <= sorted@.len(),
            items@ == aggregate_spec(sorted@.take(i as int), scenes@),
        decreases sorted@.len() - i,
    {
        proof {
            assert(sorted@.take(i as int + 1).drop_last() =~= sorted@.take(i as int));
            assert(sorted@.take(i as int + 1).last() == sorted@[i as int]);
        }
        let h = sorted[i].instance.scene_handle;
        let af = sorted[i].affine;
        if scenes.contains(h) {
            items.push(SceneItem { scene_handle: h, affine: af.0 });
        }
        i += 1;
    }
    proof {
        assert(sorted@.take(i as int) =~= sorted@);
    }
    let call = if items.len() > 0 {
        renderer.frames_submitted = renderer.frames_submitted + 1;
        Some(
            RenderParams {
                base_color: Color { r: 0, g: 0, b: 0, a: 0 },
                width: cw,
                height: ch,
                antialiasing_method: AaConfig::Area,
            },
        )
    } else {
        None
    };
    RenderOutput { queue: sorted, scene: AggregateScene { items }, call }
}

/// The preparations that succeed for a frame, keeping each instance beside
/// its derived coefficients: what the render stage composes from.
pub open spec fn prepared_pairs_spec(
    cam: ExtractedCameraView,
    s: Seq<(u64, ExtractedVelloSceneInstance)>,
) -> Seq<(ExtractedVelloSceneInstance, Seq<int>)>
    decreases s.len(),
{
    if s.len() == 0 {
        Seq::empty()
    } else {
        let rest = prepared_pairs_spec(cam, s.drop_last());
        let last = s.last();
        let vp = cam.physical_viewport_size.unwrap();
        match prepare_affine_v(
            last.1.global_transform@,
            cam.view_transform@,
            cam.projection@,
            vp.0 as int,
            vp.1 as int,
        ) {
            Some(aff) => rest.push((last.1, aff)),
            None => rest,
        }
    }
}

/// The pairs a frame renders: the successful preparations of the extracted
/// instances under the one active camera, or nothing when no single camera
/// exists.
pub open spec fn frame_pairs_spec(
    cameras: Seq<ExtractedCameraView>,
    world: Seq<(u64, VelloSceneBundle)>,
) -> Seq<(ExtractedVelloSceneInstance, Seq<int>)> {
    if cameras.len() == 1 {
        prepared_pairs_spec(cameras[0], extract_spec(world))
    } else {
        Seq::empty()
    }
}

/// The frame driver: runs Extract, Prepare and Render in their one legal
/// order over a snapshot of the world.  The queue it returns is pinned
/// completely: it holds exactly the frame's prepared instances, its arrival
/// orders are distinct, and it is sorted back-to-front — the unique stable
/// depth sort of the prepared pairs.  The render call is owed exactly when a
/// canvas image is resolved and the aggregate scene holds at least one
/// instance; an aggregate with zero instances never triggers a call, and
/// the canvas keeps its previous contents.
pub fn run_frame(
    renderer: &mut VelloRenderer,
    world: Vec<(u64, VelloSceneBundle)>,
    cameras: &Vec<ExtractedCameraView>,
    scenes: &Assets<VelloScene>,
    canvas_image: Option<(u32, u32)>,
) -> (out: RenderOutput)
    requires
        forall|i: int| 0 <= i < world@.len() ==> (#[trigger] world@[i]).1.global_transform.wf(),
        forall|i: int| 0 <= i < cameras@.len() ==> camera_wf(#[trigger] cameras@[i]),
        cameras@.len() == 1 ==> cameras@[0].physical_viewport_size.is_some(),
        old(renderer).frames_submitted < 0xffffffffffffffff,
    ensures
        canvas_image.is_none() ==> {
            &&& out.queue@ == Seq::<RenderEntry>::empty()
            &&& out.scene.items@ == Seq::<SceneItem>::empty()
            &&& out.call.is_none()
            &&& *final(renderer) == *old(renderer)
        },
        canvas_image.is_some() ==> ({
            let pp = frame_pairs_spec(cameras@, world@);
            &&& out.queue@.len() == pp.len()
            &&& sorted_queue(out.queue@)
            &&& forall|j: int|
                0 <= j < out.queue@.len() ==> exists|p: int|
                    0 <= p < pp.len() && (#[trigger] out.queue@[j]).order == p
                        && out.queue@[j].instance == pp[p].0 && out.queue@[j].affine.0@ == pp[p].1
            &&& forall|j1: int, j2: int|
                0 <= j1 < j2 < out.queue@.len() ==> (#[trigger] out.queue@[j1]).order != (
                #[trigger] out.queue@[j2]).order
            &&& out.scene.items@ == aggregate_spec(out.queue@, scenes@)
            &&& (out.call.is_some() <==> out.scene.items@.len() > 0)
            &&& match out.call {
                Some(p) => p == (RenderParams {
                    base_color: transparent(),
                    width: canvas_image.unwrap().0,
                    height: canvas_image.unwrap().1,
                    antialiasing_method: AaConfig::Area,
                }) && final(renderer).frames_submitted == old(renderer).frames_submitted + 1,
                None => *final(renderer) == *old(renderer),
            }
        }),
{
    let ghost worldv = world@;
    let instances = extract_fragment_instances(world);
    proof {
        assert forall|j: int|
            0 <= j < instances@.len() implies (#[trigger] instances@[j]).1.global_transform.wf() by {
            let i = lemma_extracted_from_world(worldv, j);
        }
    }
    let mut pairs: Vec<(ExtractedVelloSceneInstance, PreparedAffine)> = Vec::new();
    if cameras.len() == 1 {
        let camera = &cameras[0];
        let ghost insts = instances@;
        let mut instances = instances;
        let ghost mut k: int = 0;
        while instances.len() > 0
            invariant
                0 <= k,
                k + instances@.len() == insts.len(),
                instances@ == insts.skip(k),
                camera == cameras@[0],
                camera_wf(*camera),
                camera.physical_viewport_size.is_some(),
                forall|p: int|
                    0 <= p < insts.len() ==> (#[trigger] insts[p]).1.global_transform.wf(),
                pairs@.len() == prepared_pairs_spec(*camera, insts.take(k)).len(),
                forall|j: int|
                    0 <= j < pairs@.len() ==> (#[trigger] pairs@[j]).0 == prepared_pairs_spec(
                        *camera,
                        insts.take(k),
                    )[j].0 && pairs@[j].1.0@ == prepared_pairs_spec(*camera, insts.take(k))[j].1,
            decreases instances@.len(),
        {
            let (_entity, inst) = instances.remove(0);
            proof {
                assert(insts.skip(k)[0] == insts[k]);
                assert(insts.skip(k).remove(0) =~= insts.skip(k + 1));
                assert(insts.take(k + 1).drop_last() =~= insts.take(k));
                assert(insts.take(k + 1).last() == insts[k]);
            }
            match prepare_affine(camera, &inst.global_transform) {
                Some(aff) => {
                    pairs.push((inst, PreparedAffine(aff)));
                },
                None => {},
            }
            proof {
                k = k + 1;
            }
        }
        proof {
            assert(insts.take(k) =~= insts);
        }
    }
    let ghost pp = frame_pairs_spec(cameras@, worldv);
    proof {
        assert(pairs@.len() == pp.len());
        assert(pairs_wf(pairs@)) by {
            assert forall|i: int|
                0 <= i < pairs@.len() implies (#[trigger] pairs@[i]).0.global_transform.wf() by {
                assert(pairs@[i].0 == pp[i].0);
                lemma_prepared_pairs_wf(cameras@[0], extract_spec(worldv), i);
            }
        }
    }
    let n_pairs = pairs.len();
    let out = render_scene(renderer, pairs, scenes, canvas_image);
    proof {
        if canvas_image.is_some() {
            let q = out.queue@;
            let wo = with_order(pairs@);
            q.to_multiset_ensures();
            wo.to_multiset_ensures();
            assert(q.len() == wo.len());
            assert(wo.len() == n_pairs as int);
            assert forall|a: int, b: int| 0 <= a < b < wo.len() implies wo[a] != wo[b] by {
                assert(a as usize as int == a && b as usize as int == b);
                assert(wo[a].order == a && wo[b].order == b);
            }
            wo.lemma_multiset_has_no_duplicates();
            q.lemma_multiset_has_no_duplicates_conv();
            assert forall|j: int|
                0 <= j < q.len() implies exists|p: int|
                    0 <= p < pp.len() && (#[trigger] q[j]).order == p && q[j].instance == pp[p].0
                        && q[j].affine.0@ == pp[p].1 by {
                assert(q.contains(q[j]));
                assert(wo.to_multiset().count(q[j]) > 0);
                assert(wo.contains(q[j]));
                let p = choose|p: int| 0 <= p < wo.len() && wo[p] == q[j];
                assert(p as usize as int == p);
                assert(wo[p].order == p);
                assert(q[j].instance == pairs@[p].0 && q[j].affine == pairs@[p].1);
                assert(0 <= p < pp.len() && q[j].order == p && q[j].instance == pp[p].0
                    && q[j].affine.0@ == pp[p].1);
            }
            assert forall|j1: int, j2: int|
                0 <= j1 < j2 < q.len() implies (#[trigger] q[j1]).order != (
            #[trigger] q[j2]).order by {
                if q[j1].order == q[j2].order {
                    assert(q.contains(q[j1]));
                    assert(q.contains(q[j2]));
                    assert(wo.to_multiset().count(q[j1]) > 0);
                    assert(wo.to_multiset().count(q[j2]) > 0);
                    assert(wo.contains(q[j1]));
                    assert(wo.contains(q[j2]));
                    let p1 = choose|p: int| 0 <= p < wo.len() && wo[p] == q[j1];
                    let p2 = choose|p: int| 0 <= p < wo.len() && wo[p] == q[j2];
                    assert(p1 as usize as int == p1 && p2 as usize as int == p2);
                    assert(wo[p1].order == p1 && wo[p2].order == p2);
                    assert(p1 == p2);
                    assert(q[j1] == q[j2]);
                }
            }
        }
    }
    out
}

/// Every prepared pair carries a well-formed transform: it is one of the
/// extracted instances' transforms.
proof fn lemma_prepared_pairs_wf(
    cam: ExtractedCameraView,
    s: Seq<(u64, ExtractedVelloSceneInstance)>,
    i: int,
)
    requires
        forall|p: int| 0 <= p < s.len() ==> (#[trigger] s[p]).1.global_transform.wf(),
        0 <= i < prepared_pairs_spec(cam, s).len(),
    ensures
        prepared_pairs_spec(cam, s)[i].0.global_transform.wf(),
    decreases s.len(),
{
    if s.len() == 0 {
    } else {
        let rest = prepared_pairs_spec(cam, s.drop_last());
        if i < rest.len() {
            lemma_prepared_pairs_wf(cam, s.drop_last(), i);
        }
    }
}

} // verus!
