//! The render state: lighting, frame statistics, capture bookkeeping, and the
//! per-frame draw plan.
//!
//! The GPU itself is a collaborator: the host owns the window and the GL
//! context, executes the plan this module builds, and reports plain values
//! (framebuffer size, pixels read back) into it.

use vstd::prelude::*;
use crate::culling::{cull, cull_spec};
use crate::lighting::Lighting;
use crate::math::{get_frustum_planes, lemma_mul_bound, mat_bounded, mul_mat4, product_entry, Mat4, Plane, MAT_LIMIT};
use crate::types::{Camera, RenderItem, ShaderIn, TextItem, FP_ONE};

verus! {

/// Declares the frame counter of the `fps_counter` crate, held opaquely.
#[verifier::external_type_specification]
#[verifier::external_body]
pub struct ExFPSCounter(fps_counter::FPSCounter);

/// Relies on `fps_counter::FPSCounter::new`: a fresh counter with no
/// recorded frames.
#[verifier::external_body]
fn new_fps_counter() -> fps_counter::FPSCounter {
    fps_counter::FPSCounter::new()
}

/// Relies on `fps_counter::FPSCounter::tick`: records this frame and returns
/// how many frames the trailing second holds.  The result depends on the
/// clock; the counter always holds at least the frame just recorded.
#[verifier::external_body]
fn fps_tick(counter: &mut fps_counter::FPSCounter) -> (out: usize)
    ensures
        out >= 1,
{
    counter.tick()
}

/// The render state.
pub struct Renderer {
    /// Tracks how many frames finished in the trailing second.
    pub fps_counter: fps_counter::FPSCounter,
    /// The frames per second measured when the last frame finished.
    pub fps: usize,
    /// The path of the animated-capture file being appended to, if any.
    pub gif_path: Option<String>,
    /// The lighting system.
    pub lighting: Lighting,
    /// The number of instances drawn in the last planned frame.
    pub render_count: usize,
    /// Whether to display the engine editor overlay.
    pub show_editor: bool,
}

impl Renderer {
    /// The lighting buffer is consistent with its light list.
    pub open spec fn wf(&self) -> bool {
        self.lighting.wf()
    }

    /// Creates a new render state: no lights, no frames drawn, no capture in
    /// progress, editor hidden.
    pub fn new() -> (out: Renderer)
        ensures
            out.fps == 0,
            out.lighting.lights().len() == 0,
            out.render_count == 0,
            !out.show_editor,
            out.gif_path is None,
            out.wf(),
    {
        Renderer {
            fps_counter: new_fps_counter(),
            fps: 0,
            gif_path: None,
            lighting: Lighting::new(),
            render_count: 0,
            show_editor: false,
        }
    }

    /// Records one finished frame and stores the measured rate.  Called by
    /// the host once a frame is presented; the rate depends on the clock, so
    /// nothing more than its positivity is promised.
    pub fn update_fps(&mut self)
        ensures
            final(self).fps >= 1,
            final(self).gif_path == old(self).gif_path,
            final(self).lighting == old(self).lighting,
            final(self).render_count == old(self).render_count,
            final(self).show_editor == old(self).show_editor,
    {
        let fps = fps_tick(&mut self.fps_counter);
        self.fps = fps;
    }

    /// True when appending a capture frame to `path` must first open a fresh
    /// file with a fresh encoder: either no capture is in progress, or the
    /// one in progress writes to another path.
    pub fn gif_needs_new_file(&self, path: &String) -> (out: bool)
        ensures
            out == match self.gif_path {
                Some(p) => p@ != path@,
                None => true,
            },
    {
        match &self.gif_path {
            Some(p) => !(*p == *path),
            None => true,
        }
    }

    /// Records that a capture frame was appended at `path`.
    pub fn set_gif_target(&mut self, path: String)
        ensures
            final(self).gif_path == Some(path),
            final(self).fps == old(self).fps,
            final(self).lighting == old(self).lighting,
            final(self).render_count == old(self).render_count,
            final(self).show_editor == old(self).show_editor,
    {
        self.gif_path = Some(path);
    }
}

/// The byte sequence of an RGBA image with its rows in reverse order: row
/// `r` of the result is row `h - 1 - r` of `data`.
pub open spec fn flipped_rows(data: Seq<u8>, w: int, h: int) -> Seq<u8> {
    Seq::new(
        data.len(),
        |k: int|
            {
                let rb: int = 4 * w;
                let row = k / rb;
                let col = k % rb;
                data[(h - 1 - row) * rb + col]
            },
    )
}

/// Reverses the row order of a tightly packed RGBA image, as a read-back
/// framebuffer must be before it is written to a screenshot or a capture
/// frame.
pub fn flip_rows_vertical(data: &Vec<u8>, w: usize, h: usize) -> (out: Vec<u8>)
    requires
        w <= 0x3fff_ffff,
        data@.len() == 4 * w * h,
    ensures
        out@ == flipped_rows(data@, w as int, h as int),
{
    let rb: usize = 4 * w;
    let mut out: Vec<u8> = Vec::new();
    let mut k: usize = 0;
    while k < data.len()
        invariant
            data@.len() == 4 * w * h,
            rb == 4 * w,
            k <= data@.len(),
            out@.len() == k,
            forall|j: int| 0 <= j < k ==> out@[j] == flipped_rows(data@, w as int, h as int)[j],
        decreases data@.len() - k,
    {
        let row = k / rb;
        let col = k % rb;
        proof {
            assert(h * rb == 4 * w * h) by (nonlinear_arith)
                requires
                    rb == 4 * w,
            ;
            assert(h > 0) by (nonlinear_arith)
                requires
                    0 <= k < h * rb,
                    rb >= 0,
            ;
            vstd::arithmetic::div_mod::lemma_fundamental_div_mod(k as int, rb as int);
            assert(row < h) by (nonlinear_arith)
                requires
                    rb * row + col == k,
                    0 <= col,
                    k < h * rb,
                    rb > 0,
                    row >= 0,
            ;
            assert((h - 1 - row) * rb + col < h * rb) by (nonlinear_arith)
                requires
                    0 <= row < h,
                    0 <= col < rb,
            ;
            assert((h - 1 - row) * rb >= 0) by (nonlinear_arith)
                requires
                    0 <= row < h,
                    rb > 0,
            ;
        }
        let src = (h - 1 - row) * rb + col;
        out.push(data[src]);
        k = k + 1;
    }
    proof {
        assert(out@ =~= flipped_rows(data@, w as int, h as int));
    }
    out
}


/// Frustum plane `i` of the combined projection-view product, written over
/// the product's entries.
pub open spec fn combo_plane(a: Mat4, b: Mat4, i: int) -> Plane {
    let r = i / 2;
    if i % 2 == 0 {
        Plane {
            a: (product_entry(a, b, 0, 3) + product_entry(a, b, 0, r)) as i64,
            b: (product_entry(a, b, 1, 3) + product_entry(a, b, 1, r)) as i64,
            c: (product_entry(a, b, 2, 3) + product_entry(a, b, 2, r)) as i64,
            d: (product_entry(a, b, 3, 3) + product_entry(a, b, 3, r)) as i64,
        }
    } else {
        Plane {
            a: (product_entry(a, b, 0, 3) - product_entry(a, b, 0, r)) as i64,
            b: (product_entry(a, b, 1, 3) - product_entry(a, b, 1, r)) as i64,
            c: (product_entry(a, b, 2, 3) - product_entry(a, b, 2, r)) as i64,
            d: (product_entry(a, b, 3, 3) - product_entry(a, b, 3, r)) as i64,
        }
    }
}

/// The six frustum planes one camera's view matrix yields under the shared
/// projection.
pub open spec fn cam_planes(proj: Mat4, view: Mat4) -> Seq<Plane> {
    Seq::new(6, |i: int| combo_plane(proj, view, i))
}

/// The instances the first `n` render items contribute to one camera's
/// pass: the culled count of every active item.
pub open spec fn visible_count(items: Seq<RenderItem>, planes: Seq<Plane>, n: int) -> int
    decreases n,
{
    if n <= 0 {
        0
    } else {
        visible_count(items, planes, n - 1) + if items[n - 1].active {
            cull_spec(items[n - 1].instance_transforms@, planes).len() as int
        } else {
            0
        }
    }
}

/// The instances drawn in one frame across the first `c` cameras.
pub open spec fn frame_count(items: Seq<RenderItem>, proj: Mat4, views: Seq<Mat4>, c: int) -> int
    decreases c,
{
    if c <= 0 {
        0
    } else {
        frame_count(items, proj, views, c - 1) + visible_count(
            items,
            cam_planes(proj, views[c - 1]),
            items.len() as int,
        )
    }
}

proof fn lemma_visible_count_le(items: Seq<RenderItem>, planes: Seq<Plane>, n: int, m: int)
    requires
        n <= m,
    ensures
        visible_count(items, planes, n) <= visible_count(items, planes, m),
    decreases m,
{
    if m > 0 && n < m {
        lemma_visible_count_le(items, planes, n, m - 1);
    }
}

proof fn lemma_visible_count_nonneg(items: Seq<RenderItem>, planes: Seq<Plane>, n: int)
    ensures
        visible_count(items, planes, n) >= 0,
    decreases n,
{
    if n > 0 {
        lemma_visible_count_nonneg(items, planes, n - 1);
    }
}

proof fn lemma_frame_count_le(items: Seq<RenderItem>, proj: Mat4, views: Seq<Mat4>, c: int, d: int)
    requires
        c <= d,
    ensures
        frame_count(items, proj, views, c) <= frame_count(items, proj, views, d),
    decreases d,
{
    if d > 0 && c < d {
        lemma_frame_count_le(items, proj, views, c, d - 1);
        lemma_visible_count_nonneg(items, cam_planes(proj, views[d - 1]), items.len() as int);
    }
}

/// The texture bound for a material: a missing name falls back to the
/// default texture, never a hard failure.
pub open spec fn texture_or_default(name: Option<String>) -> Seq<char> {
    match name {
        Some(n) => n@,
        None => "default"@,
    }
}

/// The normal-map texture bound for a material, with its own default.
pub open spec fn normal_texture_or_default(name: Option<String>) -> Seq<char> {
    match name {
        Some(n) => n@,
        None => "default_normal"@,
    }
}

/// One instanced draw call: one render item drawn into one camera's target.
pub struct InstanceBatch {
    /// Index of the camera whose target this batch is drawn into.
    pub cam: usize,
    /// Index of the render item; the host caches the item's static vertex
    /// buffer under this index, uploading it once per item lifetime.
    pub item: usize,
    /// Name of the shader program to bind.
    pub shader_name: String,
    /// Name of the texture to bind, default already applied.
    pub texture_name: String,
    /// Name of the normal-map texture to bind, default already applied.
    pub normal_texture_name: String,
    /// The fresh per-frame instance buffer: the culled, packed transforms.
    pub instances: Vec<ShaderIn>,
}

/// A batch is exactly what the pipeline owes one camera for one item.
pub open spec fn batch_wf(
    b: InstanceBatch,
    items: Seq<RenderItem>,
    proj: Mat4,
    views: Seq<Mat4>,
) -> bool {
    &&& b.cam < views.len()
    &&& b.item < items.len()
    &&& items[b.item as int].active
    &&& b.instances@ == cull_spec(
        items[b.item as int].instance_transforms@,
        cam_planes(proj, views[b.cam as int]),
    )
    &&& b.instances@.len() > 0
    &&& b.shader_name == items[b.item as int].material.shader_name
    &&& b.texture_name@ == texture_or_default(items[b.item as int].material.texture_name)
    &&& b.normal_texture_name@ == normal_texture_or_default(
        items[b.item as int].material.normal_texture_name,
    )
}

/// Some batch draws item `i` into camera `c`'s target.
pub open spec fn has_batch(bs: Seq<InstanceBatch>, c: int, i: int) -> bool {
    exists|k: int| 0 <= k < bs.len() && (#[trigger] bs[k]).cam == c && bs[k].item == i
}

proof fn lemma_has_batch_push(bs: Seq<InstanceBatch>, b: InstanceBatch, c: int, i: int)
    requires
        has_batch(bs, c, i),
    ensures
        has_batch(bs.push(b), c, i),
{
    let k = choose|k: int| 0 <= k < bs.len() && (#[trigger] bs[k]).cam == c && bs[k].item == i;
    assert(bs.push(b)[k].cam == c && bs.push(b)[k].item == i);
}

/// One text overlay draw: a billboard transform for one text item, as exact
/// rationals.  Every entry of the transform is `numerator / den`: the matrix
/// diagonal is (`m00`, `m11`, `m22`, `den`) and its translation row is
/// (`tx`, `ty`, `tz`, `den`), so `m11` already carries the aspect ratio.
#[derive(Clone, Copy, Debug, PartialEq, Eq, Structural)]
pub struct TextDraw {
    /// Index of the text item to lay out; its text mesh is regenerated from
    /// the string every frame.
    pub index: usize,
    pub m00: i64,
    pub m11: i64,
    pub m22: i64,
    pub tx: i64,
    pub ty: i64,
    pub tz: i64,
    /// The common positive denominator.
    pub den: i64,
}

/// The billboard transform of one text item: scale times two hundredths,
/// the vertical axis corrected by the aspect ratio `w / h`, translated to
/// the item's position.
pub open spec fn text_draw_of(item: TextItem, index: int, w: int, h: int) -> TextDraw {
    TextDraw {
        index: index as usize,
        m00: (2 * item.scale.x * h) as i64,
        m11: (2 * item.scale.y * w) as i64,
        m22: (2 * item.scale.z * h) as i64,
        tx: (100 * h * item.pos.x) as i64,
        ty: (100 * h * item.pos.y) as i64,
        tz: (100 * h * item.pos.z) as i64,
        den: (100 * h * FP_ONE) as i64,
    }
}

/// The text draws of one frame: one per active text item, in item order.
pub open spec fn text_draws_spec(items: Seq<TextItem>, w: int, h: int, n: int) -> Seq<TextDraw>
    decreases n,
{
    if n <= 0 {
        Seq::empty()
    } else {
        let rest = text_draws_spec(items, w, h, n - 1);
        if items[n - 1].active {
            rest.push(text_draw_of(items[n - 1], n - 1, w, h))
        } else {
            rest
        }
    }
}

/// Largest framebuffer edge the text layout accepts.
pub const MAX_FRAME_EDGE: u32 = 16384;

fn text_draw(item: &TextItem, index: usize, w: u32, h: u32) -> (out: TextDraw)
    requires
        1 <= h <= MAX_FRAME_EDGE,
        w <= MAX_FRAME_EDGE,
    ensures
        out == text_draw_of(*item, index as int, w as int, h as int),
{
    proof {
        lemma_mul_bound(2 * item.scale.x as int, h as int, 0x1_0000_0000, 0x4000);
        lemma_mul_bound(2 * item.scale.y as int, w as int, 0x1_0000_0000, 0x4000);
        lemma_mul_bound(2 * item.scale.z as int, h as int, 0x1_0000_0000, 0x4000);
        lemma_mul_bound(100 * h as int, item.pos.x as int, 0x20_0000, 0x8000_0000);
        lemma_mul_bound(100 * h as int, item.pos.y as int, 0x20_0000, 0x8000_0000);
        lemma_mul_bound(100 * h as int, item.pos.z as int, 0x20_0000, 0x8000_0000);
        lemma_mul_bound(100 * h as int, FP_ONE as int, 0x20_0000, 0x400);
    }
    TextDraw {
        index,
        m00: 2 * (item.scale.x as i64) * (h as i64),
        m11: 2 * (item.scale.y as i64) * (w as i64),
        m22: 2 * (item.scale.z as i64) * (h as i64),
        tx: 100 * (h as i64) * (item.pos.x as i64),
        ty: 100 * (h as i64) * (item.pos.y as i64),
        tz: 100 * (h as i64) * (item.pos.z as i64),
        den: 100 * (h as i64) * (FP_ONE as i64),
    }
}

/// Everything the host must draw for one frame: the per-camera instance
/// batches of the scene pass, the camera target each composite slot samples,
/// and the text overlay draws.
pub struct FramePlan {
    /// The instanced draw calls, ordered by camera, then by item.
    pub batches: Vec<InstanceBatch>,
    /// The text overlay draws, one per active text item, in item order.
    pub text_draws: Vec<TextDraw>,
    /// For each of the six composite shader slots, the index of the camera
    /// target it samples; slots beyond the camera count reuse camera zero's.
    pub composite_sources: Vec<usize>,
    /// How many instances the scene pass draws, across all cameras.
    pub render_count: usize,
}

impl Renderer {
    /// Plans one frame, strictly in pass order: per camera, derive the
    /// frustum from the shared projection and that camera's view matrix,
    /// cull every active item and emit one instanced batch per item that
    /// keeps at least one instance; then fix the composite pass inputs; then
    /// lay out the active text overlays.  Records how many instances the
    /// frame draws.
    pub fn build_frame(
        &mut self,
        cams: &Vec<Camera>,
        render_items: &Vec<RenderItem>,
        text_items: &Vec<TextItem>,
        proj: &Mat4,
        views: &Vec<Mat4>,
        width: u32,
        height: u32,
    ) -> (plan: FramePlan)
        requires
            1 <= cams@.len() <= 6,
            views@.len() == cams@.len(),
            mat_bounded(*proj, MAT_LIMIT as int),
            forall|c: int| 0 <= c < views@.len() ==> mat_bounded(#[trigger] views@[c], MAT_LIMIT as int),
            1 <= height <= MAX_FRAME_EDGE,
            width <= MAX_FRAME_EDGE,
            frame_count(render_items@, *proj, views@, cams@.len() as int) <= usize::MAX,
            old(self).wf(),
        ensures
            *final(self) == (Renderer { render_count: plan.render_count, ..*old(self) }),
            final(self).wf(),
            plan.render_count == frame_count(render_items@, *proj, views@, cams@.len() as int),
            plan.composite_sources@.len() == 6,
            forall|s: int|
                0 <= s < 6 ==> #[trigger] plan.composite_sources@[s] == if s < cams@.len() {
                    s
                } else {
                    0
                },
            plan.text_draws@ == text_draws_spec(
                text_items@,
                width as int,
                height as int,
                text_items@.len() as int,
            ),
            forall|k: int|
                0 <= k < plan.batches@.len() ==> batch_wf(
                    #[trigger] plan.batches@[k],
                    render_items@,
                    *proj,
                    views@,
                ),
            forall|k1: int, k2: int|
                #![trigger plan.batches@[k1], plan.batches@[k2]]
                0 <= k1 < k2 < plan.batches@.len() ==> plan.batches@[k1].cam < plan.batches@[k2].cam
                    || (plan.batches@[k1].cam == plan.batches@[k2].cam && plan.batches@[k1].item
                    < plan.batches@[k2].item),
            forall|c: int, i: int|
                0 <= c < cams@.len() && 0 <= i < render_items@.len() && render_items@[i].active
                    && cull_spec(
                    render_items@[i].instance_transforms@,
                    cam_planes(*proj, views@[c]),
                ).len() > 0 ==> #[trigger] has_batch(plan.batches@, c, i),
    {
        let mut batches: Vec<InstanceBatch> = Vec::new();
        let mut render_count: usize = 0;
        let n_cams = cams.len();
        let n_items = render_items.len();
        let mut c: usize = 0;
        while c < n_cams
            invariant
                1 <= n_cams == cams@.len() <= 6,
                views@.len() == n_cams,
                n_items == render_items@.len(),
                mat_bounded(*proj, MAT_LIMIT as int),
                forall|q: int|
                    0 <= q < views@.len() ==> mat_bounded(#[trigger] views@[q], MAT_LIMIT as int),
                frame_count(render_items@, *proj, views@, n_cams as int) <= usize::MAX,
                c <= n_cams,
                render_count == frame_count(render_items@, *proj, views@, c as int),
                forall|k: int|
                    0 <= k < batches@.len() ==> batch_wf(
                        #[trigger] batches@[k],
                        render_items@,
                        *proj,
                        views@,
                    ),
                forall|k: int| 0 <= k < batches@.len() ==> (#[trigger] batches@[k]).cam < c,
                forall|k1: int, k2: int|
                    #![trigger batches@[k1], batches@[k2]]
                    0 <= k1 < k2 < batches@.len() ==> batches@[k1].cam < batches@[k2].cam || (
                    batches@[k1].cam == batches@[k2].cam && batches@[k1].item < batches@[k2].item),
                forall|q: int, i: int|
                    0 <= q < c && 0 <= i < render_items@.len() && render_items@[i].active
                        && cull_spec(
                        render_items@[i].instance_transforms@,
                        cam_planes(*proj, views@[q]),
                    ).len() > 0 ==> #[trigger] has_batch(batches@, q, i),
            decreases n_cams - c,
        {
            let combo = mul_mat4(proj, &views[c]);
            let planes = get_frustum_planes(&combo);
            proof {
                assert forall|p: int| 0 <= p < 6 implies planes@[p] == cam_planes(
                    *proj,
                    views@[c as int],
                )[p] by {
                    assert(planes@[p] == planes[p]);
                }
                assert(planes@ =~= cam_planes(*proj, views@[c as int]));
            }
            let mut i: usize = 0;
            while i < n_items
                invariant
                    1 <= n_cams == cams@.len() <= 6,
                    views@.len() == n_cams,
                    n_items == render_items@.len(),
                    mat_bounded(*proj, MAT_LIMIT as int),
                    forall|q: int|
                        0 <= q < views@.len() ==> mat_bounded(#[trigger] views@[q], MAT_LIMIT as int),
                    frame_count(render_items@, *proj, views@, n_cams as int) <= usize::MAX,
                    c < n_cams,
                    i <= n_items,
                    planes@ == cam_planes(*proj, views@[c as int]),
                    render_count == frame_count(render_items@, *proj, views@, c as int)
                        + visible_count(render_items@, planes@, i as int),
                    forall|k: int|
                        0 <= k < batches@.len() ==> batch_wf(
                            #[trigger] batches@[k],
                            render_items@,
                            *proj,
                            views@,
                        ),
                    forall|k: int|
                        0 <= k < batches@.len() ==> (#[trigger] batches@[k]).cam < c || (
                        batches@[k].cam == c && batches@[k].item < i),
                    forall|k1: int, k2: int|
                        #![trigger batches@[k1], batches@[k2]]
                        0 <= k1 < k2 < batches@.len() ==> batches@[k1].cam < batches@[k2].cam || (
                        batches@[k1].cam == batches@[k2].cam && batches@[k1].item
                            < batches@[k2].item),
                    forall|q: int, j: int|
                        0 <= q < c && 0 <= j < render_items@.len() && render_items@[j].active
                            && cull_spec(
                            render_items@[j].instance_transforms@,
                            cam_planes(*proj, views@[q]),
                        ).len() > 0 ==> #[trigger] has_batch(batches@, q, j),
                    forall|j: int|
                        0 <= j < i && render_items@[j].active && cull_spec(
                            render_items@[j].instance_transforms@,
                            cam_planes(*proj, views@[c as int]),
                        ).len() > 0 ==> #[trigger] has_batch(batches@, c as int, j),
                decreases n_items - i,
            {
                let item = &render_items[i];
                if item.active && item.instance_transforms.len() > 0 {
                    let instances = cull(&item.instance_transforms, &planes);
                    if instances.len() > 0 {
                        proof {
                            lemma_visible_count_le(render_items@, planes@, i + 1, n_items as int);
                            lemma_frame_count_le(
                                render_items@,
                                *proj,
                                views@,
                                c + 1,
                                n_cams as int,
                            );
                        }
                        render_count = render_count + instances.len();
                        let texture_name = match &item.material.texture_name {
                            Some(n) => n.clone(),
                            None => "default".to_owned(),
                        };
                        let normal_texture_name = match &item.material.normal_texture_name {
                            Some(n) => n.clone(),
                            None => "default_normal".to_owned(),
                        };
                        let ghost before = batches@;
                        let batch = InstanceBatch {
                            cam: c,
                            item: i,
                            shader_name: item.material.shader_name.clone(),
                            texture_name,
                            normal_texture_name,
                            instances,
                        };
                        batches.push(batch);
                        proof {
                            assert forall|q: int, j: int|
                                0 <= q < c && 0 <= j < render_items@.len()
                                    && render_items@[j].active && cull_spec(
                                    render_items@[j].instance_transforms@,
                                    cam_planes(*proj, views@[q]),
                                ).len() > 0 implies #[trigger] has_batch(batches@, q, j) by {
                                lemma_has_batch_push(before, batch, q, j);
                            }
                            assert forall|j: int|
                                0 <= j < i + 1 && render_items@[j].active && cull_spec(
                                    render_items@[j].instance_transforms@,
                                    cam_planes(*proj, views@[c as int]),
                                ).len() > 0 implies #[trigger] has_batch(
                                batches@,
                                c as int,
                                j,
                            ) by {
                                if j < i {
                                    lemma_has_batch_push(before, batch, c as int, j);
                                } else {
                                    assert(batches@[batches@.len() - 1].cam == c as int);
                                }
                            }
                        }
                    }
                }
                i = i + 1;
            }
            c = c + 1;
        }
        let mut composite_sources: Vec<usize> = Vec::new();
        let mut s: usize = 0;
        while s < 6
            invariant
                s <= 6,
                n_cams == cams@.len(),
                composite_sources@.len() == s,
                forall|q: int|
                    0 <= q < s ==> #[trigger] composite_sources@[q] == if q < cams@.len() {
                        q
                    } else {
                        0
                    },
            decreases 6 - s,
        {
            if s < n_cams {
                composite_sources.push(s);
            } else {
                composite_sources.push(0);
            }
            s = s + 1;
        }
        let mut text_draws: Vec<TextDraw> = Vec::new();
        let mut t: usize = 0;
        while t < text_items.len()
            invariant
                1 <= height <= MAX_FRAME_EDGE,
                width <= MAX_FRAME_EDGE,
                t <= text_items@.len(),
                text_draws@ == text_draws_spec(
                    text_items@,
                    width as int,
                    height as int,
                    t as int,
                ),
            decreases text_items@.len() - t,
        {
            if text_items[t].active {
                let draw = text_draw(&text_items[t], t, width, height);
                text_draws.push(draw);
            }
            t = t + 1;
        }
        self.render_count = render_count;
        FramePlan { batches, text_draws, composite_sources, render_count }
    }
}

} // verus!
