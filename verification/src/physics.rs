//! The physics bridge: attaches rigid bodies to instance transforms, pushes
//! render-side position edits into the solver, and pulls solved poses back
//! out after each step.
//!
//! The solver itself is a collaborator.  The bridge hands the host plain
//! body commands (`BodyInit`, `BodyWrite`) and takes plain solved states
//! (`BodyState`) back; positions cross the boundary scaled by
//! `PHYSICS_DIVISOR`.  A handle is never dereferenced without re-validating
//! its indices: stale handles are skipped, never dropped.

use vstd::prelude::*;
use crate::game::{Game, PhysicsHandle};
use crate::types::{PhysicsType, Quaternion, RenderItem, Transform, Vector3, PHYSICS_DIVISOR, POS_LIMIT};

verus! {

/// A body the host must create in the solver: a box collider of the given
/// half extents, density one, at a physics-space position; pinned bodies are
/// never moved by the solver but still collide.
#[derive(Clone, Copy, Debug, PartialEq, Eq)]
pub struct BodyInit {
    /// The body's identity towards the bridge.
    pub body: usize,
    /// True for a pinned (static) body, false for a free (dynamic) one.
    pub pinned: bool,
    /// Position in physics space.
    pub pos: Vector3,
    /// Half extents of the box collider, from the instance's scale.
    pub half_extents: Vector3,
}

/// A translation the host must write to one body before stepping the solver.
#[derive(Clone, Copy, Debug, PartialEq, Eq)]
pub struct BodyWrite {
    /// The body's identity towards the bridge.
    pub body: usize,
    /// Position in physics space.
    pub pos: Vector3,
}

/// One body's pose as the solver reports it after a step.  The host hands
/// the bridge one state per body, in body order.
#[derive(Clone, Copy, Debug, PartialEq, Eq)]
pub struct BodyState {
    /// The body's identity towards the bridge.
    pub body: usize,
    /// Solved position in physics space.
    pub pos: Vector3,
    /// Solved rotation.
    pub rot: Quaternion,
}

/// A render-space position, scaled into physics space.
pub open spec fn to_physics(v: Vector3) -> Vector3 {
    Vector3 {
        x: (v.x * PHYSICS_DIVISOR) as i32,
        y: (v.y * PHYSICS_DIVISOR) as i32,
        z: (v.z * PHYSICS_DIVISOR) as i32,
    }
}

/// Division truncating towards zero, as the hardware divides.
pub open spec fn div_towards_zero(c: int, d: int) -> int {
    if c >= 0 {
        c / d
    } else {
        -((-c) / d)
    }
}

/// Every component is small enough to scale back into render space without
/// leaving the position range.
pub open spec fn in_solver_range(v: Vector3) -> bool {
    &&& -2 * POS_LIMIT - 1 <= v.x <= 2 * POS_LIMIT + 1
    &&& -2 * POS_LIMIT - 1 <= v.y <= 2 * POS_LIMIT + 1
    &&& -2 * POS_LIMIT - 1 <= v.z <= 2 * POS_LIMIT + 1
}

/// A physics-space position, scaled back into render space.
pub open spec fn from_physics(v: Vector3) -> Vector3 {
    Vector3 {
        x: div_towards_zero(v.x as int, PHYSICS_DIVISOR as int) as i32,
        y: div_towards_zero(v.y as int, PHYSICS_DIVISOR as int) as i32,
        z: div_towards_zero(v.z as int, PHYSICS_DIVISOR as int) as i32,
    }
}

fn halve(c: i32) -> (out: i32)
    requires
        -2 * POS_LIMIT - 1 <= c <= 2 * POS_LIMIT + 1,
    ensures
        out == div_towards_zero(c as int, PHYSICS_DIVISOR as int),
        -POS_LIMIT <= out <= POS_LIMIT,
{
    if c >= 0 {
        c / 2
    } else {
        -((-c) / 2)
    }
}

/// Scaling a render-space position into physics space and back returns it
/// unchanged.
pub proof fn lemma_physics_round_trip(v: Vector3)
    requires
        v.in_pos_range(),
    ensures
        from_physics(to_physics(v)) == v,
{
    vstd::arithmetic::div_mod::lemma_div_multiples_vanish(v.x as int, 2);
    vstd::arithmetic::div_mod::lemma_div_multiples_vanish(-(v.x as int), 2);
    vstd::arithmetic::div_mod::lemma_div_multiples_vanish(v.y as int, 2);
    vstd::arithmetic::div_mod::lemma_div_multiples_vanish(-(v.y as int), 2);
    vstd::arithmetic::div_mod::lemma_div_multiples_vanish(v.z as int, 2);
    vstd::arithmetic::div_mod::lemma_div_multiples_vanish(-(v.z as int), 2);
}

/// What attaching item `i` does to the handle list and which bodies it asks
/// the host to create: one body per instance snapshot when the item has
/// physics, none at all when `physics_type` is `Off`.
pub open spec fn attach_effect(
    old_handles: Seq<PhysicsHandle>,
    item: RenderItem,
    i: int,
    new_handles: Seq<PhysicsHandle>,
    cmds: Seq<BodyInit>,
) -> bool {
    if item.physics_type is Off {
        new_handles == old_handles && cmds.len() == 0
    } else {
        let n = old_handles.len() as int;
        let m = item.instance_transforms@.len() as int;
        &&& new_handles.len() == n + m
        &&& forall|k: int| 0 <= k < n ==> #[trigger] new_handles[k] == old_handles[k]
        &&& forall|j: int|
            0 <= j < m ==> #[trigger] new_handles[n + j] == (PhysicsHandle {
                render_item: (i as usize, j as usize),
                body_handle: (n + j) as usize,
            })
        &&& cmds.len() == m
        &&& forall|j: int|
            0 <= j < m ==> #[trigger] cmds[j] == (BodyInit {
                body: (n + j) as usize,
                pinned: item.physics_type is Static,
                pos: to_physics(item.instance_transforms@[j].pos),
                half_extents: item.instance_transforms@[j].scale,
            })
    }
}

/// The handle's target still resolves to a live instance transform.
pub open spec fn handle_live(items: Seq<RenderItem>, h: PhysicsHandle) -> bool {
    h.render_item.0 < items.len() && h.render_item.1
        < items[h.render_item.0 as int].instance_transforms@.len()
}

/// The position of the transform a live handle drives.
pub open spec fn target_pos(items: Seq<RenderItem>, h: PhysicsHandle) -> Vector3 {
    items[h.render_item.0 as int].instance_transforms@[h.render_item.1 as int].pos
}

/// The body writes of one solver sync: one write per handle among the first
/// `n` whose target is still live, in handle order, carrying the target's
/// position scaled into physics space.
pub open spec fn sync_writes(
    items: Seq<RenderItem>,
    handles: Seq<PhysicsHandle>,
    n: int,
) -> Seq<BodyWrite>
    decreases n,
{
    if n <= 0 {
        Seq::empty()
    } else {
        let rest = sync_writes(items, handles, n - 1);
        let h = handles[n - 1];
        if handle_live(items, h) {
            rest.push(BodyWrite { body: h.body_handle, pos: to_physics(target_pos(items, h)) })
        } else {
            rest
        }
    }
}

/// The per-item transform lists of a scene.
pub open spec fn transforms_of(items: Seq<RenderItem>) -> Seq<Seq<Transform>> {
    items.map_values(|it: RenderItem| it.instance_transforms@)
}

/// The handle's target indices fall inside the transform lists.
pub open spec fn target_live(tss: Seq<Seq<Transform>>, h: PhysicsHandle) -> bool {
    h.render_item.0 < tss.len() && h.render_item.1 < tss[h.render_item.0 as int].len()
}

/// A transform overwritten by one solved body state: position scaled back
/// into render space, rotation taken as solved, the rest kept.
pub open spec fn solved_transform(t: Transform, s: BodyState) -> Transform {
    Transform { pos: from_physics(s.pos), rot: s.rot, ..t }
}

/// The transform lists after the write-back of one solver step applies the
/// first `n` handles in order: each live handle overwrites its target from
/// its body's solved state, each stale handle is skipped.
pub open spec fn write_back(
    tss: Seq<Seq<Transform>>,
    handles: Seq<PhysicsHandle>,
    solved: Seq<BodyState>,
    n: int,
) -> Seq<Seq<Transform>>
    decreases n,
{
    if n <= 0 {
        tss
    } else {
        let prev = write_back(tss, handles, solved, n - 1);
        let h = handles[n - 1];
        if target_live(prev, h) {
            let ri = h.render_item.0 as int;
            let tj = h.render_item.1 as int;
            prev.update(ri, prev[ri].update(tj, solved_transform(prev[ri][tj], solved[n - 1])))
        } else {
            prev
        }
    }
}

/// Write-back never changes how many items or instances there are.
pub proof fn lemma_write_back_shape(
    tss: Seq<Seq<Transform>>,
    handles: Seq<PhysicsHandle>,
    solved: Seq<BodyState>,
    n: int,
)
    ensures
        write_back(tss, handles, solved, n).len() == tss.len(),
        forall|i: int|
            0 <= i < tss.len() ==> #[trigger] write_back(tss, handles, solved, n)[i].len()
                == tss[i].len(),
    decreases n,
{
    if n > 0 {
        lemma_write_back_shape(tss, handles, solved, n - 1);
    }
}

impl Game {
    /// Attaches physics to the render item at `i`, snapshotting its instance
    /// transforms: one box body per instance for a `Static` (pinned) or
    /// `Dynamic` (free) item, none for `Off`.  Returns the bodies the host
    /// must create in the solver; the bridge records one handle per body.
    pub fn add_physics(&mut self, i: usize) -> (out: Vec<BodyInit>)
        requires
            old(self).wf(),
            i < old(self).render_items@.len(),
        ensures
            *final(self) == (Game { physics_items: final(self).physics_items, ..*old(self) }),
            attach_effect(
                old(self).physics_items@,
                old(self).render_items@[i as int],
                i as int,
                final(self).physics_items@,
                out@,
            ),
            final(self).wf(),
    {
        let mut out: Vec<BodyInit> = Vec::new();
        let pinned: bool;
        match self.render_items[i].physics_type {
            PhysicsType::Off => {
                return out;
            },
            PhysicsType::Static => {
                pinned = true;
            },
            PhysicsType::Dynamic => {
                pinned = false;
            },
        }
        let n = self.physics_items.len();
        let m = self.render_items[i].instance_transforms.len();
        let mut j: usize = 0;
        while j < m
            invariant
                old(self).wf(),
                i < old(self).render_items@.len(),
                *self == (Game { physics_items: self.physics_items, ..*old(self) }),
                n == old(self).physics_items@.len(),
                m == old(self).render_items@[i as int].instance_transforms@.len(),
                j <= m,
                !(old(self).render_items@[i as int].physics_type is Off),
                pinned == old(self).render_items@[i as int].physics_type is Static,
                self.physics_items@.len() == n + j,
                forall|k: int|
                    0 <= k < n ==> #[trigger] self.physics_items@[k] == old(
                        self,
                    ).physics_items@[k],
                forall|q: int|
                    0 <= q < j ==> #[trigger] self.physics_items@[n + q] == (PhysicsHandle {
                        render_item: (i, q as usize),
                        body_handle: (n + q) as usize,
                    }),
                out@.len() == j,
                forall|q: int|
                    0 <= q < j ==> #[trigger] out@[q] == (BodyInit {
                        body: (n + q) as usize,
                        pinned: old(self).render_items@[i as int].physics_type is Static,
                        pos: to_physics(
                            old(self).render_items@[i as int].instance_transforms@[q].pos,
                        ),
                        half_extents: old(self).render_items@[i as int].instance_transforms@[q].scale,
                    }),
            decreases m - j,
        {
            let t = self.render_items[i].instance_transforms[j];
            proof {
                assert(old(self).render_items@[i as int].valid());
                assert(t.valid());
            }
            let body = self.physics_items.len();
            let pos = Vector3 {
                x: t.pos.x * PHYSICS_DIVISOR,
                y: t.pos.y * PHYSICS_DIVISOR,
                z: t.pos.z * PHYSICS_DIVISOR,
            };
            out.push(BodyInit { body, pinned, pos, half_extents: t.scale });
            self.physics_items.push(PhysicsHandle { render_item: (i, j), body_handle: body });
            j = j + 1;
        }
        let total = self.physics_items.len();
        proof {
            assert forall|k: int|
                0 <= k < self.physics_items@.len() implies (#[trigger] self.physics_items@[k]).body_handle
                == k by {
                assert(k < total);
                if k >= n {
                    let q = k - n;
                    assert(0 <= q < j);
                    assert(self.physics_items@[n + q] == (PhysicsHandle {
                        render_item: (i, q as usize),
                        body_handle: (n + q) as usize,
                    }));
                    assert(self.physics_items@[k].body_handle == (n + q) as usize);
                    assert(n + q == k);
                    assert((n + q) as usize == k);
                }
            }
        }
        out
    }

    /// Adds a render item to the game and attaches its physics: the moment
    /// of attachment snapshots the item's instance transforms, so instances
    /// added later get no bodies.
    pub fn add_render_item(&mut self, render_item: RenderItem) -> (out: Vec<BodyInit>)
        requires
            old(self).wf(),
            render_item.valid(),
        ensures
            final(self).render_items@ == old(self).render_items@.push(render_item),
            *final(self) == (Game {
                render_items: final(self).render_items,
                physics_items: final(self).physics_items,
                ..*old(self)
            }),
            attach_effect(
                old(self).physics_items@,
                render_item,
                old(self).render_items@.len() as int,
                final(self).physics_items@,
                out@,
            ),
            final(self).wf(),
    {
        self.render_items.push(render_item);
        let i = self.render_items.len() - 1;
        self.add_physics(i)
    }

    /// Pushes every live handle's current transform position into the
    /// solver, scaled into physics space, so that render-side edits move
    /// bodies before the next step.  Stale handles are skipped.
    pub fn sync_to_solver(&self) -> (out: Vec<BodyWrite>)
        requires
            self.wf(),
        ensures
            out@ == sync_writes(
                self.render_items@,
                self.physics_items@,
                self.physics_items@.len() as int,
            ),
    {
        let mut out: Vec<BodyWrite> = Vec::new();
        let mut k: usize = 0;
        while k < self.physics_items.len()
            invariant
                self.wf(),
                k <= self.physics_items@.len(),
                out@ == sync_writes(self.render_items@, self.physics_items@, k as int),
            decreases self.physics_items@.len() - k,
        {
            let h = self.physics_items[k];
            let (ri, tj) = h.render_item;
            if ri < self.render_items.len() && tj < self.render_items[ri].instance_transforms.len() {
                let t = self.render_items[ri].instance_transforms[tj];
                proof {
                    assert(self.render_items@[ri as int].valid());
                    assert(t.valid());
                }
                let pos = Vector3 {
                    x: t.pos.x * PHYSICS_DIVISOR,
                    y: t.pos.y * PHYSICS_DIVISOR,
                    z: t.pos.z * PHYSICS_DIVISOR,
                };
                out.push(BodyWrite { body: h.body_handle, pos });
            }
            k = k + 1;
        }
        out
    }

    /// Writes the solved poses back into the scene after a solver step: for
    /// every handle whose target still resolves, the target transform takes
    /// the solved position (scaled back into render space) and the solved
    /// rotation.  Stale handles are skipped, never dereferenced.  The host
    /// hands one state per body, in body order.
    pub fn sync_from_solver(&mut self, solved: &Vec<BodyState>)
        requires
            old(self).wf(),
            solved@.len() == old(self).physics_items@.len(),
            forall|k: int| 0 <= k < solved@.len() ==> in_solver_range((#[trigger] solved@[k]).pos),
        ensures
            *final(self) == (Game { render_items: final(self).render_items, ..*old(self) }),
            final(self).render_items@.len() == old(self).render_items@.len(),
            forall|i: int|
                0 <= i < old(self).render_items@.len() ==> #[trigger] final(self).render_items@[i]
                    == (RenderItem {
                    instance_transforms: final(self).render_items@[i].instance_transforms,
                    ..old(self).render_items@[i]
                }),
            transforms_of(final(self).render_items@) == write_back(
                transforms_of(old(self).render_items@),
                old(self).physics_items@,
                solved@,
                old(self).physics_items@.len() as int,
            ),
            final(self).wf(),
    {
        let ghost tss0 = transforms_of(old(self).render_items@);
        let mut k: usize = 0;
        while k < self.physics_items.len()
            invariant
                old(self).wf(),
                solved@.len() == old(self).physics_items@.len(),
                forall|q: int|
                    0 <= q < solved@.len() ==> in_solver_range((#[trigger] solved@[q]).pos),
                tss0 == transforms_of(old(self).render_items@),
                k <= self.physics_items@.len(),
                *self == (Game { render_items: self.render_items, ..*old(self) }),
                self.render_items@.len() == old(self).render_items@.len(),
                forall|i: int|
                    0 <= i < old(self).render_items@.len() ==> #[trigger] self.render_items@[i]
                        == (RenderItem {
                        instance_transforms: self.render_items@[i].instance_transforms,
                        ..old(self).render_items@[i]
                    }),
                transforms_of(self.render_items@) == write_back(
                    tss0,
                    old(self).physics_items@,
                    solved@,
                    k as int,
                ),
                self.wf(),
            decreases self.physics_items@.len() - k,
        {
            let ghost prev = transforms_of(self.render_items@);
            let h = self.physics_items[k];
            let (ri, tj) = h.render_item;
            if ri < self.render_items.len() && tj < self.render_items[ri].instance_transforms.len() {
                let s = solved[k];
                let cur = self.render_items[ri].instance_transforms[tj];
                let t = Transform {
                    pos: Vector3 { x: halve(s.pos.x), y: halve(s.pos.y), z: halve(s.pos.z) },
                    rot: s.rot,
                    ..cur
                };
                self.render_items[ri].instance_transforms[tj] = t;
                proof {
                    assert(t == solved_transform(prev[ri as int][tj as int], solved@[k as int]));
                    assert(transforms_of(self.render_items@) =~= prev.update(
                        ri as int,
                        prev[ri as int].update(
                            tj as int,
                            solved_transform(prev[ri as int][tj as int], solved@[k as int]),
                        ),
                    ));
                    assert(self.render_items@[ri as int].valid());
                }
            } else {
                proof {
                    assert(transforms_of(self.render_items@) == write_back(
                        tss0,
                        old(self).physics_items@,
                        solved@,
                        k + 1,
                    ));
                }
            }
            k = k + 1;
        }
    }
}

/// The sync round trip: pushing positions into the solver and writing the
/// same poses straight back (as a step with zero gravity and no contacts
/// returns them) leaves every instance position unchanged.
pub proof fn lemma_sync_round_trip(
    items: Seq<RenderItem>,
    handles: Seq<PhysicsHandle>,
    solved: Seq<BodyState>,
)
    requires
        forall|i: int| 0 <= i < items.len() ==> (#[trigger] items[i]).valid(),
        solved.len() == handles.len(),
        forall|k: int|
            0 <= k < handles.len() && handle_live(items, #[trigger] handles[k]) ==> solved[k].pos
                == to_physics(target_pos(items, handles[k])),
    ensures
        ({
            let result = write_back(transforms_of(items), handles, solved, handles.len() as int);
            forall|i: int, j: int|
                0 <= i < items.len() && 0 <= j < items[i].instance_transforms@.len()
                    ==> (#[trigger] result[i][j]).pos == items[i].instance_transforms@[j].pos
        }),
{
    lemma_round_trip_prefix(items, handles, solved, handles.len() as int);
}

proof fn lemma_round_trip_prefix(
    items: Seq<RenderItem>,
    handles: Seq<PhysicsHandle>,
    solved: Seq<BodyState>,
    n: int,
)
    requires
        forall|i: int| 0 <= i < items.len() ==> (#[trigger] items[i]).valid(),
        solved.len() == handles.len(),
        n <= handles.len(),
        forall|k: int|
            0 <= k < handles.len() && handle_live(items, #[trigger] handles[k]) ==> solved[k].pos
                == to_physics(target_pos(items, handles[k])),
    ensures
        ({
            let result = write_back(transforms_of(items), handles, solved, n);
            forall|i: int, j: int|
                0 <= i < items.len() && 0 <= j < items[i].instance_transforms@.len()
                    ==> (#[trigger] result[i][j]).pos == items[i].instance_transforms@[j].pos
        }),
    decreases n,
{
    let tss = transforms_of(items);
    if n > 0 {
        lemma_round_trip_prefix(items, handles, solved, n - 1);
        lemma_write_back_shape(tss, handles, solved, n - 1);
        let prev = write_back(tss, handles, solved, n - 1);
        let h = handles[n - 1];
        if target_live(prev, h) {
            let ri = h.render_item.0 as int;
            let tj = h.render_item.1 as int;
            assert(handle_live(items, h));
            assert(items[ri].valid());
            assert(items[ri].instance_transforms@[tj].valid());
            lemma_physics_round_trip(items[ri].instance_transforms@[tj].pos);
            assert(prev[ri][tj].pos == items[ri].instance_transforms@[tj].pos);
        }
    }
}

/// Stale handles have no effect: when no handle resolves any more, the
/// write-back of a step leaves the scene's transforms untouched.
pub proof fn lemma_stale_handles_skipped(
    tss: Seq<Seq<Transform>>,
    handles: Seq<PhysicsHandle>,
    solved: Seq<BodyState>,
    n: int,
)
    requires
        n <= handles.len(),
        forall|k: int| 0 <= k < handles.len() ==> !target_live(tss, #[trigger] handles[k]),
    ensures
        write_back(tss, handles, solved, n) == tss,
    decreases n,
{
    if n > 0 {
        lemma_stale_handles_skipped(tss, handles, solved, n - 1);
        assert(!target_live(tss, handles[n - 1]));
    }
}

} // verus!
