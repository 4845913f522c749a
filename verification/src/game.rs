//! The game state and the frame orchestrator.
//!
//! A `Game` owns the scene store (render items, text items, cameras), the
//! physics bridge bookkeeping and the render state.  The host drives one tick
//! in this order: ingest input, `sync_to_solver`, step the solver,
//! `sync_from_solver`, run the user callback, build and execute the frame
//! plan, then `update` to record the tick's wall-clock delta.  The loop ends
//! the tick a callback returns `UpdateStatus::Finish`.

use vstd::prelude::*;
use crate::renderer::Renderer;
use crate::types::{Camera, RenderItem, TextItem, Transform, Vector3};

verus! {

/// What the user update callback tells the loop to do next.
#[derive(Clone, Copy, Debug, PartialEq, Eq, Structural)]
pub enum UpdateStatus {
    /// Continue to the next tick.
    Continue,
    /// Finish: shut the engine down at this tick boundary.
    Finish,
}

/// Associates one physics body with the instance transform it drives: a
/// non-owning back-reference that is re-validated before every dereference.
#[derive(Clone, Copy, Debug, PartialEq, Eq)]
pub struct PhysicsHandle {
    /// `(render item index, instance index)` of the driven transform.
    pub render_item: (usize, usize),
    /// The body's identity towards the solver.
    pub body_handle: usize,
}

/// The engine state: all systems and items of one running game.
pub struct Game {
    /// The render state.
    pub renderer: Renderer,
    /// The cameras; each renders into its own target.
    pub cams: Vec<Camera>,
    /// All mesh items to be rendered.
    pub render_items: Vec<RenderItem>,
    /// All text items to be rendered.
    pub text_items: Vec<TextItem>,
    /// The body handles of the physics bridge.  Never compacted: a handle
    /// whose target was removed goes stale and is skipped, not dropped.
    pub physics_items: Vec<PhysicsHandle>,
    /// Wall-clock duration of the previous tick, in nanoseconds.
    pub delta: u64,
}

/// One tick is a sixtieth of a second, in nanoseconds.
pub const TICK_NANOS: u64 = 16_666_667;

impl Game {
    /// Every instance transform is in range for the physics bridge, every
    /// body handle carries its creation index as identity, and the lighting
    /// buffer is consistent.
    pub open spec fn wf(&self) -> bool {
        &&& forall|i: int|
            0 <= i < self.render_items@.len() ==> (#[trigger] self.render_items@[i]).valid()
        &&& forall|k: int|
            0 <= k < self.physics_items@.len() ==> (#[trigger] self.physics_items@[k]).body_handle
                == k
        &&& self.renderer.wf()
    }

    /// Creates a new game: one camera at the origin, an empty scene, no
    /// bodies, and a tick's worth of delta.
    pub fn new() -> (out: Game)
        ensures
            out.cams@.len() == 1,
            out.cams@[0] == (Camera {
                pos: Vector3 { x: 0, y: 0, z: 0 },
                euler_rot: Vector3 { x: 0, y: 0, z: 0 },
            }),
            out.render_items@.len() == 0,
            out.text_items@.len() == 0,
            out.physics_items@.len() == 0,
            out.delta == TICK_NANOS,
            out.renderer.render_count == 0,
            out.renderer.lighting.lights().len() == 0,
            out.wf(),
    {
        let cam = Camera {
            pos: Vector3 { x: 0, y: 0, z: 0 },
            euler_rot: Vector3 { x: 0, y: 0, z: 0 },
        };
        let mut cams: Vec<Camera> = Vec::new();
        cams.push(cam);
        Game {
            renderer: Renderer::new(),
            cams,
            render_items: Vec::new(),
            text_items: Vec::new(),
            physics_items: Vec::new(),
            delta: TICK_NANOS,
        }
    }

    /// The number of render items.
    pub fn render_items_len(&self) -> (out: usize)
        ensures
            out == self.render_items@.len(),
    {
        self.render_items.len()
    }

    /// A reference to the render item at `index`.
    pub fn get_render_item(&self, index: usize) -> (out: &RenderItem)
        requires
            index < self.render_items@.len(),
        ensures
            *out == self.render_items@[index as int],
    {
        &self.render_items[index]
    }

    /// The index of the first render item named `name`, or `None` when no
    /// item has that name.
    pub fn get_render_item_by_name(&self, name: &str) -> (out: Option<usize>)
        ensures
            match out {
                Some(i) => i < self.render_items@.len() && self.render_items@[i as int].name@
                    == name@ && forall|k: int|
                    0 <= k < i ==> (#[trigger] self.render_items@[k]).name@ != name@,
                None => forall|k: int|
                    0 <= k < self.render_items@.len() ==> (#[trigger] self.render_items@[k]).name@
                        != name@,
            },
    {
        let name_owned = name.to_owned();
        let mut i: usize = 0;
        while i < self.render_items.len()
            invariant
                i <= self.render_items@.len(),
                name_owned@ == name@,
                forall|k: int| 0 <= k < i ==> (#[trigger] self.render_items@[k]).name@ != name@,
            decreases self.render_items@.len() - i,
        {
            if self.render_items[i].name == name_owned {
                return Some(i);
            }
            i = i + 1;
        }
        None
    }

    /// Replaces the transform of one instance.  The physics bridge will push
    /// the new position into the solver on the next `sync_to_solver`.
    pub fn set_instance_transform(&mut self, index: usize, instance: usize, t: Transform)
        requires
            index < old(self).render_items@.len(),
            instance < old(self).render_items@[index as int].instance_transforms@.len(),
            t.valid(),
            old(self).wf(),
        ensures
            final(self).render_items@ == old(self).render_items@.update(
                index as int,
                RenderItem {
                    instance_transforms: final(self).render_items@[index as int].instance_transforms,
                    ..old(self).render_items@[index as int]
                },
            ),
            final(self).render_items@[index as int].instance_transforms@ == old(
                self,
            ).render_items@[index as int].instance_transforms@.update(instance as int, t),
            *final(self) == (Game { render_items: final(self).render_items, ..*old(self) }),
            final(self).wf(),
    {
        self.render_items[index].instance_transforms[instance] = t;
        proof {
            assert(final(self).render_items@[index as int].valid());
        }
    }

    /// Appends one instance transform to a render item.  Bodies are attached
    /// only when an item is added: the new instance gets none.
    pub fn add_instance_transform(&mut self, index: usize, t: Transform)
        requires
            index < old(self).render_items@.len(),
            t.valid(),
            old(self).wf(),
        ensures
            final(self).render_items@ == old(self).render_items@.update(
                index as int,
                RenderItem {
                    instance_transforms: final(self).render_items@[index as int].instance_transforms,
                    ..old(self).render_items@[index as int]
                },
            ),
            final(self).render_items@[index as int].instance_transforms@ == old(
                self,
            ).render_items@[index as int].instance_transforms@.push(t),
            final(self).physics_items == old(self).physics_items,
            *final(self) == (Game { render_items: final(self).render_items, ..*old(self) }),
            final(self).wf(),
    {
        self.render_items[index].instance_transforms.push(t);
        proof {
            assert(final(self).render_items@[index as int].valid());
        }
    }

    /// Sets whether a render item is drawn.
    pub fn set_render_item_active(&mut self, index: usize, active: bool)
        requires
            index < old(self).render_items@.len(),
            old(self).wf(),
        ensures
            final(self).render_items@ == old(self).render_items@.update(
                index as int,
                RenderItem { active, ..old(self).render_items@[index as int] },
            ),
            *final(self) == (Game { render_items: final(self).render_items, ..*old(self) }),
            final(self).wf(),
    {
        self.render_items[index].active = active;
    }

    /// Removes the render item at `index`.  The physics handles that point
    /// at it are not removed: they go stale and every later dereference
    /// re-validates and skips them.
    pub fn remove_render_item(&mut self, index: usize) -> (out: RenderItem)
        requires
            index < old(self).render_items@.len(),
            old(self).wf(),
        ensures
            out == old(self).render_items@[index as int],
            final(self).render_items@ == old(self).render_items@.remove(index as int),
            final(self).physics_items == old(self).physics_items,
            *final(self) == (Game { render_items: final(self).render_items, ..*old(self) }),
            final(self).wf(),
    {
        self.render_items.remove(index)
    }

    /// The number of text items.
    pub fn text_items_len(&self) -> (out: usize)
        ensures
            out == self.text_items@.len(),
    {
        self.text_items.len()
    }

    /// A reference to the text item at `index`.
    pub fn get_text_item(&self, index: usize) -> (out: &TextItem)
        requires
            index < self.text_items@.len(),
        ensures
            *out == self.text_items@[index as int],
    {
        &self.text_items[index]
    }

    /// The index of the first text item named `name`, or `None` when no text
    /// item has that name.
    pub fn get_text_item_by_name(&self, name: String) -> (out: Option<usize>)
        ensures
            match out {
                Some(i) => i < self.text_items@.len() && self.text_items@[i as int].name@ == name@
                    && forall|k: int|
                    0 <= k < i ==> (#[trigger] self.text_items@[k]).name@ != name@,
                None => forall|k: int|
                    0 <= k < self.text_items@.len() ==> (#[trigger] self.text_items@[k]).name@
                        != name@,
            },
    {
        let mut i: usize = 0;
        while i < self.text_items.len()
            invariant
                i <= self.text_items@.len(),
                forall|k: int| 0 <= k < i ==> (#[trigger] self.text_items@[k]).name@ != name@,
            decreases self.text_items@.len() - i,
        {
            if self.text_items[i].name == name {
                return Some(i);
            }
            i = i + 1;
        }
        None
    }

    /// Adds a text item to the game.
    pub fn add_text_item(&mut self, text_item: TextItem)
        requires
            old(self).wf(),
        ensures
            final(self).text_items@ == old(self).text_items@.push(text_item),
            *final(self) == (Game { text_items: final(self).text_items, ..*old(self) }),
            final(self).wf(),
    {
        self.text_items.push(text_item);
    }

    /// Replaces the text item at `index`.
    pub fn set_text_item(&mut self, index: usize, text_item: TextItem)
        requires
            index < old(self).text_items@.len(),
            old(self).wf(),
        ensures
            final(self).text_items@ == old(self).text_items@.update(index as int, text_item),
            *final(self) == (Game { text_items: final(self).text_items, ..*old(self) }),
            final(self).wf(),
    {
        self.text_items[index] = text_item;
    }

    /// The number of physics handles ever recorded.
    pub fn physics_items_len(&self) -> (out: usize)
        ensures
            out == self.physics_items@.len(),
    {
        self.physics_items.len()
    }

    /// The physics handle at `index`.
    pub fn get_physics_item(&self, index: usize) -> (out: PhysicsHandle)
        requires
            index < self.physics_items@.len(),
        ensures
            out == self.physics_items@[index as int],
    {
        self.physics_items[index]
    }

    /// Closes one tick: records how long it took, and passes the user
    /// callback's verdict on to the loop.  The host calls this last, after
    /// input ingestion, the physics phases, the user callback and the frame
    /// plan were run in that order.
    pub fn update(&mut self, status: UpdateStatus, frame_nanos: u64) -> (out: UpdateStatus)
        ensures
            final(self).delta == frame_nanos,
            *final(self) == (Game { delta: frame_nanos, ..*old(self) }),
            out == status,
    {
        self.delta = frame_nanos;
        status
    }
}

impl Default for Game {
    /// A default game: exactly what `Game::new` builds.
    fn default() -> (out: Self)
        ensures
            out.cams@.len() == 1,
            out.render_items@.len() == 0,
            out.text_items@.len() == 0,
            out.physics_items@.len() == 0,
            out.delta == TICK_NANOS,
            out.wf(),
    {
        Game::new()
    }
}

/// What the host's event pump hands the loop on one wakeup.
#[derive(Clone, Copy, Debug, PartialEq, Eq, Structural)]
pub enum LoopEvent {
    /// A new-events wakeup because the loop just started.
    WakeInit,
    /// A new-events wakeup because the tick timer was reached.
    WakeResumeTimeReached,
    /// A new-events wakeup for any other cause.
    WakeOther,
    /// Any other event, to be buffered for the next callback run.
    Incoming,
}

/// What the loop does with one wakeup.
#[derive(Clone, Copy, Debug, PartialEq, Eq, Structural)]
pub enum LoopAction {
    /// Run the tick callback on the buffered events, then clear the buffer.
    RunCallback,
    /// Buffer the event for the next callback run.
    Buffer,
    /// Do nothing this wakeup.
    Skip,
}

/// How the loop proceeds after a tick.
#[derive(Clone, Copy, Debug, PartialEq, Eq, Structural)]
pub enum LoopFlow {
    /// Sleep until the next tick deadline.
    WaitUntil,
    /// Leave the loop: the engine shuts down.
    Exit,
}

/// Decides what one event-pump wakeup does: the callback runs only on the
/// initial wakeup and on tick-timer wakeups; everything else is buffered or
/// skipped.
pub fn classify_loop_event(event: &LoopEvent) -> (out: LoopAction)
    ensures
        out == match event {
            LoopEvent::WakeInit => LoopAction::RunCallback,
            LoopEvent::WakeResumeTimeReached => LoopAction::RunCallback,
            LoopEvent::WakeOther => LoopAction::Skip,
            LoopEvent::Incoming => LoopAction::Buffer,
        },
{
    match event {
        LoopEvent::WakeInit => LoopAction::RunCallback,
        LoopEvent::WakeResumeTimeReached => LoopAction::RunCallback,
        LoopEvent::WakeOther => LoopAction::Skip,
        LoopEvent::Incoming => LoopAction::Buffer,
    }
}

/// Decides how the loop proceeds after a tick: it keeps ticking until a
/// callback returns `Finish`, and exits that very tick.
pub fn loop_flow(status: &UpdateStatus) -> (out: LoopFlow)
    ensures
        out == match status {
            UpdateStatus::Continue => LoopFlow::WaitUntil,
            UpdateStatus::Finish => LoopFlow::Exit,
        },
{
    match status {
        UpdateStatus::Continue => LoopFlow::WaitUntil,
        UpdateStatus::Finish => LoopFlow::Exit,
    }
}

} // verus!
