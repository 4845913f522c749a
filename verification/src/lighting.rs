//! The lighting system: a list of directional lights and the packed buffer
//! ("lighting texture") the shaders read.
//!
//! The buffer is a cache over the light list, never the source of truth.  It
//! holds the directions of the active lights, in list order, and is
//! regenerated by every mutator, so a stale buffer is structurally
//! impossible: the fields are private and every public path through this
//! module re-packs the buffer before it returns.

use vstd::prelude::*;
use crate::types::{Vector3, FP_ONE};

verus! {

/// A directional light.
#[derive(Clone, Debug)]
pub struct DirectionalLight {
    /// The name of the directional light.
    pub name: String,
    /// The direction the light is facing.
    pub dir: Vector3,
    /// Whether the light is active.
    pub active: bool,
}

impl Default for DirectionalLight {
    /// A light named "light", facing (1, 1, 1), active.
    fn default() -> (out: Self)
        ensures
            out.name@ == "light"@,
            out.dir == (Vector3 { x: FP_ONE, y: FP_ONE, z: FP_ONE }),
            out.active,
    {
        DirectionalLight {
            name: "light".to_owned(),
            dir: Vector3 { x: FP_ONE, y: FP_ONE, z: FP_ONE },
            active: true,
        }
    }
}

/// The packed buffer of a light list: the directions of the active lights,
/// in list order.
pub open spec fn packed_lights(lights: Seq<DirectionalLight>) -> Seq<Vector3> {
    lights.filter(|d: DirectionalLight| d.active).map_values(|d: DirectionalLight| d.dir)
}

/// Appending one light extends the packed buffer by its direction exactly
/// when the light is active.
proof fn lemma_packed_lights_push(lights: Seq<DirectionalLight>, d: DirectionalLight)
    ensures
        packed_lights(lights.push(d)) == if d.active {
            packed_lights(lights).push(d.dir)
        } else {
            packed_lights(lights)
        },
{
    reveal(Seq::filter);
    let pred = |x: DirectionalLight| x.active;
    let pushed = lights.push(d);
    assert(pushed.drop_last() =~= lights);
    assert(pushed.last() == d);
    if d.active {
        assert(pushed.filter(pred) =~= lights.filter(pred).push(d));
        assert(packed_lights(pushed) =~= packed_lights(lights).push(d.dir));
    } else {
        assert(pushed.filter(pred) =~= lights.filter(pred));
        assert(packed_lights(pushed) =~= packed_lights(lights));
    }
}

/// The lighting system.
pub struct Lighting {
    /// Collection of the directional lights.
    directional_lights: Vec<DirectionalLight>,
    /// Packed buffer of active light directions, handed to the shaders.
    directional_tex: Vec<Vector3>,
}

impl Lighting {
    /// The light list.
    pub closed spec fn lights(&self) -> Seq<DirectionalLight> {
        self.directional_lights@
    }

    /// The packed buffer as last regenerated.
    pub closed spec fn tex(&self) -> Seq<Vector3> {
        self.directional_tex@
    }

    /// The buffer is consistent with the light list: regenerate-on-write
    /// keeps this true after every public call.
    pub open spec fn wf(&self) -> bool {
        self.tex() == packed_lights(self.lights())
    }

    /// Creates a new lighting system with no lights and an empty buffer.
    pub fn new() -> (out: Lighting)
        ensures
            out.lights().len() == 0,
            out.tex().len() == 0,
            out.wf(),
    {
        let out = Lighting { directional_lights: Vec::new(), directional_tex: Vec::new() };
        proof {
            reveal(Seq::filter);
            assert(packed_lights(out.lights()) =~= Seq::<Vector3>::empty());
        }
        out
    }

    /// The number of directional lights, active or not.
    pub fn directional_lights_len(&self) -> (out: usize)
        ensures
            out == self.lights().len(),
    {
        self.directional_lights.len()
    }

    /// The packed buffer, as the GPU upload reads it.
    pub fn directional_tex(&self) -> (out: &Vec<Vector3>)
        ensures
            out@ == self.tex(),
    {
        &self.directional_tex
    }

    /// Adds an active directional light named `name` facing `dir`, and
    /// regenerates the buffer.
    pub fn add_directional_light(&mut self, name: String, dir: Vector3)
        requires
            old(self).wf(),
        ensures
            final(self).lights() == old(self).lights().push(
                DirectionalLight { name, dir, active: true },
            ),
            final(self).wf(),
    {
        let light = DirectionalLight { name, dir, active: true };
        self.directional_lights.push(light);
        self.regenerate_lighting_tex();
    }

    /// Regenerates the packed buffer from the light list.  Must be called
    /// after mutating any lighting data; every mutator of this module does.
    pub fn regenerate_lighting_tex(&mut self)
        ensures
            final(self).lights() == old(self).lights(),
            final(self).tex() == packed_lights(old(self).lights()),
            final(self).wf(),
    {
        let mut tex: Vec<Vector3> = Vec::new();
        let mut i: usize = 0;
        proof {
            reveal(Seq::filter);
            assert(packed_lights(self.lights().take(0)) =~= Seq::<Vector3>::empty());
        }
        while i < self.directional_lights.len()
            invariant
                i <= self.directional_lights@.len(),
                tex@ == packed_lights(self.directional_lights@.take(i as int)),
            decreases self.directional_lights@.len() - i,
        {
            proof {
                assert(self.directional_lights@.take(i + 1) =~= self.directional_lights@.take(
                    i as int,
                ).push(self.directional_lights@[i as int]));
                lemma_packed_lights_push(
                    self.directional_lights@.take(i as int),
                    self.directional_lights@[i as int],
                );
            }
            if self.directional_lights[i].active {
                let dir = self.directional_lights[i].dir;
                tex.push(dir);
            }
            i = i + 1;
        }
        proof {
            assert(self.directional_lights@.take(self.directional_lights@.len() as int)
                =~= self.directional_lights@);
        }
        self.directional_tex = tex;
    }

    /// Replaces the light at `index` and regenerates the buffer.
    pub fn set_directional_light(&mut self, index: usize, light: DirectionalLight)
        requires
            index < old(self).lights().len(),
        ensures
            final(self).lights() == old(self).lights().update(index as int, light),
            final(self).wf(),
    {
        self.directional_lights[index] = light;
        self.regenerate_lighting_tex();
    }

    /// A reference to the directional light at `index`.
    pub fn get_directional_light(&self, index: usize) -> (out: &DirectionalLight)
        requires
            index < self.lights().len(),
        ensures
            *out == self.lights()[index as int],
    {
        &self.directional_lights[index]
    }

    /// The index of the first directional light named `name`, or `None` when
    /// no light has that name.
    pub fn get_directional_light_by_name(&self, name: &str) -> (out: Option<usize>)
        ensures
            match out {
                Some(i) => i < self.lights().len() && self.lights()[i as int].name@ == name@
                    && forall|k: int| 0 <= k < i ==> (#[trigger] self.lights()[k]).name@ != name@,
                None => forall|k: int|
                    0 <= k < self.lights().len() ==> (#[trigger] self.lights()[k]).name@ != name@,
            },
    {
        let name_owned = name.to_owned();
        let mut i: usize = 0;
        while i < self.directional_lights.len()
            invariant
                i <= self.directional_lights@.len(),
                name_owned@ == name@,
                forall|k: int|
                    0 <= k < i ==> (#[trigger] self.directional_lights@[k]).name@ != name@,
            decreases self.directional_lights@.len() - i,
        {
            if self.directional_lights[i].name == name_owned {
                return Some(i);
            }
            i = i + 1;
        }
        None
    }
}

/// Regenerating the buffer twice with no intervening mutation of the light
/// list yields the same packed buffer: `first` is the state after one
/// regeneration, `second` after another regeneration of the same lights.
pub proof fn lemma_regenerate_idempotent(first: Lighting, second: Lighting)
    requires
        second.lights() == first.lights(),
        first.tex() == packed_lights(first.lights()),
        second.tex() == packed_lights(second.lights()),
    ensures
        second.tex() == first.tex(),
{
}

} // verus!
