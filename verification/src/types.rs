//! Scene data model: vectors, transforms, render items, text items, cameras.
//!
//! All coordinates are fixed-point integers: `FP_ONE` fixed-point units stand
//! for one render-space unit.  The host converts to and from the float values
//! its collaborators (GPU, solver) expect; every rule in this crate is stated
//! and proved over these integers.

use vstd::prelude::*;

verus! {

/// Fixed-point units per render-space unit.
pub const FP_ONE: i32 = 1024;

/// Largest magnitude a position component may have.  Keeps `pos * PHYSICS_DIVISOR`
/// inside `i32` when a transform is pushed into the physics world.
pub const POS_LIMIT: i32 = 0x3fff_ffff;

/// Fixed scale factor between render-space and physics-space units.
pub const PHYSICS_DIVISOR: i32 = 2;

/// A vector of three fixed-point components.
#[derive(Clone, Copy, Debug, PartialEq, Eq, Structural)]
pub struct Vector3 {
    pub x: i32,
    pub y: i32,
    pub z: i32,
}

impl Vector3 {
    /// True when every component is small enough for physics scaling.
    pub open spec fn in_pos_range(self) -> bool {
        -POS_LIMIT <= self.x <= POS_LIMIT && -POS_LIMIT <= self.y <= POS_LIMIT
            && -POS_LIMIT <= self.z <= POS_LIMIT
    }
}

/// A rotation, stored as quaternion components in fixed-point units.
#[derive(Clone, Copy, Debug, PartialEq, Eq, Structural)]
pub struct Quaternion {
    pub x: i32,
    pub y: i32,
    pub z: i32,
    pub w: i32,
}

impl Quaternion {
    /// The identity rotation.
    pub fn identity() -> (r: Quaternion)
        ensures
            r == (Quaternion { x: 0, y: 0, z: 0, w: FP_ONE }),
    {
        Quaternion { x: 0, y: 0, z: 0, w: FP_ONE }
    }
}

/// An RGBA colour in fixed-point units (`FP_ONE` is full intensity).
#[derive(Clone, Copy, Debug, PartialEq, Eq, Structural)]
pub struct Color {
    pub r: i32,
    pub g: i32,
    pub b: i32,
    pub a: i32,
}

/// One placement of a render item's geometry.
#[derive(Clone, Copy, Debug, PartialEq, Eq, Structural)]
pub struct Transform {
    /// Position of this instance in render space.
    pub pos: Vector3,
    /// Rotation of this instance.
    pub rot: Quaternion,
    /// Scale of this instance.
    pub scale: Vector3,
    /// Whether this instance is drawn at all.
    pub active: bool,
    /// When false this instance is never frustum-tested: it is always
    /// rendered (or always skipped, per `active`).
    pub cull: bool,
}

impl Transform {
    /// Position components are bounded so the physics bridge can scale them.
    pub open spec fn valid(self) -> bool {
        self.pos.in_pos_range()
    }

    /// A fresh inactive-culling transform at `pos` with unit scale.
    pub fn at_pos(pos: Vector3) -> (r: Transform)
        ensures
            r.pos == pos,
            r.rot == (Quaternion { x: 0, y: 0, z: 0, w: FP_ONE }),
            r.scale == (Vector3 { x: FP_ONE, y: FP_ONE, z: FP_ONE }),
            r.active,
            !r.cull,
    {
        Transform {
            pos,
            rot: Quaternion::identity(),
            scale: Vector3 { x: FP_ONE, y: FP_ONE, z: FP_ONE },
            active: true,
            cull: false,
        }
    }
}

/// One mesh vertex: position and normal.
#[derive(Clone, Copy, Debug, PartialEq, Eq, Structural)]
pub struct Vertex {
    pub position: Vector3,
    pub normal: Vector3,
}

/// How (and whether) the physics world simulates a render item's instances.
#[derive(Clone, Copy, Debug, PartialEq, Eq, Structural)]
pub enum PhysicsType {
    /// Pinned body: never moved by the solver, still collidable.
    Static,
    /// Free body: fully simulated.
    Dynamic,
    /// No physics body at all.
    Off,
}

/// Shader and texture names used to draw a render item.
#[derive(Clone, Debug)]
pub struct Material {
    /// Name of the shader program.
    pub shader_name: String,
    /// Optional texture name; a missing name falls back to a default.
    pub texture_name: Option<String>,
    /// Optional normal-map texture name; missing falls back to a default.
    pub normal_texture_name: Option<String>,
}

/// A drawable mesh with a material and per-instance transforms.
#[derive(Clone, Debug)]
pub struct RenderItem {
    /// Name of the item (unique by convention, not enforced).
    pub name: String,
    /// Vertices of the mesh, static after creation.
    pub vertices: Vec<Vertex>,
    /// Material used to draw the mesh.
    pub material: Material,
    /// Whether instances of this item get physics bodies when it is added.
    pub physics_type: PhysicsType,
    /// One transform per instance; the index is the instance's identity.
    pub instance_transforms: Vec<Transform>,
    /// Whether the item is drawn at all.
    pub active: bool,
}

impl RenderItem {
    /// All instance positions are bounded for the physics bridge.
    pub open spec fn valid(self) -> bool {
        forall|j: int|
            0 <= j < self.instance_transforms@.len() ==> (#[trigger] self.instance_transforms@[j]).valid()
    }
}

/// A piece of overlay text.
#[derive(Clone, Debug)]
pub struct TextItem {
    /// Name of the text item.
    pub name: String,
    /// The text to draw.
    pub text: String,
    /// Position of the text in render space.
    pub pos: Vector3,
    /// Scale of the text.
    pub scale: Vector3,
    /// Colour of the text.
    pub color: Color,
    /// Whether the text is drawn at all.
    pub active: bool,
}

/// A camera pose; each camera renders into its own off-screen target.
#[derive(Clone, Copy, Debug, PartialEq, Eq, Structural)]
pub struct Camera {
    /// Position of the camera in render space.
    pub pos: Vector3,
    /// Euler rotation of the camera, in fixed-point radians.
    pub euler_rot: Vector3,
}

/// Packed per-instance shader input produced by the culler.
#[derive(Clone, Copy, Debug, PartialEq, Eq, Structural)]
pub struct ShaderIn {
    pub world_position: Vector3,
    pub world_rotation: Quaternion,
    pub world_scale: Vector3,
}

} // verus!
