//! Runtime core of a real-time 3D engine.
//!
//! The crate keeps three independently stateful subsystems in step every
//! frame: a rigid-body physics world, a scene graph of instanced render
//! items, and a multi-camera render pipeline with frustum culling and a
//! post-processing composite.  All engine state and per-frame decisions are
//! modelled over fixed-point integer coordinates so that every rule can be
//! verified; the host supplies the window, the GPU context and the rigid-body
//! solver, and exchanges plain values with this crate.

pub mod culling;
pub mod game;
pub mod lighting;
pub mod math;
pub mod physics;
pub mod renderer;
pub mod types;
