//! Core logic of a small top-down 2D shooter: typed components for position,
//! velocity, sprites and movement animation, and the per-frame pipeline of
//! systems (keyboard, ai, physics, animator) that updates them, together with
//! the geometry the renderer needs. Windowing, textures and event polling live
//! outside this crate; everything here is plain data and verified arithmetic.

pub mod ai;
pub mod animator;
pub mod components;
pub mod dispatcher;
pub mod keyboard;
pub mod physics;
pub mod player;
pub mod rect;
pub mod renderer;
pub mod world;
