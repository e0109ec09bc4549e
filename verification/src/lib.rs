//! A minimal real-time rendering core: mesh geometry with validated indices
//! and an exact GPU byte layout, a device context that owns the surface
//! configuration and resize handling, scenes that drive the per-frame render
//! protocol, and the event-loop decisions around it.
//!
//! The platform window, the event loop and the GPU driver are external
//! collaborators: the library computes every decision and every byte that is
//! handed to them, and a thin shell performs the calls.

pub mod events;
pub mod geometry;
pub mod renderer;
pub mod scene;
