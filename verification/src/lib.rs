//! Pointer-driven 3D object picking with a per-object interaction state
//! machine, for a tabletop-style card interface.
//!
//! One ray is cast per input tick from the pointing device through the scene.
//! The [`camera::Camera`] dispatcher buffers the most recent pointer event,
//! walks the colliders along the ray until the first responsive
//! [`card::Card`] claims the hit, and then broadcasts a tick-complete
//! notification. Each card reconciles its hover state once per tick and
//! answers hits and button events with a small deterministic state machine:
//! a tilt toward the pointer while hovered, a lateral drag while held, and an
//! animated return to rest once the pointer leaves.
//!
//! All geometry is exact fixed-point arithmetic (see [`geometry`]); the
//! collision backend's successive answers along a ray enter as plain data
//! (see [`camera::RayPath`]), so the whole dispatch protocol is verified.

pub mod camera;
pub mod card;
pub mod events;
pub mod geometry;
pub mod laws;
