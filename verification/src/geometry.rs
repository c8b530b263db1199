//! Fixed-point vectors and the constants of the interaction protocol.
//!
//! Positions and hit points are measured in thousandths of a world unit and
//! rotations in millionths of a radian, so every geometric response is exact
//! integer arithmetic.

use vstd::prelude::*;

verus! {

/// Largest coordinate (thousandths of a unit) accepted for a ray hit point.
pub const COORD_MAX: i64 = 1_000_000_000;

/// Largest coordinate an object's stored translation may reach.
pub const POS_MAX: i64 = 1_000_000_000_000;

/// A translation bound under which one whole tick (a drag translation
/// followed by a hover lift or drop) provably stays within `POS_MAX`.
pub const POS_SAFE: i64 = 900_000_000_000;

/// Largest rotation component an object may hold.
pub const ROT_MAX: i64 = 200_000_000_000_000;

/// Hover tilt: 0.15 radians per world unit of pointer offset, i.e. 150
/// millionths of a radian per thousandth of a unit.
pub const PUSH_SCALE: i64 = 150;

/// Drag tilt: 1.2 radians per world unit of lateral pointer motion.
pub const DRAG_SCALE: i64 = 1200;

/// Lift (thousandths of a unit) applied while an object is hovered.
pub const HOVER_DRAW: i64 = 100;

/// Return-to-rest speed: progress advances from 0 to `PROGRESS_DONE` at 4
/// progress units per millisecond of frame time (a rate of 4.0 per second).
pub const RETURN_RATE: i64 = 4;

/// Animation progress at which the interpolation reaches rest.
pub const PROGRESS_DONE: i64 = 1000;

/// Largest frame delta (milliseconds) accepted by the animation step.
pub const DELTA_MAX: i64 = 1_000_000;

/// A viewport position, in thousandths of a pixel.
#[derive(Clone, Copy, PartialEq, Eq, Structural, Debug)]
pub struct Vec2 {
    pub x: i64,
    pub y: i64,
}

/// A point, displacement or rotation; see the unit conventions above.
#[derive(Clone, Copy, PartialEq, Eq, Structural, Debug)]
pub struct Vec3 {
    pub x: i64,
    pub y: i64,
    pub z: i64,
}

impl Vec3 {
    /// The origin, and also the rest rotation.
    pub open spec fn spec_zero() -> Vec3 {
        Vec3 { x: 0, y: 0, z: 0 }
    }

    /// The origin, and also the rest rotation.
    pub fn zero() -> (v: Vec3)
        ensures
            v == Vec3::spec_zero(),
    {
        Vec3 { x: 0, y: 0, z: 0 }
    }
}

/// Bounds on a ray hit point handed in by the collision backend.
pub open spec fn in_coord(v: Vec3) -> bool {
    &&& -COORD_MAX <= v.x <= COORD_MAX
    &&& -COORD_MAX <= v.y <= COORD_MAX
    &&& -COORD_MAX <= v.z <= COORD_MAX
}

/// Bounds on a stored translation.
pub open spec fn in_pos(v: Vec3) -> bool {
    &&& -POS_MAX <= v.x <= POS_MAX
    &&& -POS_MAX <= v.y <= POS_MAX
    &&& -POS_MAX <= v.z <= POS_MAX
}

/// Bounds on a stored rotation.
pub open spec fn in_rot(v: Vec3) -> bool {
    &&& -ROT_MAX <= v.x <= ROT_MAX
    &&& -ROT_MAX <= v.y <= ROT_MAX
    &&& -ROT_MAX <= v.z <= ROT_MAX
}

/// A translation far enough from `POS_MAX` that a tick's worth of movement
/// (at most one drag delta and one hover lift or drop) cannot overflow it.
pub open spec fn pos_settled(v: Vec3) -> bool {
    &&& -POS_SAFE <= v.x <= POS_SAFE
    &&& -POS_SAFE <= v.y <= POS_SAFE
    &&& -POS_SAFE <= v.z <= POS_SAFE
}

/// A translation with room left for one hover lift or drop.
pub open spec fn pos_roomy(v: Vec3) -> bool {
    &&& -POS_MAX + HOVER_DRAW <= v.x <= POS_MAX - HOVER_DRAW
    &&& -POS_MAX + HOVER_DRAW <= v.y <= POS_MAX - HOVER_DRAW
    &&& -POS_MAX + HOVER_DRAW <= v.z <= POS_MAX - HOVER_DRAW
}

/// Componentwise sum of a position and a displacement.
pub open spec fn translated(p: Vec3, d: Vec3) -> Vec3 {
    Vec3 { x: (p.x + d.x) as i64, y: (p.y + d.y) as i64, z: (p.z + d.z) as i64 }
}

/// The tilt shown while hovering: the offset of the hit from the object's
/// own position, axes swapped and the vertical one negated so the object
/// leans toward the pointer, scaled by `PUSH_SCALE`.
pub open spec fn hover_tilt(position: Vec3, hit: Vec3) -> Vec3 {
    Vec3 {
        x: (-(hit.y - position.y) * PUSH_SCALE) as i64,
        y: ((hit.x - position.x) * PUSH_SCALE) as i64,
        z: 0,
    }
}

/// The lateral displacement of a drag step: the frame-to-frame hit delta
/// with the depth axis dropped.
pub open spec fn drag_translation(previous: Vec3, hit: Vec3) -> Vec3 {
    Vec3 { x: (hit.x - previous.x) as i64, y: (hit.y - previous.y) as i64, z: 0 }
}

/// The tilt induced by a drag step, proportional to its horizontal motion.
pub open spec fn drag_tilt(previous: Vec3, hit: Vec3) -> Vec3 {
    Vec3 { x: 0, y: 0, z: (-(hit.x - previous.x) * DRAG_SCALE) as i64 }
}

/// One component of a linear interpolation toward zero: keep `keep`
/// thousandths of `c`, rounding toward zero.
pub open spec fn shrink1(c: int, keep: int) -> int {
    if c >= 0 {
        (c * keep) / 1000
    } else {
        -((-c * keep) / 1000)
    }
}

/// Componentwise interpolation of a rotation toward rest.
pub open spec fn shrink3(v: Vec3, keep: int) -> Vec3 {
    Vec3 {
        x: shrink1(v.x as int, keep) as i64,
        y: shrink1(v.y as int, keep) as i64,
        z: shrink1(v.z as int, keep) as i64,
    }
}

/// Interpolates one rotation component toward zero, keeping `keep`
/// thousandths of it.
pub fn shrink_toward_zero(c: i64, keep: i64) -> (r: i64)
    requires
        -ROT_MAX <= c <= ROT_MAX,
        0 <= keep <= 1000,
    ensures
        r == shrink1(c as int, keep as int),
        -ROT_MAX <= r <= ROT_MAX,
        c >= 0 ==> 0 <= r <= c,
        c < 0 ==> c <= r <= 0,
{
    let mag: u64 = if c >= 0 {
        c as u64
    } else {
        (-c) as u64
    };
    assert(mag * keep <= mag * 1000) by (nonlinear_arith)
        requires
            0 <= keep <= 1000,
            0 <= mag,
    ;
    let scaled: u64 = (mag * (keep as u64)) / 1000;
    assert(scaled <= mag) by (nonlinear_arith)
        requires
            scaled == (mag * keep) / 1000,
            mag * keep <= mag * 1000,
            0 <= mag,
    ;
    if c >= 0 {
        scaled as i64
    } else {
        -(scaled as i64)
    }
}

} // verus!
