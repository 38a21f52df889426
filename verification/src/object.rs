//! The generic movable entity: position, heading, angle, speed, collision
//! radius and render transform, advanced once per tick.
//!
//! Each tick recomputes the heading from the current angle (the rotation
//! matrix for the angle applied to the "up" vector), then moves the entity
//! by heading times speed times elapsed milliseconds. Bounds handling —
//! wrap, despawn, splitting — is left to the entity variants.

use vstd::prelude::*;

use crate::fixed;
use crate::fixed::{clamp_spec, s_abs, vel_spec, DT_LIMIT, POS_LIMIT, SCALE, SPEED_SLACK};
use crate::trig;
use crate::trig::{cos_deg, sin_deg};

verus! {

/// A point or heading in the plane, in micro-units.
#[derive(Clone, Copy, Debug, PartialEq, Eq, Structural)]
pub struct Vec2I {
    pub x: i64,
    pub y: i64,
}

/// A triple in micro-units: scale factors, or a column of a matrix.
#[derive(Clone, Copy, Debug, PartialEq, Eq, Structural)]
pub struct Vec3I {
    pub x: i64,
    pub y: i64,
    pub z: i64,
}

/// A column-major three-by-three matrix in micro-units.
#[derive(Clone, Copy, Debug, PartialEq, Eq, Structural)]
pub struct Mat3I {
    pub c0: Vec3I,
    pub c1: Vec3I,
    pub c2: Vec3I,
}

/// A movable entity of the game world.
#[derive(Clone, Copy, Debug, PartialEq, Eq, Structural)]
pub struct GameObject {
    /// Collision radius; zero for the ship and for bullets.
    pub radius: i64,
    /// Attitude in whole degrees, kept reduced to `[0, 360)`.
    pub angle: u64,
    /// Scalar speed along the heading, in micro-units per millisecond.
    pub speed: i64,
    pub position: Vec2I,
    /// Heading, recomputed from `angle` every tick.
    pub direction: Vec2I,
    /// Non-uniform render scale.
    pub scale: Vec3I,
    /// Rotation matrix of `angle`, recomputed every tick.
    pub rotation: Mat3I,
}

/// The rotation matrix of `a` whole degrees: columns
/// `(cos, -sin, 0)`, `(sin, cos, 0)`, `(0, 0, 1)` in micro-units.
pub open spec fn is_rotation_of(a: int, m: Mat3I) -> bool {
    &&& m.c0.x == cos_deg(a)
    &&& m.c0.y == -sin_deg(a)
    &&& m.c0.z == 0
    &&& m.c1.x == sin_deg(a)
    &&& m.c1.y == cos_deg(a)
    &&& m.c1.z == 0
    &&& m.c2.x == 0
    &&& m.c2.y == 0
    &&& m.c2.z == SCALE
}

/// States the entity can be integrated from without overflow: position in
/// the representable area, a reduced angle, and speed within one thrust
/// step of the resting bound.
pub open spec fn integrable(o: GameObject) -> bool {
    &&& s_abs(o.position.x as int) <= POS_LIMIT
    &&& s_abs(o.position.y as int) <= POS_LIMIT
    &&& o.angle < 360
    &&& s_abs(o.speed as int) <= SPEED_SLACK
}

/// The rotation matrix of `a` whole degrees, as a value.
pub open spec fn rot_of(a: int) -> Mat3I {
    Mat3I {
        c0: Vec3I { x: cos_deg(a) as i64, y: ((-sin_deg(a)) as i64), z: 0 },
        c1: Vec3I { x: sin_deg(a) as i64, y: cos_deg(a) as i64, z: 0 },
        c2: Vec3I { x: 0, y: 0, z: SCALE },
    }
}

/// One integration tick: `o` with the rotation and heading of `o`'s angle,
/// and the position advanced by heading times speed times `dt` (clamped to
/// the representable area). Angle, speed, radius and scale are untouched.
pub open spec fn obj_step_f(o: GameObject, dt: int) -> GameObject {
    GameObject {
        radius: o.radius,
        angle: o.angle,
        speed: o.speed,
        position: Vec2I {
            x: clamp_spec(
                o.position.x + vel_spec(sin_deg(o.angle as int), o.speed as int, dt),
            ) as i64,
            y: clamp_spec(
                o.position.y + vel_spec(cos_deg(o.angle as int), o.speed as int, dt),
            ) as i64,
        },
        direction: Vec2I { x: sin_deg(o.angle as int) as i64, y: cos_deg(o.angle as int) as i64 },
        scale: o.scale,
        rotation: rot_of(o.angle as int),
    }
}

/// Closed-boundary circle overlap: the distance between the centres is at
/// most the sum of the radii (squared on both sides, so no roots appear).
pub open spec fn overlaps(a: GameObject, b: GameObject) -> bool {
    let dx = b.position.x - a.position.x;
    let dy = b.position.y - a.position.y;
    let rr = a.radius + b.radius;
    dx * dx + dy * dy <= rr * rr
}

/// Overlap testing needs both entities inside the representable area with
/// radii no larger than one unit.
pub open spec fn overlap_testable(o: GameObject) -> bool {
    &&& s_abs(o.position.x as int) <= POS_LIMIT
    &&& s_abs(o.position.y as int) <= POS_LIMIT
    &&& 0 <= o.radius <= SCALE
}

/// Circle overlap does not depend on the order of its arguments.
pub proof fn lemma_overlap_symmetric(a: GameObject, b: GameObject)
    ensures
        overlaps(a, b) == overlaps(b, a),
{
    let dxa = b.position.x - a.position.x;
    let dya = b.position.y - a.position.y;
    assert(dxa * dxa == (-dxa) * (-dxa) && dya * dya == (-dya) * (-dya)) by (nonlinear_arith);
}

impl GameObject {
    /// The initial entity value: at the origin, at rest, facing "up", unit
    /// scale, identity rotation, no collision radius.
    pub open spec fn new_spec() -> GameObject {
        GameObject {
            radius: 0,
            angle: 0,
            speed: 0,
            position: Vec2I { x: 0, y: 0 },
            direction: Vec2I { x: 0, y: SCALE },
            scale: Vec3I { x: SCALE, y: SCALE, z: SCALE },
            rotation: Mat3I {
                c0: Vec3I { x: SCALE, y: 0, z: 0 },
                c1: Vec3I { x: 0, y: SCALE, z: 0 },
                c2: Vec3I { x: 0, y: 0, z: SCALE },
            },
        }
    }

    /// A fresh entity: at the origin, at rest, facing "up", unit scale,
    /// identity rotation, no collision radius.
    pub fn new() -> (o: GameObject)
        ensures
            o == GameObject::new_spec(),
            is_rotation_of(0, o.rotation),
            integrable(o),
    {
        GameObject {
            radius: 0,
            angle: 0,
            speed: 0,
            position: Vec2I { x: 0, y: 0 },
            direction: Vec2I { x: 0, y: SCALE },
            scale: Vec3I { x: SCALE, y: SCALE, z: SCALE },
            rotation: Mat3I {
                c0: Vec3I { x: SCALE, y: 0, z: 0 },
                c1: Vec3I { x: 0, y: SCALE, z: 0 },
                c2: Vec3I { x: 0, y: 0, z: SCALE },
            },
        }
    }

    /// Advance the entity by `dt` milliseconds: recompute rotation and
    /// heading from the angle, then move along the heading.
    pub fn update(&mut self, delta_time: u64)
        requires
            integrable(*old(self)),
            delta_time <= DT_LIMIT,
        ensures
            *final(self) == obj_step_f(*old(self), delta_time as int),
            integrable(*final(self)),
            s_abs(final(self).direction.x as int) <= SCALE,
            s_abs(final(self).direction.y as int) <= SCALE,
    {
        proof {
            trig::lemma_trig_range(self.angle as int);
        }
        self.rotation = get_matrix_rotation(self.angle);
        // The heading is the rotation applied to "up", which is the middle
        // column of the matrix.
        self.direction = get_vec2_from_vec3(&self.rotation.c1);

        let dx = fixed::scaled_velocity(self.direction.x, self.speed, delta_time);
        let dy = fixed::scaled_velocity(self.direction.y, self.speed, delta_time);
        self.position.x = fixed::clamp_add(self.position.x, dx);
        self.position.y = fixed::clamp_add(self.position.y, dy);
    }

    /// Whether two entities' collision circles touch or intersect; exact
    /// equality of the distances counts as overlap.
    pub fn does_overlap(obj1: &GameObject, obj2: &GameObject) -> (r: bool)
        requires
            overlap_testable(*obj1),
            overlap_testable(*obj2),
        ensures
            r == overlaps(*obj1, *obj2),
    {
        let dx: i128 = (obj2.position.x as i128) - (obj1.position.x as i128);
        let dy: i128 = (obj2.position.y as i128) - (obj1.position.y as i128);
        let rr: i128 = (obj1.radius as i128) + (obj2.radius as i128);
        proof {
            assert(s_abs(dx as int) <= 2_000_000_000_000 && s_abs(dy as int)
                <= 2_000_000_000_000 && 0 <= rr <= 2_000_000);
            assert(s_abs(dx as int * dx as int) <= 4_000_000_000_000_000_000_000_000int
                && s_abs(dy as int * dy as int) <= 4_000_000_000_000_000_000_000_000int
                && rr as int * rr as int <= 4_000_000_000_000int) by (nonlinear_arith)
                requires
                    s_abs(dx as int) <= 2_000_000_000_000,
                    s_abs(dy as int) <= 2_000_000_000_000,
                    0 <= rr as int <= 2_000_000,
            ;
        }
        dx * dx + dy * dy <= rr * rr
    }
}

/// The rotation matrix of `theta` whole degrees, in micro-units.
pub fn get_matrix_rotation(theta: u64) -> (m: Mat3I)
    requires
        theta < 360,
    ensures
        is_rotation_of(theta as int, m),
        m == rot_of(theta as int),
{
    proof {
        trig::lemma_trig_range(theta as int);
    }
    let s = trig::sin_of(theta);
    let c = trig::cos_of(theta);
    Mat3I {
        c0: Vec3I { x: c, y: -s, z: 0 },
        c1: Vec3I { x: s, y: c, z: 0 },
        c2: Vec3I { x: 0, y: 0, z: SCALE },
    }
}

/// Drop the third component of a triple.
pub fn get_vec2_from_vec3(dir3: &Vec3I) -> (r: Vec2I)
    ensures
        r.x == dir3.x,
        r.y == dir3.y,
{
    Vec2I { x: dir3.x, y: dir3.y }
}

} // verus!
