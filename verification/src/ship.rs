//! The entity variants: the player ship, bullets and asteroids.
//!
//! Each wraps one [`GameObject`] and adds its own bounds policy: the ship
//! teleports to the opposite edge axis by axis and loses speed to drag,
//! bullets despawn once either axis leaves the play bounds, and asteroids
//! despawn on a wider bound and may split (the world owns that rule).

use vstd::prelude::*;

use crate::fixed;
use crate::fixed::{s_abs, tdiv, DT_LIMIT};
use crate::object::{integrable, obj_step_f, GameObject, Vec2I};

verus! {

/// Vertical wrap/despawn bound in micro-units. The play rule is
/// `|y / 11| + 0.6 > 1`, which is `|y| > 4.4` world units.
pub const WRAP_LIMIT_Y: i64 = 4_400_000;

/// Horizontal wrap/despawn bound in micro-units. The play rule is
/// `|x / 11| * 1.6 > 1`, which is `|x| > 6.875` world units.
pub const WRAP_LIMIT_X: i64 = 6_875_000;

/// Vertical bound beyond which an asteroid is removed: `|y| > 8` units.
pub const RANGE_LIMIT_Y: i64 = 8_000_000;

/// Horizontal bound beyond which an asteroid is removed: `|x| > 11` units.
pub const RANGE_LIMIT_X: i64 = 11_000_000;

/// Drag keeps ship speed below this once a tick has ended.
pub const DRAGGED_SPEED: i64 = 990_000;

/// The player ship: one entity plus the milliseconds since it last fired.
#[derive(Clone, Copy, Debug, PartialEq, Eq, Structural)]
pub struct SpaceShip {
    pub obj: GameObject,
    pub last_shot: u64,
}

/// A projectile; despawns when it leaves the play bounds.
#[derive(Clone, Copy, Debug, PartialEq, Eq, Structural)]
pub struct Bullet(pub GameObject);

/// A destructible obstacle; the collision radius lives on the inner entity.
#[derive(Clone, Copy, Debug, PartialEq, Eq, Structural)]
pub struct Asteroid {
    pub obj: GameObject,
}

/// Sign flip when the magnitude exceeds the bound: the screen-wrap rule,
/// applied to each axis independently.
pub open spec fn wrap_flip(v: int, limit: int) -> int {
    if s_abs(v) > limit { -v } else { v }
}

/// One ship tick: the shot timer accumulates `dt` (saturating), the entity
/// integrates, each axis wraps independently, and drag scales the speed by
/// nine tenths (rounding toward zero).
pub open spec fn ship_step_f(s: SpaceShip, dt: int) -> SpaceShip {
    let o = obj_step_f(s.obj, dt);
    SpaceShip {
        obj: GameObject {
            position: Vec2I {
                x: wrap_flip(o.position.x as int, WRAP_LIMIT_X as int) as i64,
                y: wrap_flip(o.position.y as int, WRAP_LIMIT_Y as int) as i64,
            },
            speed: tdiv(o.speed * 9, 10) as i64,
            ..o
        },
        last_shot: if s.last_shot + dt > u64::MAX { u64::MAX } else { (s.last_shot + dt) as u64 },
    }
}

/// A bullet is out of the play bounds when either axis test trips.
pub open spec fn bullet_out_of_bounds(b: Bullet) -> bool {
    s_abs(b.0.position.y as int) > WRAP_LIMIT_Y || s_abs(b.0.position.x as int) > WRAP_LIMIT_X
}

/// An asteroid has left the play range when either axis exceeds its bound.
pub open spec fn asteroid_out_of_range(a: Asteroid) -> bool {
    s_abs(a.obj.position.y as int) > RANGE_LIMIT_Y || s_abs(a.obj.position.x as int)
        > RANGE_LIMIT_X
}

impl SpaceShip {
    /// A fresh ship at the origin, at rest, ready to fire.
    pub fn new() -> (s: SpaceShip)
        ensures
            s.obj == GameObject::new_spec(),
            s.last_shot == 0,
    {
        SpaceShip { obj: GameObject::new(), last_shot: 0 }
    }

    /// Advance the ship by `dt` milliseconds: integrate, wrap each axis
    /// independently, then apply drag.
    pub fn update(&mut self, delta_time: u64)
        requires
            integrable(old(self).obj),
            delta_time <= DT_LIMIT,
        ensures
            *final(self) == ship_step_f(*old(self), delta_time as int),
            integrable(final(self).obj),
            s_abs(final(self).obj.speed as int) <= DRAGGED_SPEED,
    {
        self.last_shot = if delta_time > u64::MAX - self.last_shot {
            u64::MAX
        } else {
            self.last_shot + delta_time
        };
        self.obj.update(delta_time);

        /* Wrap the player to the opposite edge, axis by axis */
        if self.obj.position.y > WRAP_LIMIT_Y || self.obj.position.y < -WRAP_LIMIT_Y {
            self.obj.position.y = -self.obj.position.y;
        }
        if self.obj.position.x > WRAP_LIMIT_X || self.obj.position.x < -WRAP_LIMIT_X {
            self.obj.position.x = -self.obj.position.x;
        }

        /* Drag bleeds speed off every tick */
        proof {
            fixed::lemma_tdiv_abs(self.obj.speed * 9, 9_900_000int, 10);
        }
        self.obj.speed = fixed::mul_div_trunc(self.obj.speed, 9, 10);
    }
}

impl Bullet {
    /// A fresh projectile at the origin; the world aims it at fire time.
    pub fn new() -> (b: Bullet)
        ensures
            b.0 == GameObject::new_spec(),
    {
        Bullet(GameObject::new())
    }

    /// Pure integration: no drag, no wrap.
    pub fn update(&mut self, delta_time: u64)
        requires
            integrable(old(self).0),
            delta_time <= DT_LIMIT,
        ensures
            final(self).0 == obj_step_f(old(self).0, delta_time as int),
            integrable(final(self).0),
    {
        self.0.update(delta_time);
    }
}

impl Asteroid {
    /// A fresh asteroid with the given collision radius, otherwise at the
    /// origin and at rest; the world places and launches it at spawn time.
    pub fn new(radius: i64) -> (a: Asteroid)
        requires
            0 <= radius <= crate::fixed::SCALE,
        ensures
            a.obj == (GameObject { radius, ..GameObject::new_spec() }),
    {
        let mut obj = GameObject::new();
        obj.radius = radius;
        Asteroid { obj }
    }

    /// Pure integration: no drag, no wrap.
    pub fn update(&mut self, delta_time: u64)
        requires
            integrable(old(self).obj),
            delta_time <= DT_LIMIT,
        ensures
            final(self).obj == obj_step_f(old(self).obj, delta_time as int),
            integrable(final(self).obj),
    {
        self.obj.update(delta_time);
    }
}

} // verus!
