//! The simulation world: one ship, the live bullets, an arena of asteroids
//! keyed by ever-increasing ids, the score and the input state.
//!
//! One tick runs, in order: input is applied to the ship, the fire control
//! may spawn a bullet, at most one asteroid refills the field, bullets out
//! of bounds despawn, bullets are scanned against asteroids (scoring and
//! marking), destroyed asteroids split into children, the removal batch is
//! applied, and every surviving entity integrates its motion. Each phase is
//! a public function with an exact contract; [`AsteroidCanvas::update`]
//! composes them.

use vstd::prelude::*;

use crate::fixed::{s_abs, DT_LIMIT, SCALE, SPEED_LIMIT};
use crate::input::UserInput;
use crate::object::{integrable, obj_step_f, overlap_testable, overlaps, GameObject, Vec2I, Vec3I};
use crate::random_source::{random_bool, random_in_range};
use crate::ship::{
    asteroid_out_of_range, bullet_out_of_bounds, ship_step_f, Asteroid, Bullet, SpaceShip,
    DRAGGED_SPEED, RANGE_LIMIT_X, RANGE_LIMIT_Y, WRAP_LIMIT_X, WRAP_LIMIT_Y,
};

verus! {

/// The field is refilled while it holds fewer asteroids than this.
pub const MAX_ASTEROIDS: usize = 20;

/// Milliseconds that must pass after a shot before the next one.
pub const FIRE_COOLDOWN: u64 = 300;

/// Speed given to a fired bullet, in micro-units per millisecond.
pub const BULLET_SPEED: i64 = 10_000;

/// Degrees the ship turns per tick while a rotate key is held.
pub const TURN_STEP: u64 = 5;

/// Speed the ship gains per tick while a thrust key is held.
pub const THRUST_STEP: i64 = 100;

/// Radius of a freshly spawned asteroid: one world unit.
pub const SPAWN_RADIUS: i64 = 1_000_000;

/// Horizontal magnitude of the spawn corners: eight world units.
pub const SPAWN_X: i64 = 8_000_000;

/// Vertical magnitude of the spawn corners: five world units.
pub const SPAWN_Y: i64 = 5_000_000;

/// Fresh asteroid speed range, micro-units per millisecond, half-open.
pub const SPAWN_SPEED_LO: u64 = 800;

pub const SPAWN_SPEED_HI: u64 = 1500;

/// Split-child speed range, micro-units per millisecond, half-open.
pub const CHILD_SPEED_LO: u64 = 1000;

pub const CHILD_SPEED_HI: u64 = 5000;

/// Heading-component range for asteroids, micro-units, half-open.
pub const DIR_LO: u64 = 1_000_000;

pub const DIR_HI: u64 = 100_000_000;

/// Asteroids destroyed by a bullet split only above this radius.
pub const SPLIT_MIN_RADIUS: i64 = 300_000;

/// Inclusive bounds of the split piece count.
pub const PIECES_LO: u64 = 2;

pub const PIECES_HI: u64 = 4;

/// The world: simulation state only; rendering reads it and never writes.
pub struct AsteroidCanvas {
    pub ship: SpaceShip,
    /// Live bullets in spawn order.
    pub bullets: Vec<Bullet>,
    /// Arena of live asteroids: id paired with the asteroid, in insertion
    /// order, which is ascending id order.
    pub asteroids: Vec<(u64, Asteroid)>,
    pub input: UserInput,
    pub score: u64,
    /// Largest id ever handed out; ids are never reused.
    pub max_asteroid_id: u64,
}

/// A ship the tick can process: integrable, no collision radius, and speed
/// at its resting bound.
pub open spec fn ship_ok(s: SpaceShip) -> bool {
    &&& integrable(s.obj)
    &&& s_abs(s.obj.speed as int) <= SPEED_LIMIT
    &&& s.obj.radius == 0
}

/// A bullet the tick can process.
pub open spec fn bullet_ok(b: Bullet) -> bool {
    &&& integrable(b.0)
    &&& s_abs(b.0.speed as int) <= SPEED_LIMIT
    &&& b.0.radius == 0
}

/// An asteroid the tick can process.
pub open spec fn asteroid_ok(a: Asteroid) -> bool {
    &&& integrable(a.obj)
    &&& s_abs(a.obj.speed as int) <= SPEED_LIMIT
    &&& 0 <= a.obj.radius <= SCALE
}

/// Arena ids strictly increase along the insertion order.
pub open spec fn ids_sorted(s: Seq<(u64, Asteroid)>) -> bool {
    forall|i: int, j: int| 0 <= i < j < s.len() ==> s[i].0 < s[j].0
}

/// Every arena id has been handed out already.
pub open spec fn ids_below(s: Seq<(u64, Asteroid)>, m: u64) -> bool {
    forall|i: int| 0 <= i < s.len() ==> (#[trigger] s[i].0) <= m
}

/// Whether some arena entry carries the id.
pub open spec fn has_id(s: Seq<(u64, Asteroid)>, id: u64) -> bool {
    exists|i: int| 0 <= i < s.len() && (#[trigger] s[i].0) == id
}

/// The world invariant at tick boundaries.
pub open spec fn wf(w: AsteroidCanvas) -> bool {
    &&& ship_ok(w.ship)
    &&& forall|i: int| 0 <= i < w.bullets@.len() ==> bullet_ok(#[trigger] w.bullets@[i])
    &&& forall|i: int| 0 <= i < w.asteroids@.len() ==> asteroid_ok(#[trigger] w.asteroids@[i].1)
    &&& ids_sorted(w.asteroids@)
    &&& ids_below(w.asteroids@, w.max_asteroid_id)
}

/// Angle after one tick of held rotate keys: five degrees per held side,
/// kept reduced to `[0, 360)`.
pub open spec fn angle_after(a: int, left: bool, right: bool) -> int {
    let a1 = if left { (a + 360 - TURN_STEP) % 360 } else { a };
    if right { (a1 + TURN_STEP) % 360 } else { a1 }
}

/// Speed after one tick of held thrust keys: one step forward and one step
/// back, unscaled by frame time.
pub open spec fn speed_after(s: int, fwd: bool, back: bool) -> int {
    let s1 = if fwd { s + THRUST_STEP } else { s };
    if back { s1 - THRUST_STEP } else { s1 }
}

/// The bullet the ship fires: the ship's position, heading and angle, the
/// fixed bullet speed, and fresh-entity defaults otherwise.
pub open spec fn fired_bullet(s: SpaceShip) -> Bullet {
    Bullet(
        GameObject {
            position: s.obj.position,
            direction: s.obj.direction,
            angle: s.obj.angle,
            speed: BULLET_SPEED,
            ..GameObject::new_spec()
        },
    )
}

/// Whether the fire control fires this tick: fire held and the cooldown
/// elapsed.
pub open spec fn wants_fire(w: AsteroidCanvas) -> bool {
    w.input.spacebar && w.ship.last_shot > FIRE_COOLDOWN
}

/// The ship once the held keys have been applied; the fire control and the
/// fired bullet both read this state.
pub open spec fn ship_after_input(w: AsteroidCanvas) -> SpaceShip {
    SpaceShip {
        obj: GameObject {
            angle: angle_after(w.ship.obj.angle as int, w.input.keyboard_a, w.input.keyboard_d)
                as u64,
            speed: speed_after(w.ship.obj.speed as int, w.input.keyboard_w, w.input.keyboard_s)
                as i64,
            ..w.ship.obj
        },
        ..w.ship
    }
}

/// The bullet list the collision scan works through, as a function of the
/// starting state: the fired bullet joins when fire is due, then the
/// out-of-bounds despawn keeps the in-bounds ones.
pub open spec fn tick_live_bullets(w: AsteroidCanvas) -> Seq<Bullet> {
    let fired = if wants_fire(w) {
        w.bullets@.push(fired_bullet(ship_after_input(w)))
    } else {
        w.bullets@
    };
    surviving_bullets(fired)
}

/// The tick's effect on bullets and on the score report, stated against
/// the starting state alone. The scan really runs against the arena after
/// the refill, but the refill corner lies farther from the whole bullet
/// zone than its radius, so the starting arena decides every hit: each
/// live bullet that overlaps some asteroid scores one report entry and is
/// consumed, and the rest integrate in order.
pub open spec fn tick_bullets_shape(
    w0: AsteroidCanvas,
    w1: AsteroidCanvas,
    notes: Seq<u64>,
    dt: int,
) -> bool {
    let live = tick_live_bullets(w0);
    let missed = missed_bullets(live, w0.asteroids@);
    &&& notes.len() == hit_count(live, w0.asteroids@)
    &&& w1.bullets@.len() == missed.len()
    &&& forall|i: int|
        0 <= i < missed.len() ==> (#[trigger] w1.bullets@[i]).0 == obj_step_f(missed[i].0, dt)
}

/// The tick's effect on the asteroid arena. `spawn_seg` is the refill (one
/// corner asteroid under the next id when the field was below its cap,
/// nothing otherwise), `children` the split output behind it with strictly
/// increasing fresh ids, grouped per destroyed parent by `counts`; the
/// arena that survives is the removal batch applied to the extended arena
/// — destroyed ids and the out-of-range gone — with every survivor
/// integrated.
pub open spec fn tick_arena_shape(
    w0: AsteroidCanvas,
    w1: AsteroidCanvas,
    dt: int,
    spawn_seg: Seq<(u64, Asteroid)>,
    children: Seq<(u64, Asteroid)>,
    counts: Seq<u64>,
) -> bool {
    let destroyed = destroyed_ids(tick_live_bullets(w0), w0.asteroids@);
    let a1 = w0.asteroids@ + spawn_seg;
    let a2 = a1 + children;
    let retained = retained_asteroids(a2, destroyed);
    &&& w0.asteroids@.len() < MAX_ASTEROIDS ==> {
        &&& spawn_seg.len() == 1
        &&& spawn_seg[0].0 == w0.max_asteroid_id + 1
        &&& spawn_ranges_ok(spawn_seg[0].1)
    }
    &&& w0.asteroids@.len() >= MAX_ASTEROIDS ==> spawn_seg.len() == 0
    &&& children_groups(split_parents(destroyed, a1), counts, children)
    &&& forall|k: int|
        0 <= k < children.len() ==> (#[trigger] children[k]).0 == w0.max_asteroid_id
            + spawn_seg.len() + k + 1
    &&& w1.max_asteroid_id == w0.max_asteroid_id + spawn_seg.len() + children.len()
    &&& w1.asteroids@.len() == retained.len()
    &&& forall|i: int|
        0 <= i < retained.len() ==> (#[trigger] w1.asteroids@[i]).0 == retained[i].0
            && w1.asteroids@[i].1.obj == obj_step_f(retained[i].1.obj, dt)
}

impl AsteroidCanvas {
    /// An empty world: fresh ship, no bullets, no asteroids, zero score,
    /// no id handed out yet.
    pub fn new() -> (w: AsteroidCanvas)
        ensures
            w.ship.obj == GameObject::new_spec(),
            w.ship.last_shot == 0,
            w.bullets@.len() == 0,
            w.asteroids@.len() == 0,
            w.input == UserInput::new_spec(),
            w.score == 0,
            w.max_asteroid_id == 0,
            wf(w),
    {
        AsteroidCanvas {
            ship: SpaceShip::new(),
            bullets: Vec::new(),
            asteroids: Vec::new(),
            input: UserInput::new(),
            score: 0,
            max_asteroid_id: 0,
        }
    }

    /// Read the latched input state.
    pub fn input(&self) -> (r: UserInput)
        ensures
            r == self.input,
    {
        self.input
    }

    /// Replace the latched input state.
    pub fn set_input(&mut self, input: UserInput)
        ensures
            final(self).input == input,
            final(self).ship == old(self).ship,
            final(self).bullets == old(self).bullets,
            final(self).asteroids == old(self).asteroids,
            final(self).score == old(self).score,
            final(self).max_asteroid_id == old(self).max_asteroid_id,
    {
        self.input = input;
    }

    /// Apply the held rotate and thrust keys to the ship. The increments
    /// are per tick, not scaled by frame time.
    pub fn apply_input(&mut self)
        requires
            old(self).ship.obj.angle < 360,
            s_abs(old(self).ship.obj.speed as int) <= SPEED_LIMIT,
        ensures
            final(self).ship.obj == (GameObject {
                angle: angle_after(
                    old(self).ship.obj.angle as int,
                    old(self).input.keyboard_a,
                    old(self).input.keyboard_d,
                ) as u64,
                speed: speed_after(
                    old(self).ship.obj.speed as int,
                    old(self).input.keyboard_w,
                    old(self).input.keyboard_s,
                ) as i64,
                ..old(self).ship.obj
            }),
            final(self).ship.last_shot == old(self).ship.last_shot,
            final(self).ship.obj.angle < 360,
            s_abs(final(self).ship.obj.speed as int) <= SPEED_LIMIT + THRUST_STEP,
            final(self).bullets == old(self).bullets,
            final(self).asteroids == old(self).asteroids,
            final(self).input == old(self).input,
            final(self).score == old(self).score,
            final(self).max_asteroid_id == old(self).max_asteroid_id,
    {
        if self.input.keyboard_a {
            self.ship.obj.angle = (self.ship.obj.angle + (360 - TURN_STEP)) % 360;
        }
        if self.input.keyboard_d {
            self.ship.obj.angle = (self.ship.obj.angle + TURN_STEP) % 360;
        }
        if self.input.keyboard_w {
            self.ship.obj.speed = self.ship.obj.speed + THRUST_STEP;
        }
        if self.input.keyboard_s {
            self.ship.obj.speed = self.ship.obj.speed - THRUST_STEP;
        }
    }

    /// Fire control: while fire is held and more than the cooldown has
    /// passed since the last shot, spawn a bullet at the ship's position
    /// and heading and restart the cooldown.
    pub fn fire_step(&mut self)
        ensures
            wants_fire(*old(self)) ==> {
                &&& final(self).bullets@ == old(self).bullets@.push(fired_bullet(old(self).ship))
                &&& final(self).ship == (SpaceShip { last_shot: 0, ..old(self).ship })
            },
            !wants_fire(*old(self)) ==> *final(self) == *old(self),
            final(self).asteroids == old(self).asteroids,
            final(self).input == old(self).input,
            final(self).score == old(self).score,
            final(self).max_asteroid_id == old(self).max_asteroid_id,
            final(self).ship.obj == old(self).ship.obj,
    {
        if self.input.spacebar {
            if self.ship.last_shot > FIRE_COOLDOWN {
                let mut bullet = Bullet::new();
                bullet.0.direction = self.ship.obj.direction;
                bullet.0.angle = self.ship.obj.angle;
                bullet.0.position = self.ship.obj.position;
                bullet.0.speed = BULLET_SPEED;
                self.bullets.push(bullet);
                self.ship.last_shot = 0;
            }
        }
    }

    /// Insert one asteroid built from the given draws: it appears at one of
    /// the four spawn corners under the next fresh id.
    pub fn spawn_from(&mut self, left: bool, below: bool, speed: u64, dir_x: u64, dir_y: u64, angle: u64)
        requires
            old(self).max_asteroid_id < u64::MAX,
            speed <= SPEED_LIMIT as u64,
            dir_x <= DIR_HI,
            dir_y <= DIR_HI,
            angle < 360,
            ids_below(old(self).asteroids@, old(self).max_asteroid_id),
        ensures
            final(self).max_asteroid_id == old(self).max_asteroid_id + 1,
            final(self).asteroids@ == old(self).asteroids@.push(
                (
                    (old(self).max_asteroid_id + 1) as u64,
                    spawned_asteroid(left, below, speed, dir_x, dir_y, angle),
                ),
            ),
            ids_sorted(old(self).asteroids@) ==> ids_sorted(final(self).asteroids@),
            ids_below(final(self).asteroids@, final(self).max_asteroid_id),
            final(self).ship == old(self).ship,
            final(self).bullets == old(self).bullets,
            final(self).input == old(self).input,
            final(self).score == old(self).score,
    {
        let mut asteroid = Asteroid::new(SPAWN_RADIUS);
        let rand_x: i64 = if left { -SPAWN_X } else { SPAWN_X };
        let rand_y: i64 = if below { -SPAWN_Y } else { SPAWN_Y };
        asteroid.obj.position = Vec2I { x: rand_x, y: rand_y };
        asteroid.obj.speed = speed as i64;
        asteroid.obj.scale = Vec3I { x: SPAWN_RADIUS, y: SPAWN_RADIUS, z: SPAWN_RADIUS };
        asteroid.obj.direction = Vec2I { x: dir_x as i64, y: dir_y as i64 };
        asteroid.obj.angle = angle;
        self.max_asteroid_id = self.max_asteroid_id + 1;
        self.asteroids.push((self.max_asteroid_id, asteroid));
        proof {
            let s = final(self).asteroids@;
            let olds = old(self).asteroids@;
            if ids_sorted(olds) {
                assert forall|i: int, j: int| 0 <= i < j < s.len() implies s[i].0 < s[j].0 by {
                    if j == s.len() - 1 {
                        assert(olds[i].0 <= old(self).max_asteroid_id);
                    }
                }
            }
        }
    }

    /// Refill the field: while it holds fewer than `MAX_ASTEROIDS`
    /// asteroids, spawn exactly one per tick, at a random corner with a
    /// random launch; otherwise spawn nothing. The field therefore never
    /// exceeds `MAX_ASTEROIDS` through spawning alone.
    pub fn spawn_step(&mut self)
        requires
            old(self).max_asteroid_id < u64::MAX,
            ids_sorted(old(self).asteroids@),
            ids_below(old(self).asteroids@, old(self).max_asteroid_id),
            forall|i: int|
                0 <= i < old(self).asteroids@.len() ==> asteroid_ok(
                    #[trigger] old(self).asteroids@[i].1,
                ),
        ensures
            old(self).asteroids@.len() >= MAX_ASTEROIDS ==> *final(self) == *old(self),
            old(self).asteroids@.len() < MAX_ASTEROIDS ==> {
                &&& final(self).asteroids@.len() == old(self).asteroids@.len() + 1
                &&& final(self).max_asteroid_id == old(self).max_asteroid_id + 1
                &&& forall|i: int|
                    0 <= i < old(self).asteroids@.len() ==> final(self).asteroids@[i] == old(
                        self,
                    ).asteroids@[i]
                &&& final(self).asteroids@.last().0 == old(self).max_asteroid_id + 1
                &&& spawn_ranges_ok(final(self).asteroids@.last().1)
            },
            final(self).asteroids@.len() <= MAX_ASTEROIDS || final(self).asteroids@.len() == old(
                self,
            ).asteroids@.len(),
            ids_sorted(final(self).asteroids@),
            ids_below(final(self).asteroids@, final(self).max_asteroid_id),
            forall|i: int|
                0 <= i < final(self).asteroids@.len() ==> asteroid_ok(
                    #[trigger] final(self).asteroids@[i].1,
                ),
            forall|i: int|
                0 <= i < final(self).asteroids@.len() ==> has_id(
                    old(self).asteroids@,
                    (#[trigger] final(self).asteroids@[i]).0,
                ) || final(self).asteroids@[i].0 > old(self).max_asteroid_id,
            final(self).max_asteroid_id >= old(self).max_asteroid_id,
            final(self).ship == old(self).ship,
            final(self).bullets == old(self).bullets,
            final(self).input == old(self).input,
            final(self).score == old(self).score,
    {
        if self.asteroids.len() < MAX_ASTEROIDS {
            let left = random_bool();
            let below = random_bool();
            let speed = random_in_range(SPAWN_SPEED_LO, SPAWN_SPEED_HI);
            let dir_x = random_in_range(DIR_LO, DIR_HI);
            let dir_y = random_in_range(DIR_LO, DIR_HI);
            let angle = random_in_range(0, 360);
            self.spawn_from(left, below, speed, dir_x, dir_y, angle);
            proof {
                assert forall|i: int| 0 <= i < final(self).asteroids@.len() implies has_id(
                    old(self).asteroids@,
                    (#[trigger] final(self).asteroids@[i]).0,
                ) || final(self).asteroids@[i].0 > old(self).max_asteroid_id by {
                    if i < old(self).asteroids@.len() {
                        assert(old(self).asteroids@[i].0 == final(self).asteroids@[i].0);
                    }
                }
            }
        }
    }

    /// Remove every bullet that has left the play bounds. A bullet goes
    /// when either axis test trips, unlike the ship, which wraps.
    pub fn despawn_bullets_step(&mut self)
        ensures
            final(self).bullets@ == surviving_bullets(old(self).bullets@),
            forall|i: int|
                0 <= i < final(self).bullets@.len() ==> old(self).bullets@.contains(
                    #[trigger] final(self).bullets@[i],
                ),
            final(self).ship == old(self).ship,
            final(self).asteroids == old(self).asteroids,
            final(self).input == old(self).input,
            final(self).score == old(self).score,
            final(self).max_asteroid_id == old(self).max_asteroid_id,
    {
        let mut kept: Vec<Bullet> = Vec::new();
        let n = self.bullets.len();
        let mut i: usize = 0;
        while i < n
            invariant
                i <= n,
                *self == *old(self),
                n == self.bullets@.len(),
                kept@ == surviving_bullets(old(self).bullets@.subrange(0, i as int)),
                forall|k: int|
                    0 <= k < kept@.len() ==> old(self).bullets@.contains(#[trigger] kept@[k]),
            decreases n - i,
        {
            let b = self.bullets[i];
            let oob = b.0.position.y > WRAP_LIMIT_Y || b.0.position.y < -WRAP_LIMIT_Y
                || b.0.position.x > WRAP_LIMIT_X || b.0.position.x < -WRAP_LIMIT_X;
            if !oob {
                kept.push(b);
            }
            proof {
                let pre = old(self).bullets@.subrange(0, i as int);
                assert(old(self).bullets@.subrange(0, i as int + 1).drop_last() =~= pre);
                assert(old(self).bullets@.subrange(0, i as int + 1).last() == b);
                assert(old(self).bullets@.contains(b));
            }
            i = i + 1;
        }
        proof {
            assert(old(self).bullets@.subrange(0, n as int) =~= old(self).bullets@);
        }
        self.bullets = kept;
    }

    /// Scan each bullet, in order, against the live asteroids, in arena
    /// order. A bullet's first overlap scores one point, marks that one
    /// asteroid destroyed — at most one per bullet — and consumes the
    /// bullet; the scan then moves on to the next bullet. Marked asteroids
    /// keep taking part in later bullets' scans; they leave the arena only
    /// in the removal phase. Returns the score values to report, one per
    /// point, and the marked asteroid ids in mark order.
    pub fn collision_step(&mut self) -> (r: (Vec<u64>, Vec<u64>))
        requires
            forall|i: int|
                0 <= i < old(self).bullets@.len() ==> bullet_ok(#[trigger] old(self).bullets@[i]),
            forall|i: int|
                0 <= i < old(self).asteroids@.len() ==> asteroid_ok(
                    #[trigger] old(self).asteroids@[i].1,
                ),
            old(self).score + old(self).bullets@.len() <= u64::MAX,
        ensures
            final(self).score == old(self).score + hit_count(old(self).bullets@, old(self).asteroids@),
            final(self).score >= old(self).score,
            final(self).bullets@ == missed_bullets(old(self).bullets@, old(self).asteroids@),
            forall|i: int|
                0 <= i < final(self).bullets@.len() ==> bullet_ok(#[trigger] final(self).bullets@[i]),
            r.1@ == destroyed_ids(old(self).bullets@, old(self).asteroids@),
            r.0@.len() == hit_count(old(self).bullets@, old(self).asteroids@),
            forall|i: int| 0 <= i < r.0@.len() ==> r.0@[i] == old(self).score + i + 1,
            final(self).ship == old(self).ship,
            final(self).asteroids == old(self).asteroids,
            final(self).input == old(self).input,
            final(self).max_asteroid_id == old(self).max_asteroid_id,
    {
        let mut notes: Vec<u64> = Vec::new();
        let mut destroyed: Vec<u64> = Vec::new();
        let mut kept: Vec<Bullet> = Vec::new();
        let n = self.bullets.len();
        let mut bi: usize = 0;
        while bi < n
            invariant
                bi <= n,
                n == self.bullets@.len(),
                self.bullets == old(self).bullets,
                self.asteroids == old(self).asteroids,
                self.ship == old(self).ship,
                self.input == old(self).input,
                self.max_asteroid_id == old(self).max_asteroid_id,
                forall|i: int|
                    0 <= i < old(self).bullets@.len() ==> bullet_ok(
                        #[trigger] old(self).bullets@[i],
                    ),
                forall|i: int|
                    0 <= i < old(self).asteroids@.len() ==> asteroid_ok(
                        #[trigger] old(self).asteroids@[i].1,
                    ),
                old(self).score + old(self).bullets@.len() <= u64::MAX,
                0 <= hit_count(old(self).bullets@.subrange(0, bi as int), old(self).asteroids@)
                    <= bi,
                self.score == old(self).score + hit_count(
                    old(self).bullets@.subrange(0, bi as int),
                    old(self).asteroids@,
                ),
                kept@ == missed_bullets(
                    old(self).bullets@.subrange(0, bi as int),
                    old(self).asteroids@,
                ),
                forall|k: int| 0 <= k < kept@.len() ==> bullet_ok(#[trigger] kept@[k]),
                destroyed@ == destroyed_ids(
                    old(self).bullets@.subrange(0, bi as int),
                    old(self).asteroids@,
                ),
                notes@.len() == hit_count(
                    old(self).bullets@.subrange(0, bi as int),
                    old(self).asteroids@,
                ),
                forall|i: int| 0 <= i < notes@.len() ==> notes@[i] == old(self).score + i + 1,
            decreases n - bi,
        {
            let b = self.bullets[bi];
            let hit = find_hit(&b, &self.asteroids);
            proof {
                let pre = old(self).bullets@.subrange(0, bi as int);
                assert(old(self).bullets@.subrange(0, bi as int + 1).drop_last() =~= pre);
                assert(old(self).bullets@.subrange(0, bi as int + 1).last() == b);
            }
            match hit {
                Option::Some(j) => {
                    proof {
                        lemma_first_hit_in_range(b, old(self).asteroids@, 0);
                    }
                    self.score = self.score + 1;
                    notes.push(self.score);
                    let id = self.asteroids[j].0;
                    let already = vec_contains_u64(&destroyed, id);
                    if !already {
                        destroyed.push(id);
                    }
                },
                Option::None => {
                    kept.push(b);
                },
            }
            bi = bi + 1;
        }
        proof {
            assert(old(self).bullets@.subrange(0, n as int) =~= old(self).bullets@);
        }
        self.bullets = kept;
        (notes, destroyed)
    }
}

/// What is known of each split child, whatever the random source returned:
/// it keeps the parent's position, its radius is the parent's divided by
/// the piece count, and its launch values lie in the child ranges.
pub open spec fn child_ranges_ok(c: Asteroid, parent: Asteroid, pieces: u64) -> bool {
    &&& c.obj.radius == parent.obj.radius as int / pieces as int
    &&& c.obj.position == parent.obj.position
    &&& CHILD_SPEED_LO <= c.obj.speed < CHILD_SPEED_HI
    &&& DIR_LO <= c.obj.direction.x < DIR_HI
    &&& DIR_LO <= c.obj.direction.y < DIR_HI
    &&& c.obj.angle < 360
    &&& asteroid_ok(c)
}

impl AsteroidCanvas {
    /// The asteroid carrying the id, if it is live.
    fn find_asteroid(&self, id: u64) -> (r: Option<Asteroid>)
        ensures
            match r {
                Option::Some(a) => exists|i: int|
                    0 <= i < self.asteroids@.len() && (#[trigger] self.asteroids@[i]).0 == id
                        && self.asteroids@[i].1 == a,
                Option::None => !has_id(self.asteroids@, id),
            },
    {
        let n = self.asteroids.len();
        let mut i: usize = 0;
        while i < n
            invariant
                i <= n,
                n == self.asteroids@.len(),
                forall|j: int| 0 <= j < i ==> (#[trigger] self.asteroids@[j]).0 != id,
            decreases n - i,
        {
            if self.asteroids[i].0 == id {
                let a = self.asteroids[i].1;
                proof {
                    assert(self.asteroids@[i as int].0 == id && self.asteroids@[i as int].1 == a);
                }
                return Option::Some(a);
            }
            i = i + 1;
        }
        Option::None
    }

    /// Split one destroyed asteroid: draw a piece count, then append that
    /// many children under fresh, strictly increasing ids. Each child
    /// keeps the parent's position, takes the parent's radius divided by
    /// the piece count, and is launched with fresh random draws.
    pub fn split_one(&mut self, parent: &Asteroid) -> (pieces: u64)
        requires
            integrable(parent.obj),
            0 <= parent.obj.radius <= SCALE,
            old(self).max_asteroid_id + PIECES_HI <= u64::MAX,
            ids_sorted(old(self).asteroids@),
            ids_below(old(self).asteroids@, old(self).max_asteroid_id),
            forall|i: int|
                0 <= i < old(self).asteroids@.len() ==> asteroid_ok(
                    #[trigger] old(self).asteroids@[i].1,
                ),
        ensures
            PIECES_LO <= pieces <= PIECES_HI,
            final(self).max_asteroid_id == old(self).max_asteroid_id + pieces,
            final(self).asteroids@.len() == old(self).asteroids@.len() + pieces,
            forall|i: int|
                0 <= i < old(self).asteroids@.len() ==> final(self).asteroids@[i] == old(
                    self,
                ).asteroids@[i],
            forall|k: int|
                0 <= k < pieces ==> (#[trigger] final(self).asteroids@[
                    old(self).asteroids@.len() + k
                ]).0 == old(self).max_asteroid_id + k + 1,
            forall|k: int|
                0 <= k < pieces ==> child_ranges_ok(
                    (#[trigger] final(self).asteroids@[old(self).asteroids@.len() + k]).1,
                    *parent,
                    pieces,
                ),
            ids_sorted(final(self).asteroids@),
            ids_below(final(self).asteroids@, final(self).max_asteroid_id),
            forall|i: int|
                0 <= i < final(self).asteroids@.len() ==> asteroid_ok(
                    #[trigger] final(self).asteroids@[i].1,
                ),
            forall|i: int|
                0 <= i < final(self).asteroids@.len() ==> has_id(
                    old(self).asteroids@,
                    (#[trigger] final(self).asteroids@[i]).0,
                ) || final(self).asteroids@[i].0 > old(self).max_asteroid_id,
            final(self).ship == old(self).ship,
            final(self).bullets == old(self).bullets,
            final(self).input == old(self).input,
            final(self).score == old(self).score,
    {
        let pieces = random_in_range(PIECES_LO, PIECES_HI + 1);
        let child_radius = ((parent.obj.radius as u64) / pieces) as i64;
        proof {
            vstd::arithmetic::div_mod::lemma_div_pos_is_pos(parent.obj.radius as int, pieces as int);
            vstd::arithmetic::div_mod::lemma_div_nonincreasing(parent.obj.radius as int, pieces as int);
        }
        let mut k: u64 = 0;
        while k < pieces
            invariant
                k <= pieces,
                PIECES_LO <= pieces <= PIECES_HI,
                integrable(parent.obj),
                0 <= parent.obj.radius <= SCALE,
                child_radius == parent.obj.radius as int / pieces as int,
                0 <= child_radius <= SCALE,
                old(self).max_asteroid_id + PIECES_HI <= u64::MAX,
                self.max_asteroid_id == old(self).max_asteroid_id + k,
                self.asteroids@.len() == old(self).asteroids@.len() + k,
                forall|i: int|
                    0 <= i < old(self).asteroids@.len() ==> self.asteroids@[i] == old(
                        self,
                    ).asteroids@[i],
                forall|j: int|
                    0 <= j < k ==> (#[trigger] self.asteroids@[
                        old(self).asteroids@.len() + j
                    ]).0 == old(self).max_asteroid_id + j + 1,
                forall|j: int|
                    0 <= j < k ==> child_ranges_ok(
                        (#[trigger] self.asteroids@[old(self).asteroids@.len() + j]).1,
                        *parent,
                        pieces,
                    ),
                ids_sorted(self.asteroids@),
                ids_below(self.asteroids@, self.max_asteroid_id),
                forall|i: int|
                    0 <= i < self.asteroids@.len() ==> asteroid_ok(
                        #[trigger] self.asteroids@[i].1,
                    ),
                ids_sorted(old(self).asteroids@),
                ids_below(old(self).asteroids@, old(self).max_asteroid_id),
                self.ship == old(self).ship,
                self.bullets == old(self).bullets,
                self.input == old(self).input,
                self.score == old(self).score,
            decreases pieces - k,
        {
            let speed = random_in_range(CHILD_SPEED_LO, CHILD_SPEED_HI);
            let dir_x = random_in_range(DIR_LO, DIR_HI);
            let dir_y = random_in_range(DIR_LO, DIR_HI);
            let angle = random_in_range(0, 360);
            let mut child = Asteroid::new(child_radius);
            child.obj.position = parent.obj.position;
            child.obj.speed = speed as i64;
            child.obj.direction = Vec2I { x: dir_x as i64, y: dir_y as i64 };
            child.obj.angle = angle;
            let prev = Ghost(self.asteroids@);
            self.max_asteroid_id = self.max_asteroid_id + 1;
            self.asteroids.push((self.max_asteroid_id, child));
            proof {
                let s = self.asteroids@;
                assert forall|a: int, b: int| 0 <= a < b < s.len() implies s[a].0 < s[b].0 by {
                    if b == s.len() - 1 {
                        assert(prev@[a].0 <= old(self).max_asteroid_id + k);
                    }
                }
            }
            k = k + 1;
        }
        proof {
            assert forall|i: int| 0 <= i < final(self).asteroids@.len() implies has_id(
                old(self).asteroids@,
                (#[trigger] final(self).asteroids@[i]).0,
            ) || final(self).asteroids@[i].0 > old(self).max_asteroid_id by {
                if i < old(self).asteroids@.len() {
                    assert(old(self).asteroids@[i].0 == final(self).asteroids@[i].0);
                } else {
                    let j = i - old(self).asteroids@.len();
                    assert(final(self).asteroids@[old(self).asteroids@.len() + j].0 == old(
                        self,
                    ).max_asteroid_id + j + 1);
                }
            }
        }
        pieces
    }

    /// Split every destroyed asteroid that is large enough: look each
    /// marked id up in the arena as it stood at scan time, and, where the
    /// asteroid's radius exceeds the split threshold, append its children
    /// as one batch of fresh ids. Asteroids destroyed only by leaving the
    /// play range are never split.
    pub fn split_step(&mut self, destroyed: &Vec<u64>)
        requires
            old(self).max_asteroid_id + PIECES_HI * destroyed@.len() <= u64::MAX,
            ids_sorted(old(self).asteroids@),
            ids_below(old(self).asteroids@, old(self).max_asteroid_id),
            forall|i: int|
                0 <= i < old(self).asteroids@.len() ==> asteroid_ok(
                    #[trigger] old(self).asteroids@[i].1,
                ),
        ensures
            final(self).asteroids@.len() >= old(self).asteroids@.len() + 2 * splittable_count(
                destroyed@,
                old(self).asteroids@,
            ),
            final(self).asteroids@.len() <= old(self).asteroids@.len() + 4 * splittable_count(
                destroyed@,
                old(self).asteroids@,
            ),
            forall|i: int|
                0 <= i < old(self).asteroids@.len() ==> final(self).asteroids@[i] == old(
                    self,
                ).asteroids@[i],
            ids_sorted(final(self).asteroids@),
            ids_below(final(self).asteroids@, final(self).max_asteroid_id),
            forall|i: int|
                0 <= i < final(self).asteroids@.len() ==> asteroid_ok(
                    #[trigger] final(self).asteroids@[i].1,
                ),
            forall|i: int|
                0 <= i < final(self).asteroids@.len() ==> has_id(
                    old(self).asteroids@,
                    (#[trigger] final(self).asteroids@[i]).0,
                ) || final(self).asteroids@[i].0 > old(self).max_asteroid_id,
            exists|counts: Seq<u64>|
                children_groups(
                    split_parents(destroyed@, old(self).asteroids@),
                    counts,
                    final(self).asteroids@.skip(old(self).asteroids@.len() as int),
                ),
            forall|k: int|
                old(self).asteroids@.len() <= k < final(self).asteroids@.len() ==> (
                #[trigger] final(self).asteroids@[k]).0 == old(self).max_asteroid_id + (k - old(
                    self,
                ).asteroids@.len()) + 1,
            final(self).max_asteroid_id == old(self).max_asteroid_id + (
            final(self).asteroids@.len() - old(self).asteroids@.len()),
            final(self).ship == old(self).ship,
            final(self).bullets == old(self).bullets,
            final(self).input == old(self).input,
            final(self).score == old(self).score,
    {
        /* Capture the parents before any children join the arena: the scan
        marked ids against the arena as it stood. */
        let mut parents: Vec<Asteroid> = Vec::new();
        let dn = destroyed.len();
        let mut d: usize = 0;
        while d < dn
            invariant
                d <= dn,
                dn == destroyed@.len(),
                *self == *old(self),
                ids_sorted(old(self).asteroids@),
                parents@.len() <= d,
                parents@.len() == splittable_count(
                    destroyed@.subrange(0, d as int),
                    old(self).asteroids@,
                ),
                parents@ == split_parents(
                    destroyed@.subrange(0, d as int),
                    old(self).asteroids@,
                ),
                forall|k: int|
                    0 <= k < parents@.len() ==> asteroid_ok(#[trigger] parents@[k]),
                forall|i: int|
                    0 <= i < old(self).asteroids@.len() ==> asteroid_ok(
                        #[trigger] old(self).asteroids@[i].1,
                    ),
            decreases dn - d,
        {
            let id = destroyed[d];
            let found = self.find_asteroid(id);
            proof {
                let pre = destroyed@.subrange(0, d as int);
                assert(destroyed@.subrange(0, d as int + 1).drop_last() =~= pre);
                assert(destroyed@.subrange(0, d as int + 1).last() == id);
            }
            match found {
                Option::Some(a) => {
                    proof {
                        let i = choose|i: int|
                            0 <= i < self.asteroids@.len() && (#[trigger] self.asteroids@[
                                i
                            ]).0 == id && self.asteroids@[i].1 == a;
                        assert(asteroid_ok(self.asteroids@[i].1));
                        /* The id names exactly one entry, so whether it
                        splits is decided by the found asteroid alone. */
                        if has_splittable(old(self).asteroids@, id) {
                            let k = choose|k: int|
                                0 <= k < old(self).asteroids@.len() && (
                                #[trigger] old(self).asteroids@[k]).0 == id && old(
                                    self,
                                ).asteroids@[k].1.obj.radius > SPLIT_MIN_RADIUS;
                            lemma_sorted_ids_unique(old(self).asteroids@, i, k);
                        }
                        if a.obj.radius > SPLIT_MIN_RADIUS {
                            lemma_split_parents_push(
                                destroyed@.subrange(0, d as int),
                                id,
                                old(self).asteroids@,
                                i,
                            );
                            assert(destroyed@.subrange(0, d as int).push(id) =~= destroyed@
                                .subrange(0, d as int + 1));
                        }
                    }
                    if a.obj.radius > SPLIT_MIN_RADIUS {
                        parents.push(a);
                    }
                },
                Option::None => {
                    proof {
                        assert(!has_splittable(old(self).asteroids@, id)) by {
                            if has_splittable(old(self).asteroids@, id) {
                                let k = choose|k: int|
                                    0 <= k < old(self).asteroids@.len() && (
                                    #[trigger] old(self).asteroids@[k]).0 == id && old(
                                        self,
                                    ).asteroids@[k].1.obj.radius > SPLIT_MIN_RADIUS;
                                assert(has_id(old(self).asteroids@, id));
                            }
                        }
                    }
                },
            }
            d = d + 1;
        }
        proof {
            assert(destroyed@.subrange(0, dn as int) =~= destroyed@);
        }

        let pn = parents.len();
        let mut pi: usize = 0;
        let ghost mut counts: Seq<u64> = Seq::empty();
        while pi < pn
            invariant
                pi <= pn,
                pn == parents@.len(),
                pn <= destroyed@.len(),
                pn == splittable_count(destroyed@, old(self).asteroids@),
                parents@ == split_parents(destroyed@, old(self).asteroids@),
                forall|k: int| 0 <= k < parents@.len() ==> asteroid_ok(#[trigger] parents@[k]),
                old(self).max_asteroid_id + PIECES_HI * destroyed@.len() <= u64::MAX,
                self.max_asteroid_id + PIECES_HI * (pn - pi) <= u64::MAX,
                self.max_asteroid_id == old(self).max_asteroid_id + (self.asteroids@.len() - old(
                    self,
                ).asteroids@.len()),
                self.asteroids@.len() >= old(self).asteroids@.len() + 2 * pi,
                self.asteroids@.len() <= old(self).asteroids@.len() + 4 * pi,
                children_groups(
                    parents@.subrange(0, pi as int),
                    counts,
                    self.asteroids@.skip(old(self).asteroids@.len() as int),
                ),
                forall|k: int|
                    old(self).asteroids@.len() <= k < self.asteroids@.len() ==> (
                    #[trigger] self.asteroids@[k]).0 == old(self).max_asteroid_id + (k - old(
                        self,
                    ).asteroids@.len()) + 1,
                forall|i: int|
                    0 <= i < old(self).asteroids@.len() ==> self.asteroids@[i] == old(
                        self,
                    ).asteroids@[i],
                ids_sorted(self.asteroids@),
                ids_below(self.asteroids@, self.max_asteroid_id),
                forall|i: int|
                    0 <= i < self.asteroids@.len() ==> asteroid_ok(
                        #[trigger] self.asteroids@[i].1,
                    ),
                forall|i: int|
                    0 <= i < self.asteroids@.len() ==> has_id(
                        old(self).asteroids@,
                        (#[trigger] self.asteroids@[i]).0,
                    ) || self.asteroids@[i].0 > old(self).max_asteroid_id,
                self.ship == old(self).ship,
                self.bullets == old(self).bullets,
                self.input == old(self).input,
                self.score == old(self).score,
            decreases pn - pi,
        {
            let parent = parents[pi];
            let cur = Ghost(*self);
            proof {
                assert(self.max_asteroid_id + PIECES_HI <= u64::MAX) by (nonlinear_arith)
                    requires
                        self.max_asteroid_id + PIECES_HI * (pn - pi) <= u64::MAX,
                        pi < pn,
                        PIECES_HI == 4,
                ;
            }
            let pieces = self.split_one(&parent);
            proof {
                assert forall|i: int| 0 <= i < self.asteroids@.len() implies has_id(
                    old(self).asteroids@,
                    (#[trigger] self.asteroids@[i]).0,
                ) || self.asteroids@[i].0 > old(self).max_asteroid_id by {
                    if has_id(cur@.asteroids@, self.asteroids@[i].0) {
                        let w = choose|w: int|
                            0 <= w < cur@.asteroids@.len() && (#[trigger] cur@.asteroids@[
                                w
                            ]).0 == self.asteroids@[i].0;
                        assert(has_id(old(self).asteroids@, cur@.asteroids@[w].0)
                            || cur@.asteroids@[w].0 > old(self).max_asteroid_id);
                    }
                }
                /* The new group extends the child segment by one parent's
                children, so the segment keeps its per-parent shape. */
                let prev_counts = counts;
                counts = counts.push(pieces);
                let base = old(self).asteroids@.len() as int;
                let seg = self.asteroids@.skip(base);
                let seg0 = cur@.asteroids@.skip(base);
                assert(seg.take(seg.len() - pieces) =~= seg0);
                assert(counts.drop_last() =~= prev_counts);
                assert(parents@.subrange(0, pi as int + 1).drop_last() =~= parents@.subrange(
                    0,
                    pi as int,
                ));
                assert(parents@.subrange(0, pi as int + 1).last() == parent);
                assert forall|k: int|
                    seg.len() - pieces <= k < seg.len() implies child_ranges_ok(
                    (#[trigger] seg[k]).1,
                    parent,
                    pieces,
                ) by {
                    let j = k - (seg.len() - pieces);
                    assert(seg[k] == self.asteroids@[cur@.asteroids@.len() + j]);
                    assert(child_ranges_ok(
                        self.asteroids@[cur@.asteroids@.len() + j].1,
                        parent,
                        pieces,
                    ));
                }
                assert(children_groups(parents@.subrange(0, pi as int + 1), counts, seg));
                assert forall|k: int|
                    old(self).asteroids@.len() <= k < self.asteroids@.len() implies (
                #[trigger] self.asteroids@[k]).0 == old(self).max_asteroid_id + (k - old(
                    self,
                ).asteroids@.len()) + 1 by {
                    if k < cur@.asteroids@.len() {
                        assert(self.asteroids@[k] == cur@.asteroids@[k]);
                    } else {
                        let j = k - cur@.asteroids@.len();
                        assert(self.asteroids@[cur@.asteroids@.len() + j].0
                            == cur@.max_asteroid_id + j + 1);
                    }
                }
            }
            pi = pi + 1;
        }
        proof {
            assert(parents@.subrange(0, pn as int) =~= parents@);
            assert(children_groups(
                split_parents(destroyed@, old(self).asteroids@),
                counts,
                self.asteroids@.skip(old(self).asteroids@.len() as int),
            ));
        }
    }

    /// Apply the removal batch: drop every asteroid whose id was marked
    /// destroyed and every asteroid — split children included — that has
    /// left the play range.
    pub fn despawn_asteroids_step(&mut self, removed: &Vec<u64>)
        requires
            ids_sorted(old(self).asteroids@),
        ensures
            final(self).asteroids@ == retained_asteroids(old(self).asteroids@, removed@),
            forall|k: int|
                0 <= k < final(self).asteroids@.len() ==> old(self).asteroids@.contains(
                    #[trigger] final(self).asteroids@[k],
                ),
            ids_sorted(final(self).asteroids@),
            final(self).ship == old(self).ship,
            final(self).bullets == old(self).bullets,
            final(self).input == old(self).input,
            final(self).score == old(self).score,
            final(self).max_asteroid_id == old(self).max_asteroid_id,
    {
        let mut kept: Vec<(u64, Asteroid)> = Vec::new();
        let n = self.asteroids.len();
        let mut i: usize = 0;
        while i < n
            invariant
                i <= n,
                n == self.asteroids@.len(),
                *self == *old(self),
                ids_sorted(old(self).asteroids@),
                kept@ == retained_asteroids(old(self).asteroids@.subrange(0, i as int), removed@),
                forall|k: int|
                    0 <= k < kept@.len() ==> old(self).asteroids@.contains(#[trigger] kept@[k]),
                ids_sorted(kept@),
                kept@.len() > 0 ==> forall|j: int|
                    i <= j < n ==> kept@.last().0 < (#[trigger] old(self).asteroids@[j]).0,
            decreases n - i,
        {
            let p = self.asteroids[i];
            let marked = vec_contains_u64(removed, p.0);
            let out = p.1.obj.position.y > RANGE_LIMIT_Y || p.1.obj.position.y < -RANGE_LIMIT_Y
                || p.1.obj.position.x > RANGE_LIMIT_X || p.1.obj.position.x < -RANGE_LIMIT_X;
            proof {
                let pre = old(self).asteroids@.subrange(0, i as int);
                assert(old(self).asteroids@.subrange(0, i as int + 1).drop_last() =~= pre);
                assert(old(self).asteroids@.subrange(0, i as int + 1).last() == p);
                assert(old(self).asteroids@.contains(p));
            }
            if !(marked || out) {
                let prev = Ghost(kept@);
                kept.push(p);
                proof {
                    assert forall|a: int, b: int| 0 <= a < b < kept@.len() implies kept@[a].0
                        < kept@[b].0 by {
                        if b == kept@.len() - 1 && prev@.len() > 0 {
                            assert(prev@[a].0 <= prev@.last().0);
                        }
                    }
                    assert forall|j: int| i + 1 <= j < n implies kept@.last().0 < (
                    #[trigger] old(self).asteroids@[j]).0 by {
                        assert(old(self).asteroids@[i as int].0 < old(self).asteroids@[j].0);
                    }
                }
            }
            i = i + 1;
        }
        proof {
            assert(old(self).asteroids@.subrange(0, n as int) =~= old(self).asteroids@);
        }
        self.asteroids = kept;
    }

    /// Move everything: the ship (with wrap and drag), then every bullet
    /// and every asteroid (pure integration), all by the same frame time.
    pub fn integrate_step(&mut self, delta_time: u64)
        requires
            delta_time <= DT_LIMIT,
            integrable(old(self).ship.obj),
            s_abs(old(self).ship.obj.speed as int) <= SPEED_LIMIT + THRUST_STEP,
            forall|i: int|
                0 <= i < old(self).bullets@.len() ==> bullet_ok(#[trigger] old(self).bullets@[i]),
            forall|i: int|
                0 <= i < old(self).asteroids@.len() ==> asteroid_ok(
                    #[trigger] old(self).asteroids@[i].1,
                ),
        ensures
            final(self).ship == ship_step_f(old(self).ship, delta_time as int),
            integrable(final(self).ship.obj),
            s_abs(final(self).ship.obj.speed as int) <= DRAGGED_SPEED,
            final(self).ship.obj.radius == old(self).ship.obj.radius,
            final(self).bullets@.len() == old(self).bullets@.len(),
            forall|i: int|
                0 <= i < final(self).bullets@.len() ==> (#[trigger] final(self).bullets@[i]).0
                    == obj_step_f(old(self).bullets@[i].0, delta_time as int),
            forall|i: int|
                0 <= i < final(self).bullets@.len() ==> bullet_ok(#[trigger] final(self).bullets@[i]),
            final(self).asteroids@.len() == old(self).asteroids@.len(),
            forall|i: int|
                0 <= i < final(self).asteroids@.len() ==> (#[trigger] final(self).asteroids@[i]).0
                    == old(self).asteroids@[i].0,
            forall|i: int|
                0 <= i < final(self).asteroids@.len() ==> (#[trigger] final(self).asteroids@[
                    i
                ]).1.obj == obj_step_f(old(self).asteroids@[i].1.obj, delta_time as int),
            forall|i: int|
                0 <= i < final(self).asteroids@.len() ==> asteroid_ok(
                    #[trigger] final(self).asteroids@[i].1,
                ),
            ids_sorted(old(self).asteroids@) ==> ids_sorted(final(self).asteroids@),
            forall|m: u64| ids_below(old(self).asteroids@, m) ==> ids_below(
                final(self).asteroids@,
                m,
            ),
            final(self).input == old(self).input,
            final(self).score == old(self).score,
            final(self).max_asteroid_id == old(self).max_asteroid_id,
    {
        self.ship.update(delta_time);

        let bn = self.bullets.len();
        let mut i: usize = 0;
        while i < bn
            invariant
                i <= bn,
                bn == self.bullets@.len(),
                bn == old(self).bullets@.len(),
                delta_time <= DT_LIMIT,
                self.ship == ship_step_f(old(self).ship, delta_time as int),
                integrable(self.ship.obj),
                s_abs(self.ship.obj.speed as int) <= DRAGGED_SPEED,
                self.ship.obj.radius == old(self).ship.obj.radius,
                self.asteroids == old(self).asteroids,
                self.input == old(self).input,
                self.score == old(self).score,
                self.max_asteroid_id == old(self).max_asteroid_id,
                forall|j: int|
                    0 <= j < old(self).bullets@.len() ==> bullet_ok(
                        #[trigger] old(self).bullets@[j],
                    ),
                forall|j: int|
                    0 <= j < i ==> (#[trigger] self.bullets@[j]).0 == obj_step_f(
                        old(self).bullets@[j].0,
                        delta_time as int,
                    ) && bullet_ok(self.bullets@[j]),
                forall|j: int| i <= j < bn ==> self.bullets@[j] == old(self).bullets@[j],
            decreases bn - i,
        {
            let mut b = self.bullets[i];
            b.update(delta_time);
            self.bullets[i] = b;
            i = i + 1;
        }

        let an = self.asteroids.len();
        let mut k: usize = 0;
        while k < an
            invariant
                k <= an,
                an == self.asteroids@.len(),
                an == old(self).asteroids@.len(),
                delta_time <= DT_LIMIT,
                self.ship == ship_step_f(old(self).ship, delta_time as int),
                integrable(self.ship.obj),
                s_abs(self.ship.obj.speed as int) <= DRAGGED_SPEED,
                self.ship.obj.radius == old(self).ship.obj.radius,
                self.bullets@.len() == old(self).bullets@.len(),
                forall|j: int|
                    0 <= j < self.bullets@.len() ==> (#[trigger] self.bullets@[j]).0 == obj_step_f(
                        old(self).bullets@[j].0,
                        delta_time as int,
                    ) && bullet_ok(self.bullets@[j]),
                self.input == old(self).input,
                self.score == old(self).score,
                self.max_asteroid_id == old(self).max_asteroid_id,
                forall|j: int|
                    0 <= j < old(self).asteroids@.len() ==> asteroid_ok(
                        #[trigger] old(self).asteroids@[j].1,
                    ),
                forall|j: int|
                    0 <= j < k ==> (#[trigger] self.asteroids@[j]).0 == old(self).asteroids@[j].0
                        && self.asteroids@[j].1.obj == obj_step_f(
                        old(self).asteroids@[j].1.obj,
                        delta_time as int,
                    ) && asteroid_ok(self.asteroids@[j].1),
                forall|j: int| k <= j < an ==> self.asteroids@[j] == old(self).asteroids@[j],
            decreases an - k,
        {
            let entry = self.asteroids[k];
            let id = entry.0;
            let mut a = entry.1;
            a.update(delta_time);
            self.asteroids[k] = (id, a);
            k = k + 1;
        }
    }

    /// One full tick: apply input, fire, refill, despawn bullets, scan for
    /// collisions, split, apply the removal batch, then integrate motion.
    ///
    /// Returns the score values to report, one per bullet–asteroid
    /// collision resolved this tick, in order. The contract pins the whole
    /// tick: the ship's evolution is a closed-form function of the held
    /// keys and the fire control; the bullets that remain are exactly the
    /// in-bounds ones that hit nothing, integrated ([`tick_bullets_shape`]);
    /// the arena that remains is the refill and the split children behind
    /// the old entries, with destroyed and out-of-range asteroids removed
    /// as one batch and every survivor integrated ([`tick_arena_shape`]).
    /// The score grows by exactly one point per resolved collision and
    /// never decreases; every asteroid id in the new state either was live
    /// before or is strictly above every id ever handed out before, so no
    /// id is ever reused.
    pub fn update(&mut self, delta_time: u64) -> (notes: Vec<u64>)
        requires
            wf(*old(self)),
            delta_time <= DT_LIMIT,
            old(self).score + old(self).bullets@.len() + 1 <= u64::MAX,
            old(self).max_asteroid_id + PIECES_HI * (old(self).bullets@.len() + 2) + 1
                <= u64::MAX,
        ensures
            wf(*final(self)),
            final(self).ship == ship_step_f(
                (SpaceShip {
                    last_shot: if wants_fire(*old(self)) {
                        0
                    } else {
                        old(self).ship.last_shot
                    },
                    ..ship_after_input(*old(self))
                }),
                delta_time as int,
            ),
            tick_bullets_shape(*old(self), *final(self), notes@, delta_time as int),
            exists|spawn_seg: Seq<(u64, Asteroid)>, children: Seq<(u64, Asteroid)>, counts: Seq<
                u64,
            >|
                tick_arena_shape(
                    *old(self),
                    *final(self),
                    delta_time as int,
                    spawn_seg,
                    children,
                    counts,
                ),
            final(self).score == old(self).score + notes@.len(),
            final(self).score >= old(self).score,
            forall|i: int| 0 <= i < notes@.len() ==> notes@[i] == old(self).score + i + 1,
            final(self).max_asteroid_id >= old(self).max_asteroid_id,
            forall|i: int|
                0 <= i < final(self).asteroids@.len() ==> has_id(
                    old(self).asteroids@,
                    (#[trigger] final(self).asteroids@[i]).0,
                ) || final(self).asteroids@[i].0 > old(self).max_asteroid_id,
            final(self).input == old(self).input,
    {
        let w0 = Ghost(*self);
        self.apply_input();
        let w1 = Ghost(*self);
        self.fire_step();
        let w2 = Ghost(*self);
        proof {
            assert(forall|i: int|
                0 <= i < w2@.bullets@.len() ==> bullet_ok(#[trigger] w2@.bullets@[i]));
        }
        self.spawn_step();
        let w3 = Ghost(*self);
        self.despawn_bullets_step();
        let w4 = Ghost(*self);
        proof {
            lemma_surviving_len(w3@.bullets@);
            assert forall|i: int| 0 <= i < w4@.bullets@.len() implies bullet_ok(
                #[trigger] w4@.bullets@[i],
            ) by {
                assert(w3@.bullets@.contains(w4@.bullets@[i]));
                let w = choose|w: int|
                    0 <= w < w3@.bullets@.len() && w3@.bullets@[w] == w4@.bullets@[i];
            }
        }
        let pair = self.collision_step();
        let notes = pair.0;
        let destroyed = pair.1;
        let w5 = Ghost(*self);
        proof {
            lemma_destroyed_at_most_one_per_bullet(w4@.bullets@, w4@.asteroids@);
            lemma_hit_count_bounds(w4@.bullets@, w4@.asteroids@);
            assert(destroyed@.len() <= w4@.bullets@.len());
            let m0 = w0@.max_asteroid_id as int;
            let b0 = w0@.bullets@.len() as int;
            let m5 = w5@.max_asteroid_id as int;
            let dl = destroyed@.len() as int;
            assert(m5 + PIECES_HI * dl <= u64::MAX) by (nonlinear_arith)
                requires
                    m5 <= m0 + 1,
                    0 <= dl <= b0 + 1,
                    m0 + PIECES_HI * (b0 + 2) + 1 <= u64::MAX,
                    PIECES_HI == 4,
            ;
        }
        self.split_step(&destroyed);
        let w6 = Ghost(*self);
        self.despawn_asteroids_step(&destroyed);
        let w7 = Ghost(*self);
        proof {
            /* The removal batch keeps only live entries: carry their
            well-formedness and id bounds over from the arena they came
            from. */
            assert forall|i: int| 0 <= i < w7@.asteroids@.len() implies asteroid_ok(
                #[trigger] w7@.asteroids@[i].1,
            ) && w7@.asteroids@[i].0 <= w7@.max_asteroid_id by {
                assert(w6@.asteroids@.contains(w7@.asteroids@[i]));
                let w = choose|w: int|
                    0 <= w < w6@.asteroids@.len() && w6@.asteroids@[w] == w7@.asteroids@[i];
                assert(asteroid_ok(w6@.asteroids@[w].1));
                assert(w6@.asteroids@[w].0 <= w6@.max_asteroid_id);
            }
        }
        self.integrate_step(delta_time);
        proof {
            let fin = *final(self);
            /* The ship keeps its zero radius through every phase, so the
            integrated ship is well formed. */
            assert(ship_ok(fin.ship));
            /* Ids never move after the removal batch, so ordering, the id
            bound and freshness all carry through integration. */
            assert forall|i: int| 0 <= i < fin.asteroids@.len() implies (has_id(
                old(self).asteroids@,
                (#[trigger] fin.asteroids@[i]).0,
            ) || fin.asteroids@[i].0 > old(self).max_asteroid_id) && fin.asteroids@[i].0
                <= fin.max_asteroid_id by {
                let id = fin.asteroids@[i].0;
                assert(id == w7@.asteroids@[i].0);
                assert(w6@.asteroids@.contains(w7@.asteroids@[i]));
                let w = choose|w: int|
                    0 <= w < w6@.asteroids@.len() && w6@.asteroids@[w] == w7@.asteroids@[i];
                /* Each live id traces back through the split batch to the
                arena at spawn time, and from there to the starting state
                or beyond its largest id. */
                assert(has_id(w3@.asteroids@, id) || id > w3@.max_asteroid_id);
                if has_id(w3@.asteroids@, id) {
                    let v = choose|v: int|
                        0 <= v < w3@.asteroids@.len() && (#[trigger] w3@.asteroids@[v]).0 == id;
                    assert(has_id(old(self).asteroids@, id) || id > old(self).max_asteroid_id);
                }
            }

            /* Reconstruct the tick's whole effect against the starting
            state: the fire decision and the fired bullet read only values
            the input phase left unchanged, and the refill corner cannot be
            hit, so the scan's outcome over the refilled arena equals its
            outcome over the starting arena. */
            let dt = delta_time as int;
            let a0 = old(self).asteroids@;
            let m0 = old(self).max_asteroid_id;
            assert(w1@.ship == ship_after_input(*old(self)));
            assert(wants_fire(w1@) == wants_fire(*old(self)));
            let fired = if wants_fire(*old(self)) {
                old(self).bullets@.push(fired_bullet(ship_after_input(*old(self))))
            } else {
                old(self).bullets@
            };
            assert(w3@.bullets@ == fired);
            let live = tick_live_bullets(*old(self));
            assert(w4@.bullets@ == live);

            let spawn_seg = w3@.asteroids@.skip(a0.len() as int);
            assert(w3@.asteroids@ =~= a0 + spawn_seg);
            if a0.len() < MAX_ASTEROIDS {
                assert(spawn_seg[0] == w3@.asteroids@.last());
                let s = spawn_seg[0];
                lemma_surviving_in_bounds(fired);
                assert forall|i: int| 0 <= i < live.len() implies !overlaps(
                    (#[trigger] live[i]).0,
                    s.1.obj,
                ) by {
                    assert(live[i] == w4@.bullets@[i]);
                    assert(bullet_ok(w4@.bullets@[i]));
                    lemma_spawn_corner_misses(live[i], s.1);
                }
                lemma_scan_ignores_missed_append(live, a0, s);
                assert(a0.push(s) =~= w3@.asteroids@);
                assert(hit_count(live, w3@.asteroids@) == hit_count(live, a0));
            } else {
                assert(w3@.asteroids@ =~= a0);
            }
            assert(w4@.asteroids@ == w3@.asteroids@);
            let missed = missed_bullets(live, a0);
            assert(destroyed@ == destroyed_ids(live, a0));
            assert(w5@.bullets@ == missed);
            assert(notes@.len() == hit_count(live, a0));

            let a1 = a0 + spawn_seg;
            assert(w5@.asteroids@ == a1);
            assert(w5@.max_asteroid_id == m0 + spawn_seg.len());
            let children = w6@.asteroids@.skip(a1.len() as int);
            assert(w6@.asteroids@ =~= a1 + children);
            let counts = choose|c: Seq<u64>|
                children_groups(
                    split_parents(destroyed@, w5@.asteroids@),
                    c,
                    w6@.asteroids@.skip(w5@.asteroids@.len() as int),
                );
            assert(children_groups(split_parents(destroyed_ids(live, a0), a1), counts, children));
            assert forall|k: int| 0 <= k < children.len() implies (#[trigger] children[k]).0 == m0
                + spawn_seg.len() + k + 1 by {
                assert(children[k] == w6@.asteroids@[a1.len() + k]);
            }
            assert(w6@.max_asteroid_id == m0 + spawn_seg.len() + children.len());

            let a2 = a1 + children;
            let retained = retained_asteroids(a2, destroyed_ids(live, a0));
            assert(w7@.asteroids@ == retained);
            assert(final(self).bullets@.len() == missed.len());
            assert forall|i: int| 0 <= i < missed.len() implies (
            #[trigger] final(self).bullets@[i]).0 == obj_step_f(missed[i].0, dt) by {
                assert(w7@.bullets@[i] == missed[i]);
            }
            assert(tick_bullets_shape(*old(self), *final(self), notes@, dt));
            assert(tick_arena_shape(*old(self), *final(self), dt, spawn_seg, children, counts));
        }
        notes
    }
}

/// The asteroids that stay after the removal batch, in order: an entry
/// leaves when its id was marked destroyed or it sits outside the play
/// range.
pub open spec fn retained_asteroids(
    asts: Seq<(u64, Asteroid)>,
    removed: Seq<u64>,
) -> Seq<(u64, Asteroid)>
    decreases asts.len(),
{
    if asts.len() == 0 {
        Seq::empty()
    } else {
        let rest = retained_asteroids(asts.drop_last(), removed);
        let p = asts.last();
        if removed.contains(p.0) || asteroid_out_of_range(p.1) {
            rest
        } else {
            rest.push(p)
        }
    }
}

/// Whether the vector holds the id.
fn vec_contains_u64(v: &Vec<u64>, x: u64) -> (r: bool)
    ensures
        r == v@.contains(x),
{
    let n = v.len();
    let mut i: usize = 0;
    while i < n
        invariant
            i <= n,
            n == v@.len(),
            forall|j: int| 0 <= j < i ==> v@[j] != x,
        decreases n - i,
    {
        if v[i] == x {
            return true;
        }
        i = i + 1;
    }
    false
}

/// The first asteroid, in arena order, whose circle overlaps the bullet.
fn find_hit(b: &Bullet, asts: &Vec<(u64, Asteroid)>) -> (r: Option<usize>)
    requires
        overlap_testable(b.0),
        forall|i: int| 0 <= i < asts@.len() ==> asteroid_ok(#[trigger] asts@[i].1),
    ensures
        match r {
            Option::Some(j) => j < asts@.len() && first_hit(*b, asts@, 0) == Option::Some(
                j as int,
            ),
            Option::None => first_hit(*b, asts@, 0) is None,
        },
{
    let n = asts.len();
    let mut j: usize = 0;
    while j < n
        invariant
            j <= n,
            n == asts@.len(),
            overlap_testable(b.0),
            forall|i: int| 0 <= i < asts@.len() ==> asteroid_ok(#[trigger] asts@[i].1),
            first_hit(*b, asts@, 0) == first_hit(*b, asts@, j as int),
        decreases n - j,
    {
        let hit = GameObject::does_overlap(&b.0, &asts[j].1.obj);
        if hit {
            return Option::Some(j);
        }
        proof {
            assert(first_hit(*b, asts@, j as int) == first_hit(*b, asts@, j as int + 1));
        }
        j = j + 1;
    }
    Option::None
}

/// The bullets that stay after the out-of-bounds despawn, in order.
pub open spec fn surviving_bullets(bs: Seq<Bullet>) -> Seq<Bullet>
    decreases bs.len(),
{
    if bs.len() == 0 {
        Seq::empty()
    } else {
        let rest = surviving_bullets(bs.drop_last());
        if bullet_out_of_bounds(bs.last()) {
            rest
        } else {
            rest.push(bs.last())
        }
    }
}

/// The despawn keeps at most as many bullets as there were.
pub proof fn lemma_surviving_len(bs: Seq<Bullet>)
    ensures
        surviving_bullets(bs).len() <= bs.len(),
    decreases bs.len(),
{
    if bs.len() != 0 {
        lemma_surviving_len(bs.drop_last());
    }
}

/// Index of the first asteroid at or after `i` whose circle overlaps the
/// bullet, if any: the scan order of the collision phase.
pub open spec fn first_hit(b: Bullet, asts: Seq<(u64, Asteroid)>, i: int) -> Option<int>
    decreases asts.len() - i,
{
    if i < 0 || i >= asts.len() {
        None
    } else if overlaps(b.0, asts[i].1.obj) {
        Some(i)
    } else {
        first_hit(b, asts, i + 1)
    }
}

/// Whether the bullet overlaps any live asteroid.
pub open spec fn bullet_hits(b: Bullet, asts: Seq<(u64, Asteroid)>) -> bool {
    first_hit(b, asts, 0) is Some
}

/// How many of the bullets hit some asteroid: each hit scores one point
/// and removes the bullet.
pub open spec fn hit_count(bs: Seq<Bullet>, asts: Seq<(u64, Asteroid)>) -> int
    decreases bs.len(),
{
    if bs.len() == 0 {
        0
    } else {
        hit_count(bs.drop_last(), asts) + if bullet_hits(bs.last(), asts) {
            1int
        } else {
            0int
        }
    }
}

/// The score gained in one scan is between zero and the bullet count.
pub proof fn lemma_hit_count_bounds(bs: Seq<Bullet>, asts: Seq<(u64, Asteroid)>)
    ensures
        0 <= hit_count(bs, asts) <= bs.len(),
    decreases bs.len(),
{
    if bs.len() != 0 {
        lemma_hit_count_bounds(bs.drop_last(), asts);
    }
}

/// The bullets that hit nothing this tick and stay live, in order.
pub open spec fn missed_bullets(bs: Seq<Bullet>, asts: Seq<(u64, Asteroid)>) -> Seq<Bullet>
    decreases bs.len(),
{
    if bs.len() == 0 {
        Seq::empty()
    } else {
        let rest = missed_bullets(bs.drop_last(), asts);
        if bullet_hits(bs.last(), asts) {
            rest
        } else {
            rest.push(bs.last())
        }
    }
}

/// Ids of the asteroids destroyed by bullets, in the order the bullets
/// found them, without repetition: each bullet destroys at most the first
/// asteroid it overlaps, and an id already marked is not marked again.
pub open spec fn destroyed_ids(bs: Seq<Bullet>, asts: Seq<(u64, Asteroid)>) -> Seq<u64>
    decreases bs.len(),
{
    if bs.len() == 0 {
        Seq::empty()
    } else {
        let rest = destroyed_ids(bs.drop_last(), asts);
        match first_hit(bs.last(), asts, 0) {
            Option::Some(j) => if rest.contains(asts[j].0) {
                rest
            } else {
                rest.push(asts[j].0)
            },
            Option::None => rest,
        }
    }
}

/// No more asteroids are destroyed in a tick than there are bullets: each
/// bullet destroys at most one.
pub proof fn lemma_destroyed_at_most_one_per_bullet(bs: Seq<Bullet>, asts: Seq<(u64, Asteroid)>)
    ensures
        destroyed_ids(bs, asts).len() <= bs.len(),
    decreases bs.len(),
{
    if bs.len() != 0 {
        lemma_destroyed_at_most_one_per_bullet(bs.drop_last(), asts);
    }
}

/// Whether the id names a live asteroid large enough to split.
pub open spec fn has_splittable(asts: Seq<(u64, Asteroid)>, id: u64) -> bool {
    exists|i: int|
        0 <= i < asts.len() && (#[trigger] asts[i]).0 == id && asts[i].1.obj.radius
            > SPLIT_MIN_RADIUS
}

/// How many of the marked ids name live asteroids large enough to split:
/// exactly these asteroids leave children behind.
pub open spec fn splittable_count(destroyed: Seq<u64>, asts: Seq<(u64, Asteroid)>) -> int
    decreases destroyed.len(),
{
    if destroyed.len() == 0 {
        0
    } else {
        splittable_count(destroyed.drop_last(), asts) + if has_splittable(
            asts,
            destroyed.last(),
        ) {
            1int
        } else {
            0int
        }
    }
}

/// With strictly increasing ids, an id names at most one arena entry.
pub proof fn lemma_sorted_ids_unique(s: Seq<(u64, Asteroid)>, i: int, j: int)
    requires
        ids_sorted(s),
        0 <= i < s.len(),
        0 <= j < s.len(),
        s[i].0 == s[j].0,
    ensures
        i == j,
{
    if i < j {
        assert(s[i].0 < s[j].0);
    } else if j < i {
        assert(s[j].0 < s[i].0);
    }
}

/// A found hit index lies inside the arena.
pub proof fn lemma_first_hit_in_range(b: Bullet, asts: Seq<(u64, Asteroid)>, i: int)
    requires
        first_hit(b, asts, i) is Some,
    ensures
        i <= first_hit(b, asts, i)->Some_0 < asts.len(),
    decreases asts.len() - i,
{
    if !(i < 0 || i >= asts.len()) && !overlaps(b.0, asts[i].1.obj) {
        lemma_first_hit_in_range(b, asts, i + 1);
    }
}

/// Every bullet kept by the out-of-bounds despawn is inside the play
/// bounds.
pub proof fn lemma_surviving_in_bounds(bs: Seq<Bullet>)
    ensures
        forall|i: int|
            0 <= i < surviving_bullets(bs).len() ==> !bullet_out_of_bounds(
                #[trigger] surviving_bullets(bs)[i],
            ),
    decreases bs.len(),
{
    if bs.len() != 0 {
        lemma_surviving_in_bounds(bs.drop_last());
        let rest = surviving_bullets(bs.drop_last());
        let all = surviving_bullets(bs);
        assert forall|i: int| 0 <= i < all.len() implies !bullet_out_of_bounds(
            #[trigger] all[i],
        ) by {
            if i < rest.len() {
                assert(all[i] == rest[i]);
            } else {
                assert(all[i] == bs.last());
            }
        }
    }
}

/// A freshly spawned asteroid sits at a corner outside the reach of any
/// in-bounds bullet: the corner is more than its radius away from the
/// whole bullet zone, so the refill can never be hit in the tick that
/// created it.
pub proof fn lemma_spawn_corner_misses(b: Bullet, s: Asteroid)
    requires
        !bullet_out_of_bounds(b),
        b.0.radius == 0,
        spawn_ranges_ok(s),
    ensures
        !overlaps(b.0, s.obj),
{
    let dx = s.obj.position.x - b.0.position.x;
    let dy = s.obj.position.y - b.0.position.y;
    assert(dx * dx >= 1_265_625_000_000 && dy * dy >= 0) by (nonlinear_arith)
        requires
            s_abs(dx) >= 1_125_000,
    ;
}

/// Scanning against an arena extended by one asteroid that no bullet
/// overlaps gives the same hits, the same surviving bullets and the same
/// destroyed ids as scanning the arena alone.
pub proof fn lemma_scan_ignores_missed_append(
    bs: Seq<Bullet>,
    asts: Seq<(u64, Asteroid)>,
    s: (u64, Asteroid),
)
    requires
        forall|i: int| 0 <= i < bs.len() ==> !overlaps((#[trigger] bs[i]).0, s.1.obj),
    ensures
        hit_count(bs, asts.push(s)) == hit_count(bs, asts),
        missed_bullets(bs, asts.push(s)) == missed_bullets(bs, asts),
        destroyed_ids(bs, asts.push(s)) == destroyed_ids(bs, asts),
    decreases bs.len(),
{
    if bs.len() != 0 {
        lemma_scan_ignores_missed_append(bs.drop_last(), asts, s);
        let b = bs.last();
        assert(!overlaps(b.0, s.1.obj));
        lemma_first_hit_ignores_missed_append(b, asts, s, 0);
        match first_hit(b, asts, 0) {
            Option::Some(j) => {
                lemma_first_hit_in_range(b, asts, 0);
                assert(asts.push(s)[j] == asts[j]);
            },
            Option::None => {},
        }
    }
}

/// One bullet's first hit is unchanged by appending an asteroid it does
/// not overlap.
pub proof fn lemma_first_hit_ignores_missed_append(
    b: Bullet,
    asts: Seq<(u64, Asteroid)>,
    s: (u64, Asteroid),
    i: int,
)
    requires
        !overlaps(b.0, s.1.obj),
    ensures
        first_hit(b, asts.push(s), i) == first_hit(b, asts, i),
    decreases asts.len() + 1 - i,
{
    if i < 0 || i > asts.len() {
        assert(first_hit(b, asts.push(s), i) is None);
        assert(first_hit(b, asts, i) is None);
    } else if i == asts.len() {
        assert(asts.push(s)[i] == s);
        assert(first_hit(b, asts.push(s), i + 1) is None);
        assert(first_hit(b, asts, i) is None);
    } else {
        assert(asts.push(s)[i] == asts[i]);
        if !overlaps(b.0, asts[i].1.obj) {
            lemma_first_hit_ignores_missed_append(b, asts, s, i + 1);
        }
    }
}

/// The asteroids the split phase works through: for each marked id, in
/// mark order, the live asteroid of that id where it is large enough to
/// split.
pub open spec fn split_parents(destroyed: Seq<u64>, asts: Seq<(u64, Asteroid)>) -> Seq<Asteroid>
    decreases destroyed.len(),
{
    if destroyed.len() == 0 {
        Seq::empty()
    } else {
        let rest = split_parents(destroyed.drop_last(), asts);
        if has_splittable(asts, destroyed.last()) {
            rest.push(
                asts[choose|i: int|
                    0 <= i < asts.len() && (#[trigger] asts[i]).0 == destroyed.last()
                        && asts[i].1.obj.radius > SPLIT_MIN_RADIUS].1,
            )
        } else {
            rest
        }
    }
}

/// Marking one more id whose asteroid is live and large enough appends
/// exactly that asteroid to the parents the split phase works through:
/// with strictly increasing ids the marked id names no other entry.
pub proof fn lemma_split_parents_push(
    destroyed: Seq<u64>,
    id: u64,
    asts: Seq<(u64, Asteroid)>,
    i: int,
)
    requires
        ids_sorted(asts),
        0 <= i < asts.len(),
        asts[i].0 == id,
        asts[i].1.obj.radius > SPLIT_MIN_RADIUS,
    ensures
        split_parents(destroyed.push(id), asts) == split_parents(destroyed, asts).push(
            asts[i].1,
        ),
{
    let s = destroyed.push(id);
    assert(s.drop_last() =~= destroyed);
    assert(has_splittable(asts, id));
    assert forall|c: int| 0 <= c < asts.len() && (#[trigger] asts[c]).0 == id implies c == i by {
        lemma_sorted_ids_unique(asts, i, c);
    }
}

/// The split phase's whole output: the appended entries are the parents'
/// child groups in parent order. `counts` holds each parent's drawn piece
/// count, between two and four; the parent's group keeps its position and
/// shares its radius divided by that count.
pub open spec fn children_groups(
    parents: Seq<Asteroid>,
    counts: Seq<u64>,
    seg: Seq<(u64, Asteroid)>,
) -> bool
    decreases parents.len(),
{
    if parents.len() == 0 {
        counts.len() == 0 && seg.len() == 0
    } else {
        &&& counts.len() == parents.len()
        &&& PIECES_LO <= counts.last() <= PIECES_HI
        &&& counts.last() <= seg.len()
        &&& children_groups(
            parents.drop_last(),
            counts.drop_last(),
            seg.take(seg.len() - counts.last()),
        )
        &&& forall|k: int|
            seg.len() - counts.last() <= k < seg.len() ==> child_ranges_ok(
                (#[trigger] seg[k]).1,
                parents.last(),
                counts.last(),
            )
    }
}

/// An asteroid built by [`AsteroidCanvas::spawn_from`]: spawn radius, a
/// spawn corner, the given launch values, fresh-entity defaults otherwise.
pub open spec fn spawned_asteroid(
    left: bool,
    below: bool,
    speed: u64,
    dir_x: u64,
    dir_y: u64,
    angle: u64,
) -> Asteroid {
    Asteroid {
        obj: GameObject {
            radius: SPAWN_RADIUS,
            position: Vec2I {
                x: if left { ((-SPAWN_X) as i64) } else { SPAWN_X },
                y: if below { ((-SPAWN_Y) as i64) } else { SPAWN_Y },
            },
            speed: speed as i64,
            direction: Vec2I { x: dir_x as i64, y: dir_y as i64 },
            angle: angle,
            ..GameObject::new_spec()
        },
    }
}

/// What the spawn draws guarantee of a fresh asteroid, whatever the random
/// source returned.
pub open spec fn spawn_ranges_ok(a: Asteroid) -> bool {
    &&& a.obj.radius == SPAWN_RADIUS
    &&& (a.obj.position.x == SPAWN_X || a.obj.position.x == -SPAWN_X)
    &&& (a.obj.position.y == SPAWN_Y || a.obj.position.y == -SPAWN_Y)
    &&& SPAWN_SPEED_LO <= a.obj.speed < SPAWN_SPEED_HI
    &&& DIR_LO <= a.obj.direction.x < DIR_HI
    &&& DIR_LO <= a.obj.direction.y < DIR_HI
    &&& a.obj.angle < 360
    &&& asteroid_ok(a)
}

} // verus!
