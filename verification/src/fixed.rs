//! Fixed-point arithmetic for the simulation.
//!
//! The world is measured in micro-units: one world unit is `SCALE` ticks of
//! an `i64`. Positions, speeds, radii and heading components all use this
//! scale, so `0.0001` world units per millisecond is the integer `100`, and
//! the play-field half-width of `11` world units is `11_000_000`.

use vstd::prelude::*;

verus! {

/// One world unit in micro-units.
pub const SCALE: i64 = 1_000_000;

/// Positions are clamped to this magnitude. The play field is a few units
/// across, so the clamp is six orders of magnitude away from anything an
/// entity can reach before the out-of-bounds rules remove it; it only keeps
/// the integrator total on degenerate states.
pub const POS_LIMIT: i64 = 1_000_000_000_000;

/// Largest heading-component magnitude: asteroid headings are drawn up to
/// one hundred world units per component.
pub const DIR_LIMIT: i64 = 100_000_000;

/// Largest speed magnitude a well-formed entity carries between ticks.
pub const SPEED_LIMIT: i64 = 1_000_000;

/// Ship speed may exceed `SPEED_LIMIT` by one thrust step between the input
/// phase and the drag that ends the tick; integration admits this slack.
pub const SPEED_SLACK: i64 = 1_100_000;

/// Largest frame time, in milliseconds, that one tick accepts.
pub const DT_LIMIT: u64 = 1_000_000;

/// Largest velocity magnitude one tick can produce:
/// `DIR_LIMIT * SPEED_SLACK * DT_LIMIT / SCALE`.
pub const VEL_LIMIT: i64 = 110_000_000_000_000;

pub open spec fn s_abs(v: int) -> int {
    if v < 0 { -v } else { v }
}

/// Division rounding toward zero — the fixed-point analogue of scaling by a
/// fraction. (Spec-mode `/` rounds toward negative infinity instead.)
pub open spec fn tdiv(a: int, d: int) -> int {
    if a >= 0 { a / d } else { -((-a) / d) }
}

/// Displacement of one tick along one axis: heading component times speed
/// times elapsed milliseconds, brought back to micro-units.
pub open spec fn vel_spec(dir: int, speed: int, dt: int) -> int {
    tdiv(dir * speed * dt, SCALE as int)
}

/// Positions are kept inside `[-POS_LIMIT, POS_LIMIT]`.
pub open spec fn clamp_spec(v: int) -> int {
    if v > POS_LIMIT as int {
        POS_LIMIT as int
    } else if v < -(POS_LIMIT as int) {
        -(POS_LIMIT as int)
    } else {
        v
    }
}

/// Truncating division shrinks magnitudes: `|tdiv(a, d)| <= |a| / d <= b / d`
/// whenever `|a| <= b`.
pub proof fn lemma_tdiv_abs(a: int, b: int, d: int)
    requires
        d >= 1,
        s_abs(a) <= b,
    ensures
        s_abs(tdiv(a, d)) <= b / d,
        b / d <= b,
{
    vstd::arithmetic::div_mod::lemma_div_pos_is_pos(s_abs(a), d);
    vstd::arithmetic::div_mod::lemma_div_is_ordered(s_abs(a), b, d);
    vstd::arithmetic::div_mod::lemma_div_pos_is_pos(b, d);
    vstd::arithmetic::div_mod::lemma_div_nonincreasing(b, d);
}

/// `a * b / d` rounded toward zero, computed through 128-bit intermediates
/// so the product cannot overflow.
pub fn mul_div_trunc(a: i64, b: i64, d: i64) -> (r: i64)
    requires
        d > 0,
        s_abs(tdiv(a * b, d as int)) <= i64::MAX,
    ensures
        r == tdiv(a * b, d as int),
{
    proof {
        assert(s_abs((a as i128) as int * (b as i128) as int)
            <= 0x4000_0000_0000_0000_0000_0000_0000_0000int) by (nonlinear_arith)
            requires
                -0x8000_0000_0000_0000 <= (a as i128) as int <= 0x7fff_ffff_ffff_ffff,
                -0x8000_0000_0000_0000 <= (b as i128) as int <= 0x7fff_ffff_ffff_ffff,
        ;
    }
    let p: i128 = (a as i128) * (b as i128);
    let dd: u128 = d as u128;
    if p >= 0 {
        let q: u128 = (p as u128) / dd;
        q as i64
    } else {
        let q: u128 = ((-p) as u128) / dd;
        -(q as i64)
    }
}

/// Heading times speed times frame time, scaled back to micro-units.
pub fn scaled_velocity(dir: i64, speed: i64, dt: u64) -> (r: i64)
    requires
        s_abs(dir as int) <= DIR_LIMIT,
        s_abs(speed as int) <= SPEED_SLACK,
        dt <= DT_LIMIT,
    ensures
        r == vel_spec(dir as int, speed as int, dt as int),
        s_abs(r as int) <= VEL_LIMIT,
{
    proof {
        assert(s_abs((dir as i128) as int * (speed as i128) as int) <= 110_000_000_000_000int)
            by (nonlinear_arith)
            requires
                s_abs((dir as i128) as int) <= DIR_LIMIT,
                s_abs((speed as i128) as int) <= SPEED_SLACK,
        ;
    }
    let p1: i128 = (dir as i128) * (speed as i128);
    proof {
        assert(s_abs(p1 as int * (dt as i128) as int) <= 110_000_000_000_000_000_000int)
            by (nonlinear_arith)
            requires
                s_abs(p1 as int) <= 110_000_000_000_000int,
                0 <= (dt as i128) as int <= DT_LIMIT,
        ;
    }
    let p: i128 = p1 * (dt as i128);
    proof {
        lemma_tdiv_abs(p as int, 110_000_000_000_000_000_000int, SCALE as int);
        assert(110_000_000_000_000_000_000int / (SCALE as int) == VEL_LIMIT);
    }
    if p >= 0 {
        let q: u128 = (p as u128) / (SCALE as u128);
        q as i64
    } else {
        let q: u128 = ((-p) as u128) / (SCALE as u128);
        -(q as i64)
    }
}

/// Position plus displacement, clamped to the representable play area.
pub fn clamp_add(pos: i64, delta: i64) -> (r: i64)
    requires
        s_abs(pos as int) <= POS_LIMIT,
        s_abs(delta as int) <= 100_000_000_000_000_000,
    ensures
        r == clamp_spec(pos + delta),
        s_abs(r as int) <= POS_LIMIT,
{
    let s: i128 = (pos as i128) + (delta as i128);
    if s > POS_LIMIT as i128 {
        POS_LIMIT
    } else if s < -(POS_LIMIT as i128) {
        -POS_LIMIT
    } else {
        s as i64
    }
}

} // verus!
