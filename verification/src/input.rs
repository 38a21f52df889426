//! Latched input state: keyboard booleans, mouse position in whole pixels,
//! and rotation angles derived from mouse drags in micro-radians.
//!
//! The simulation reads the keyboard booleans each tick; the rotation
//! angles feed the render transforms. A drag across the full canvas turns
//! by half a circle: each move adds `pi * delta / extent` to the angle.

use vstd::prelude::*;

use crate::fixed;
use crate::fixed::{clamp_spec, s_abs, tdiv, POS_LIMIT};

verus! {

/// Half a circle in micro-radians.
pub const PI_MICRO: i64 = 3_141_593;

/// Largest pixel coordinate or canvas extent the input model accepts.
pub const COORD_LIMIT: i64 = 1_000_000_000;

/// Latched keyboard and mouse state, read-only to the simulation.
#[derive(Clone, Copy, Debug, PartialEq, Eq, Structural)]
pub struct UserInput {
    pub mouse_down: bool,
    /// Mouse position in pixels, origin at the canvas corner.
    pub mouse_x: i64,
    pub mouse_y: i64,
    /// Mouse position in pixels, origin at the canvas centre.
    pub mouse_x_centered: i64,
    pub mouse_y_centered: i64,
    /// Accumulated drag rotation in micro-radians.
    pub rotation_x_axis: i64,
    pub rotation_y_axis: i64,
    pub spacebar: bool,
    pub keyboard_w: bool,
    pub keyboard_s: bool,
    pub keyboard_a: bool,
    pub keyboard_d: bool,
}

/// Mouse coordinates within the accepted pixel range and accumulated
/// rotations within the clamped range.
pub open spec fn input_ok(u: UserInput) -> bool {
    &&& s_abs(u.mouse_x as int) <= COORD_LIMIT
    &&& s_abs(u.mouse_y as int) <= COORD_LIMIT
    &&& s_abs(u.rotation_x_axis as int) <= POS_LIMIT
    &&& s_abs(u.rotation_y_axis as int) <= POS_LIMIT
}

impl UserInput {
    /// The all-clear initial state.
    pub open spec fn new_spec() -> UserInput {
        UserInput {
            mouse_down: false,
            mouse_x: 0,
            mouse_y: 0,
            mouse_x_centered: 0,
            mouse_y_centered: 0,
            rotation_x_axis: 0,
            rotation_y_axis: 0,
            spacebar: false,
            keyboard_w: false,
            keyboard_s: false,
            keyboard_a: false,
            keyboard_d: false,
        }
    }

    /// No button held, mouse at the corner, no accumulated rotation.
    pub fn new() -> (u: UserInput)
        ensures
            u == UserInput::new_spec(),
            input_ok(u),
    {
        UserInput {
            mouse_down: false,
            mouse_x: 0,
            mouse_y: 0,
            mouse_x_centered: 0,
            mouse_y_centered: 0,
            rotation_x_axis: 0,
            rotation_y_axis: 0,
            spacebar: false,
            keyboard_w: false,
            keyboard_s: false,
            keyboard_a: false,
            keyboard_d: false,
        }
    }

    /// Latch a press or release, remembering where it happened.
    pub fn update_mouse_down(&mut self, x: i64, y: i64, is_down: bool)
        requires
            s_abs(x as int) <= COORD_LIMIT,
            s_abs(y as int) <= COORD_LIMIT,
        ensures
            *final(self) == (UserInput { mouse_x: x, mouse_y: y, mouse_down: is_down, ..*old(self) }),
    {
        self.mouse_x = x;
        self.mouse_y = y;
        self.mouse_down = is_down;
    }

    /// Track the pointer: remember its position, derive the centred
    /// position, and, while the button is held, turn the drag into
    /// rotation deltas scaled by the canvas extent. The vertical axis is
    /// inverted first, since pixel rows grow downward.
    pub fn update_mouse_position(&mut self, x: i64, y: i64, width: i64, height: i64)
        requires
            input_ok(*old(self)),
            s_abs(x as int) <= COORD_LIMIT,
            s_abs(y as int) <= COORD_LIMIT,
            1 <= width <= COORD_LIMIT,
            1 <= height <= COORD_LIMIT,
        ensures
            ({
                let inverted_y = height - y;
                let x_delta = x - old(self).mouse_x;
                let y_delta = inverted_y - old(self).mouse_y;
                let rot_x_delta: int = if old(self).mouse_down {
                    tdiv(PI_MICRO * y_delta, height as int)
                } else {
                    0
                };
                let rot_y_delta: int = if old(self).mouse_down {
                    tdiv(PI_MICRO * x_delta, width as int)
                } else {
                    0
                };
                *final(self) == (UserInput {
                    mouse_x: x,
                    mouse_y: y,
                    mouse_x_centered: (x - width / 2) as i64,
                    mouse_y_centered: (height / 2 - y) as i64,
                    rotation_x_axis: clamp_spec(old(self).rotation_x_axis + rot_x_delta) as i64,
                    rotation_y_axis: clamp_spec(old(self).rotation_y_axis + rot_y_delta) as i64,
                    ..*old(self)
                })
            }),
            input_ok(*final(self)),
    {
        let inverted_y = height - y;
        let x_delta = x - self.mouse_x;
        let y_delta = inverted_y - self.mouse_y;
        proof {
            fixed::lemma_tdiv_abs(PI_MICRO * y_delta, 10_000_000_000_000_000int, height as int);
            fixed::lemma_tdiv_abs(PI_MICRO * x_delta, 10_000_000_000_000_000int, width as int);
        }
        let rotation_x_delta: i64 = if self.mouse_down {
            fixed::mul_div_trunc(PI_MICRO, y_delta, height)
        } else {
            0
        };
        let rotation_y_delta: i64 = if self.mouse_down {
            fixed::mul_div_trunc(PI_MICRO, x_delta, width)
        } else {
            0
        };

        let half_w: i64 = ((width as u64) / 2) as i64;
        let half_h: i64 = ((height as u64) / 2) as i64;
        self.mouse_x_centered = x - half_w;
        self.mouse_y_centered = half_h - y;
        self.mouse_x = x;
        self.mouse_y = y;
        self.rotation_x_axis = fixed::clamp_add(self.rotation_x_axis, rotation_x_delta);
        self.rotation_y_axis = fixed::clamp_add(self.rotation_y_axis, rotation_y_delta);
    }

    /// Latch the fire control.
    pub fn update_spacebar(&mut self, value: bool)
        ensures
            *final(self) == (UserInput { spacebar: value, ..*old(self) }),
    {
        self.spacebar = value;
    }

    /// Latch forward thrust.
    pub fn update_keyboard_w(&mut self, value: bool)
        ensures
            *final(self) == (UserInput { keyboard_w: value, ..*old(self) }),
    {
        self.keyboard_w = value;
    }

    /// Latch rotate-left.
    pub fn update_keyboard_a(&mut self, value: bool)
        ensures
            *final(self) == (UserInput { keyboard_a: value, ..*old(self) }),
    {
        self.keyboard_a = value;
    }

    /// Latch backward thrust.
    pub fn update_keyboard_s(&mut self, value: bool)
        ensures
            *final(self) == (UserInput { keyboard_s: value, ..*old(self) }),
    {
        self.keyboard_s = value;
    }

    /// Latch rotate-right.
    pub fn update_keyboard_d(&mut self, value: bool)
        ensures
            *final(self) == (UserInput { keyboard_d: value, ..*old(self) }),
    {
        self.keyboard_d = value;
    }
}

} // verus!
