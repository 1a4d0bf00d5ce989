use vstd::prelude::*;

use crate::geometry::{input_region, Rect};
use crate::state::BehavioralState;

verus! {

/// Pixels travelled per movement tick.
pub const STEP: i32 = 10;

/// The next horizontal offset: one step in the travel direction; a character
/// that has left the screen on one side comes back in on the other.
pub open spec fn next_x_spec(x: int, width: int, screen_width: int, left: bool) -> int {
    if left {
        if x - STEP <= -width {
            screen_width
        } else {
            x - STEP
        }
    } else {
        if x + STEP >= screen_width {
            -width
        } else {
            x + STEP
        }
    }
}

/// The horizontal offset after one step from `x`, with wraparound at the
/// screen edges.
pub fn next_x(x: i32, width: u32, screen_width: i32, left: bool) -> (r: i32)
    requires
        width <= i32::MAX,
    ensures
        r == next_x_spec(x as int, width as int, screen_width as int, left),
{
    let w: i64 = width as i64;
    if left {
        if (x as i64) - (STEP as i64) <= -w {
            screen_width
        } else {
            x - STEP
        }
    } else {
        if (x as i64) + (STEP as i64) >= screen_width as i64 {
            -(width as i32)
        } else {
            x + STEP
        }
    }
}

/// One movement tick: a running character moves to its next offset; in any
/// other state it stays where it is (`None`).
pub fn movement_tick(state: BehavioralState, x: i32, width: u32, screen_width: i32, left: bool) -> (r:
    Option<i32>)
    requires
        width <= i32::MAX,
    ensures
        state != BehavioralState::Running <==> r is None,
        r is Some ==> r->Some_0 == next_x_spec(x as int, width as int, screen_width as int, left),
{
    if state == BehavioralState::Running {
        Some(next_x(x, width, screen_width, left))
    } else {
        None
    }
}

/// Where the character stands: its fixed size and vertical offset, its
/// horizontal offset, and its fixed direction of travel.
#[derive(Clone, Copy, Debug, PartialEq, Eq, Structural)]
pub struct Placement {
    pub width: u32,
    pub height: u32,
    pub x: i32,
    pub y: i32,
    pub left: bool,
}

impl Placement {
    /// One movement tick on a screen `screen_width` pixels wide. A running
    /// character takes one step, and the new input region (the character's
    /// rectangle at the new offset, on the window's top edge) is returned; in any
    /// other state nothing changes and `None` is returned.
    pub fn tick(&mut self, state: BehavioralState, screen_width: i32) -> (r: Option<Rect>)
        requires
            old(self).width <= i32::MAX,
        ensures
            state != BehavioralState::Running ==> r is None && *final(self) == *old(self),
            state == BehavioralState::Running ==> {
                &&& final(self).x == next_x_spec(
                    old(self).x as int,
                    old(self).width as int,
                    screen_width as int,
                    old(self).left,
                )
                &&& *final(self) == (Placement { x: final(self).x, ..*old(self) })
                &&& r == Some(Rect { x: final(self).x, y: 0, width: old(self).width, height: old(self).height })
            },
    {
        match movement_tick(state, self.x, self.width, screen_width, self.left) {
            Some(x) => {
                self.x = x;
                Some(input_region(x, 0, self.width, self.height))
            },
            None => None,
        }
    }
}

} // verus!
