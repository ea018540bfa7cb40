//! Destination-port control: stepping the port up or down while keeping it
//! even and in range.

use vstd::prelude::*;
use crate::config::MAX_PORT;

verus! {

/// Clamps a proposed port value into `[0, MAX_PORT]`.
pub open spec fn clamp_port(v: int) -> int {
    if v < 0 {
        0
    } else if v > MAX_PORT {
        MAX_PORT as int
    } else {
        v
    }
}

/// What nudging yields: the current port moved by `delta`, clamped into
/// `[0, MAX_PORT]`, then rounded down to the nearest even value.
pub open spec fn nudge_spec(current_port: u16, delta: i32) -> int {
    let clamped = clamp_port(current_port + delta);
    clamped - clamped % 2
}

/// Moves the destination port by `delta`, clamping into `[0, MAX_PORT]` and
/// rounding down to the nearest even value. Overflowing arithmetic is
/// clamped, never an error.
pub fn nudge_port(current_port: u16, delta: i32) -> (new_port: u16)
    ensures
        new_port == nudge_spec(current_port, delta),
        new_port % 2 == 0,
        new_port <= MAX_PORT,
{
    let proposed: i64 = current_port as i64 + delta as i64;
    let clamped: i64 = if proposed < 0 {
        0
    } else if proposed > MAX_PORT as i64 {
        MAX_PORT as i64
    } else {
        proposed
    };
    (clamped - clamped % 2) as u16
}

} // verus!
