//! The movement-key mapping: which velocity the pressed keys give the
//! player. The engine shell scales the result by the frame's elapsed time
//! and hands it to the physics controller.
use vstd::prelude::*;

use crate::PLAYER_SPEED;

verus! {

/// Velocity, in world units per second, the pressed movement keys give the
/// player: opposite keys cancel, and no key on an axis leaves that axis at
/// zero.
pub fn move_input(up: bool, down: bool, right: bool, left: bool) -> (v: (i64, i64))
    ensures
        v.0 == (if right { PLAYER_SPEED as int } else { 0 }) - (if left { PLAYER_SPEED as int } else { 0 }),
        v.1 == (if up { PLAYER_SPEED as int } else { 0 }) - (if down { PLAYER_SPEED as int } else { 0 }),
{
    let mut vx: i64 = 0;
    let mut vy: i64 = 0;
    if up {
        vy = vy + PLAYER_SPEED;
    }
    if down {
        vy = vy - PLAYER_SPEED;
    }
    if right {
        vx = vx + PLAYER_SPEED;
    }
    if left {
        vx = vx - PLAYER_SPEED;
    }
    (vx, vy)
}

} // verus!
