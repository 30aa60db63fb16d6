//! Camera follow: the camera sits on the player, at a fixed depth.

use vstd::prelude::*;

verus! {

/// The camera's depth, in hundredths of a distance unit: behind every sprite.
pub const FIXED_DEPTH: i32 = 99_999;

/// A place in the world. The plane is `x` and `y`; `z` is depth.
#[derive(Debug, PartialEq)]
pub struct Position<T> {
    pub x: T,
    pub y: T,
    pub z: T,
}

/// One tick of camera follow: puts the camera on the player's place in the
/// plane, at the fixed depth, whatever the camera's place was before.
///
/// `scalar` turns a count of hundredths into a coordinate.
pub fn update_camera<T: Copy, F: Fn(i32) -> T>(
    camera: &mut Position<T>,
    player: &Position<T>,
    scalar: F,
)
    requires
        call_requires(scalar, (FIXED_DEPTH,)),
    ensures
        final(camera).x == player.x,
        final(camera).y == player.y,
        call_ensures(scalar, (FIXED_DEPTH,), final(camera).z),
{
    *camera = Position { x: player.x, y: player.y, z: scalar(FIXED_DEPTH) };
}

} // verus!
