//! Positions, and the camera that follows the player.

use vstd::prelude::*;

verus! {

/// A position in the world: `x` to the right, `y` up, `z` toward the viewer.
/// `T` is the number type that the positions are held in.
#[derive(Clone, Copy, Debug, PartialEq, Eq)]
pub struct Translation<T> {
    pub x: T,
    pub y: T,
    pub z: T,
}

impl<T: Copy> Translation<T> {
    pub fn new(x: T, y: T, z: T) -> (r: Translation<T>)
        ensures
            r.x == x,
            r.y == y,
            r.z == z,
    {
        Translation { x, y, z }
    }
}

/// Moves the camera over the player: the camera takes the player's `x` and
/// `y` and keeps its own depth. No smoothing: after the call the two match.
pub fn camera_follow<T: Copy>(camera: &mut Translation<T>, player: &Translation<T>)
    ensures
        final(camera).x == player.x,
        final(camera).y == player.y,
        final(camera).z == old(camera).z,
{
    camera.x = player.x;
    camera.y = player.y;
}

} // verus!
