//! How the four movement keys move the player.

use vstd::prelude::*;

verus! {

/// The player's speed, in world units per second.
pub const PLAYER_SPEED: u32 = 300;

/// The player marker, with its movement speed in world units per second.
#[derive(Clone, Copy, Debug, PartialEq, Eq, Structural)]
pub struct Player {
    speed: u32,
}

impl Player {
    pub closed spec fn spec_speed(self) -> int {
        self.speed as int
    }

    /// The player as it is spawned: moving at `PLAYER_SPEED`.
    pub fn new() -> (r: Player)
        ensures
            r.spec_speed() == PLAYER_SPEED,
    {
        Player { speed: PLAYER_SPEED }
    }

    pub fn speed(&self) -> (r: u32)
        ensures
            r == self.spec_speed(),
    {
        self.speed
    }
}

/// Which of the four movement keys are held this frame.
#[derive(Clone, Copy, Debug, PartialEq, Eq, Structural)]
pub struct MovementKeys {
    /// The key that moves left (A).
    pub left: bool,
    /// The key that moves right (D).
    pub right: bool,
    /// The key that moves up (W).
    pub up: bool,
    /// The key that moves down (S).
    pub down: bool,
}

/// The direction along one axis: +1 for the positive key alone, -1 for the
/// negative key alone, 0 for both or neither.
pub open spec fn axis(negative: bool, positive: bool) -> int {
    (if positive { 1int } else { 0int }) - (if negative { 1int } else { 0int })
}

impl MovementKeys {
    pub open spec fn dir_x(self) -> int {
        axis(self.left, self.right)
    }

    pub open spec fn dir_y(self) -> int {
        axis(self.down, self.up)
    }
}

/// The velocity, in world units per second, of a player moving at `speed`
/// while `keys` are held.
pub open spec fn velocity(speed: int, keys: MovementKeys) -> (int, int) {
    (speed * keys.dir_x(), speed * keys.dir_y())
}

fn axis_sign(negative: bool, positive: bool) -> (r: i8)
    ensures
        r == axis(negative, positive),
{
    let mut r: i8 = 0;
    if positive {
        r = r + 1;
    }
    if negative {
        r = r - 1;
    }
    r
}

/// The direction that the held keys ask for, one unit per axis at most.
pub fn movement_direction(keys: MovementKeys) -> (r: (i8, i8))
    ensures
        r.0 == keys.dir_x(),
        r.1 == keys.dir_y(),
{
    (axis_sign(keys.left, keys.right), axis_sign(keys.down, keys.up))
}

fn scaled(speed: u32, direction: i8) -> (r: i64)
    requires
        -1 <= direction <= 1,
    ensures
        r == speed as int * direction as int,
{
    if direction > 0 {
        assert(speed as int * direction as int == speed as int) by (nonlinear_arith)
            requires
                direction == 1,
        ;
        speed as i64
    } else if direction < 0 {
        assert(speed as int * direction as int == -speed as int) by (nonlinear_arith)
            requires
                direction == -1,
        ;
        -(speed as i64)
    } else {
        0
    }
}

/// The player's velocity, in world units per second, while `keys` are held:
/// its speed along each axis that one key of the axis asks for. Over a frame
/// the player moves by this velocity times the frame's length in seconds.
pub fn player_movement(player: &Player, keys: MovementKeys) -> (r: (i64, i64))
    ensures
        (r.0 as int, r.1 as int) == velocity(player.spec_speed(), keys),
{
    let (dx, dy) = movement_direction(keys);
    (scaled(player.speed, dx), scaled(player.speed, dy))
}

/// Each movement key held alone moves the player at its full speed along a
/// single axis, in the key's direction: left toward negative `x`, right
/// toward positive `x`, up toward positive `y`, down toward negative `y`.
pub proof fn lemma_single_key_moves_one_axis(player: Player)
    requires
        player.spec_speed() == PLAYER_SPEED,
    ensures
        velocity(player.spec_speed(), MovementKeys { left: true, right: false, up: false, down: false })
            == (-300int, 0int),
        velocity(player.spec_speed(), MovementKeys { left: false, right: true, up: false, down: false })
            == (300int, 0int),
        velocity(player.spec_speed(), MovementKeys { left: false, right: false, up: true, down: false })
            == (0int, 300int),
        velocity(player.spec_speed(), MovementKeys { left: false, right: false, up: false, down: true })
            == (0int, -300int),
{
}

} // verus!
