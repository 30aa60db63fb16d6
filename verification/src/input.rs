//! Steering: held keys turn the player, a fixed step per tick.

use vstd::prelude::*;

verus! {

/// How far one tick turns the player, in hundredths of a radian.
pub const ROTATION_SPEED: i32 = 9;

/// The direction of one tick's turn.
#[derive(Clone, Copy, Debug, PartialEq, Eq)]
pub enum Turn {
    /// Counter-clockwise: the angle grows.
    Left,
    /// Clockwise: the angle shrinks.
    Right,
}

impl Turn {
    /// The signed step of this turn, in hundredths of a radian.
    pub open spec fn delta(self) -> i32 {
        match self {
            Turn::Left => ROTATION_SPEED,
            Turn::Right => (-ROTATION_SPEED) as i32,
        }
    }

    /// The signed step of this turn, in hundredths of a radian.
    pub fn rotation(self) -> (d: i32)
        ensures
            d == self.delta(),
    {
        match self {
            Turn::Left => ROTATION_SPEED,
            Turn::Right => -ROTATION_SPEED,
        }
    }
}

/// What the held keys ask for. The left key is looked at first, so it wins
/// when both are held.
pub open spec fn steer_spec(left_held: bool, right_held: bool) -> Option<Turn> {
    if left_held {
        Some(Turn::Left)
    } else if right_held {
        Some(Turn::Right)
    } else {
        None
    }
}

/// What the held keys ask for.
#[verifier::when_used_as_spec(steer_spec)]
pub fn steer(left_held: bool, right_held: bool) -> (turn: Option<Turn>)
    ensures
        turn == steer_spec(left_held, right_held),
{
    if left_held {
        Some(Turn::Left)
    } else if right_held {
        Some(Turn::Right)
    } else {
        None
    }
}

/// One tick of steering: returns the player's orientation after it.
///
/// `rotate` composes a turn by so many hundredths of a radian with an
/// orientation. It is called once when a key is held, and not at all
/// otherwise.
pub fn handle_input<O, F: Fn(O, i32) -> O>(
    orientation: O,
    left_held: bool,
    right_held: bool,
    rotate: F,
) -> (out: O)
    requires
        steer_spec(left_held, right_held) matches Some(turn) ==> call_requires(
            rotate,
            (orientation, turn.delta()),
        ),
    ensures
        left_held ==> call_ensures(rotate, (orientation, ROTATION_SPEED), out),
        !left_held && right_held ==> call_ensures(rotate, (orientation, Turn::Right.delta()), out),
        !left_held && !right_held ==> out == orientation,
{
    match steer(left_held, right_held) {
        Some(turn) => rotate(orientation, turn.rotation()),
        None => orientation,
    }
}

/// With both keys held the turn is the left one, by the full step: not
/// none, and not the right one.
pub proof fn lemma_both_keys_turn_left()
    ensures
        steer_spec(true, true) == Some(Turn::Left),
        Turn::Left.delta() == ROTATION_SPEED,
        Turn::Right.delta() == -ROTATION_SPEED,
        Turn::Left.delta() != 0,
        Turn::Left.delta() != Turn::Right.delta(),
{
}

} // verus!
