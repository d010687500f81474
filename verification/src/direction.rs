//! The logical direction of a motor and its wiring correction.

use vstd::prelude::*;
use vstd::std_specs::convert::FromSpecImpl;

verus! {

/// What a motor is asked to do.
#[derive(Clone, Copy, Debug, PartialEq, Eq, Structural)]
pub enum Direction {
    Forward,
    Backward,
    Stopped,
}

/// Values that can be mirrored, as a motor's direction is when the motor is
/// mounted the other way round.
pub trait Invert: Sized {
    /// The mirrored value.
    spec fn inverted(self) -> Self;

    fn invert(self) -> (r: Self)
        ensures
            r == self.inverted(),
    ;
}

impl Direction {
    /// The direction that a raw selector names: 1 is forward, 2 is backward,
    /// and every other value stops the motor.
    pub open spec fn from_raw(raw: u8) -> Direction {
        if raw == 1 {
            Direction::Forward
        } else if raw == 2 {
            Direction::Backward
        } else {
            Direction::Stopped
        }
    }
}

impl Invert for Direction {
    open spec fn inverted(self) -> Direction {
        match self {
            Direction::Forward => Direction::Backward,
            Direction::Backward => Direction::Forward,
            Direction::Stopped => Direction::Stopped,
        }
    }

    fn invert(self) -> (r: Direction) {
        match self {
            Direction::Forward => Direction::Backward,
            Direction::Backward => Direction::Forward,
            Direction::Stopped => Direction::Stopped,
        }
    }
}

impl From<u8> for Direction {
    fn from(value: u8) -> (d: Direction)
        ensures
            d == Direction::from_raw(value),
    {
        match value {
            1 => Direction::Forward,
            2 => Direction::Backward,
            _ => Direction::Stopped,
        }
    }
}

impl FromSpecImpl<u8> for Direction {
    open spec fn obeys_from_spec() -> bool {
        true
    }

    open spec fn from_spec(v: u8) -> Direction {
        Direction::from_raw(v)
    }
}

/// Mirroring a direction twice gives the direction back.
pub proof fn invert_is_an_involution(d: Direction)
    ensures
        d.inverted().inverted() == d,
{
}

/// Mirroring exchanges forward and backward and leaves a stopped motor stopped.
pub proof fn invert_swaps_forward_and_backward(d: Direction)
    ensures
        d.inverted() == Direction::Backward <==> d == Direction::Forward,
        d.inverted() == Direction::Forward <==> d == Direction::Backward,
        d.inverted() == Direction::Stopped <==> d == Direction::Stopped,
{
}

/// Only the selectors 1 and 2 set a motor in motion: 1 alone names forward,
/// 2 alone names backward, and all others name stopped.
pub proof fn from_raw_selects(raw: u8)
    ensures
        Direction::from_raw(raw) == Direction::Forward <==> raw == 1,
        Direction::from_raw(raw) == Direction::Backward <==> raw == 2,
        Direction::from_raw(raw) == Direction::Stopped <==> (raw != 1 && raw != 2),
{
}

} // verus!
