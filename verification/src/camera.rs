//! First-person camera control: which way a movement goes, and the limit
//! that keeps the pitch away from the poles.
//!
//! Angles are single-precision degrees held by their bit patterns. The
//! library compares them; it leaves the trigonometry to its caller.

use vstd::prelude::*;
use crate::scalar::is_less;
use crate::scalar::is_nan;
use crate::scalar::less_than;
use crate::scalar::order_key;

verus! {

/// A direction of travel relative to where the camera looks.
#[derive(Clone, Copy, PartialEq, Eq, Structural, Debug)]
pub enum Direction {
    FORWARD,
    BACKWARD,
    LEFT,
    RIGHT,
}

/// One of the two axes along which the camera travels: the way it looks, or
/// its right, which is level because it is the look direction crossed with
/// the world's up.
#[derive(Clone, Copy, PartialEq, Eq, Structural, Debug)]
pub enum Axis {
    Forward,
    Right,
}

/// A movement of the camera: along `axis`, against it where `negative`.
#[derive(Clone, Copy, PartialEq, Eq, Structural, Debug)]
pub struct Movement {
    pub axis: Axis,
    pub negative: bool,
}

/// Units that the camera travels in one second: 10.
pub const SPEED: u32 = 0x4120_0000;

/// Degrees that the camera turns for one unit of look input: 0.1.
pub const SENSITIVITY: u32 = 0x3dcc_cccd;

/// The steepest pitch that the camera takes, in degrees: 89.9, just inside
/// the pole at 90, where the camera's right would no longer be defined.
pub const PITCH_LIMIT: u32 = 0x42b3_cccd;

/// The steepest downward pitch: -89.9.
pub const NEGATIVE_PITCH_LIMIT: u32 = 0xc2b3_cccd;

/// A right angle in degrees: 90.
pub const RIGHT_ANGLE: u32 = 0x42b4_0000;

impl Direction {
    /// The movement that a direction stands for: forward and backward go
    /// along and against the way the camera looks, right and left along and
    /// against its right. None has a part along the world's up of its own.
    pub open spec fn movement_of(self) -> Movement {
        match self {
            Direction::FORWARD => Movement { axis: Axis::Forward, negative: false },
            Direction::BACKWARD => Movement { axis: Axis::Forward, negative: true },
            Direction::LEFT => Movement { axis: Axis::Right, negative: true },
            Direction::RIGHT => Movement { axis: Axis::Right, negative: false },
        }
    }

    /// The direction that undoes this one.
    pub open spec fn opposite(self) -> Direction {
        match self {
            Direction::FORWARD => Direction::BACKWARD,
            Direction::BACKWARD => Direction::FORWARD,
            Direction::LEFT => Direction::RIGHT,
            Direction::RIGHT => Direction::LEFT,
        }
    }

    /// The movement that this direction stands for.
    pub fn movement(self) -> (movement: Movement)
        ensures
            movement == self.movement_of(),
    {
        match self {
            Direction::FORWARD => Movement { axis: Axis::Forward, negative: false },
            Direction::BACKWARD => Movement { axis: Axis::Forward, negative: true },
            Direction::LEFT => Movement { axis: Axis::Right, negative: true },
            Direction::RIGHT => Movement { axis: Axis::Right, negative: false },
        }
    }
}

/// A direction and its opposite travel along the same axis, one with it and
/// one against it.
pub proof fn lemma_opposite_movement(direction: Direction)
    ensures
        direction.opposite().movement_of().axis == direction.movement_of().axis,
        direction.opposite().movement_of().negative != direction.movement_of().negative,
        direction.opposite().opposite() == direction,
{
}

/// The pitch that the camera takes when asked for `pitch`: the limit on the
/// side on which `pitch` lies beyond it, and `pitch` itself otherwise. A NaN
/// lies beyond neither limit and stays as it is.
pub open spec fn clamped_pitch(pitch: u32) -> u32 {
    if is_less(pitch, NEGATIVE_PITCH_LIMIT) {
        NEGATIVE_PITCH_LIMIT
    } else if is_less(PITCH_LIMIT, pitch) {
        PITCH_LIMIT
    } else {
        pitch
    }
}

/// Brings a pitch back within the limits.
pub fn clamp_pitch(pitch: u32) -> (clamped: u32)
    ensures
        clamped == clamped_pitch(pitch),
{
    if less_than(pitch, NEGATIVE_PITCH_LIMIT) {
        NEGATIVE_PITCH_LIMIT
    } else if less_than(PITCH_LIMIT, pitch) {
        PITCH_LIMIT
    } else {
        pitch
    }
}

/// However far a pitch lies beyond the limits, be it infinite, the clamped
/// pitch lies within them, and so strictly between -90 and 90 degrees: the
/// poles are out of reach. A pitch within the limits is left as it is, and
/// clamping twice changes nothing more.
pub proof fn lemma_pitch_within_limits(pitch: u32)
    requires
        !is_nan(pitch),
    ensures
        !is_nan(clamped_pitch(pitch)),
        order_key(NEGATIVE_PITCH_LIMIT) <= order_key(clamped_pitch(pitch)) <= order_key(PITCH_LIMIT),
        -order_key(RIGHT_ANGLE) < order_key(clamped_pitch(pitch)) < order_key(RIGHT_ANGLE),
        order_key(NEGATIVE_PITCH_LIMIT) <= order_key(pitch) <= order_key(PITCH_LIMIT)
            ==> clamped_pitch(pitch) == pitch,
        clamped_pitch(clamped_pitch(pitch)) == clamped_pitch(pitch),
{
    lemma_limits();
}

/// Where the limits and the right angle lie on the number line.
proof fn lemma_limits()
    ensures
        !is_nan(PITCH_LIMIT),
        !is_nan(NEGATIVE_PITCH_LIMIT),
        order_key(PITCH_LIMIT) == 0x42b3_cccd,
        order_key(NEGATIVE_PITCH_LIMIT) == -0x42b3_cccd,
        order_key(RIGHT_ANGLE) == 0x42b4_0000,
{
    assert(0x42b3_cccdu32 & 0x7fff_ffff == 0x42b3_cccd) by (bit_vector);
    assert(0x42b3_cccdu32 & 0x8000_0000 == 0) by (bit_vector);
    assert(0xc2b3_cccdu32 & 0x7fff_ffff == 0x42b3_cccd) by (bit_vector);
    assert(0xc2b3_cccdu32 & 0x8000_0000 != 0) by (bit_vector);
    assert(0x42b4_0000u32 & 0x7fff_ffff == 0x42b4_0000) by (bit_vector);
    assert(0x42b4_0000u32 & 0x8000_0000 == 0) by (bit_vector);
}

} // verus!
