//! The discrete part of the camera: which way a movement or a rotation goes.
//! The numeric part, positions and angles, works on these answers.

use vstd::prelude::*;

verus! {

/// Yaw of a new camera, in degrees: it faces down the negative Z axis.
pub const DEFAULT_YAW_DEGREES: i32 = -90;

/// Pitch of a new camera, in degrees.
pub const DEFAULT_PITCH_DEGREES: i32 = 0;

/// Largest pitch up or down, in degrees; pitch is clamped to it.
pub const PITCH_LIMIT_DEGREES: i32 = 89;

/// A direction of travel requested by the viewer.
#[derive(Clone, Copy, Debug, PartialEq, Eq, Structural)]
pub enum MovementType {
    FORWARD,
    BACKWARD,
    LEFT,
    RIGHT,
}

/// The sense in which a step runs along an axis.
#[derive(Clone, Copy, Debug, PartialEq, Eq, Structural)]
pub enum Sense {
    /// With the axis: the step is added.
    Along,
    /// Against the axis: the step is subtracted.
    Against,
}

impl Sense {
    /// The opposite sense.
    pub open spec fn reversed(self) -> Sense {
        match self {
            Sense::Along => Sense::Against,
            Sense::Against => Sense::Along,
        }
    }
}

impl MovementType {
    /// The sense of a dolly along the front axis: forward runs with it,
    /// backward against it; a sideways movement does not dolly.
    pub open spec fn dolly(self) -> Option<Sense> {
        match self {
            MovementType::FORWARD => Some(Sense::Along),
            MovementType::BACKWARD => Some(Sense::Against),
            _ => None,
        }
    }

    /// The sense of a pan along the right axis: right runs with it, left
    /// against it; a movement forward or backward does not pan.
    pub open spec fn pan(self) -> Option<Sense> {
        match self {
            MovementType::RIGHT => Some(Sense::Along),
            MovementType::LEFT => Some(Sense::Against),
            _ => None,
        }
    }

    /// The movement that undoes this one.
    pub open spec fn opposite(self) -> MovementType {
        match self {
            MovementType::FORWARD => MovementType::BACKWARD,
            MovementType::BACKWARD => MovementType::FORWARD,
            MovementType::LEFT => MovementType::RIGHT,
            MovementType::RIGHT => MovementType::LEFT,
        }
    }

    /// The sense in which a dolly moves the position along the front axis,
    /// if this movement dollies at all.
    pub fn dolly_camera(self) -> (sense: Option<Sense>)
        ensures
            sense == self.dolly(),
    {
        match self {
            MovementType::FORWARD => Some(Sense::Along),
            MovementType::BACKWARD => Some(Sense::Against),
            _ => None,
        }
    }

    /// The sense in which a pan moves the position along the right axis, if
    /// this movement pans at all.
    pub fn pan_camera(self) -> (sense: Option<Sense>)
        ensures
            sense == self.pan(),
    {
        match self {
            MovementType::RIGHT => Some(Sense::Along),
            MovementType::LEFT => Some(Sense::Against),
            _ => None,
        }
    }
}

/// A movement and its opposite run along the same axis in reversed senses:
/// what the one adds to the position, the other subtracts.
pub proof fn lemma_opposite_reverses(movement: MovementType)
    ensures
        movement.opposite().opposite() == movement,
        movement.dolly() is Some <==> movement.opposite().dolly() is Some,
        movement.pan() is Some <==> movement.opposite().pan() is Some,
        movement.dolly() is Some ==> movement.opposite().dolly() == Some(
            movement.dolly().unwrap().reversed(),
        ),
        movement.pan() is Some ==> movement.opposite().pan() == Some(
            movement.pan().unwrap().reversed(),
        ),
        movement.dolly() is Some <==> movement.pan() is None,
{
}

/// The sense in which a vertical cursor offset changes the pitch: with an
/// inverted Y axis a positive offset lowers it, otherwise it raises it.
pub open spec fn pitch_sense_of(invert_y: bool) -> Sense {
    if invert_y {
        Sense::Against
    } else {
        Sense::Along
    }
}

/// The sense in which a vertical cursor offset changes the pitch.
pub fn pitch_sense(invert_y: bool) -> (sense: Sense)
    ensures
        sense == pitch_sense_of(invert_y),
{
    if invert_y {
        Sense::Against
    } else {
        Sense::Along
    }
}

} // verus!
