//! The twelve per-turn maneuvers and the rule that decides which of them
//! a bike may attempt.

use vstd::prelude::*;

verus! {

use crate::bike::Bike;
use crate::collision::{Collision, CollisionSide};
use crate::track::TrackLaneId;

/// One of the twelve maneuvers a racer may select for a turn.
#[derive(Debug, Clone, Copy, PartialEq, Eq, Structural)]
pub enum BikeAction {
    Accelerate,
    Watch,
    Skid,
    Stop,
    Left,
    LeftLeft,
    LeftElbow,
    LeftHip,
    Right,
    RightRight,
    RightElbow,
    RightHip,
}

/// The collision value behind an optional reference, for speaking of it
/// in contracts.
pub open spec fn snapshot(maybe_collision: Option<&Collision>) -> Option<Collision> {
    match maybe_collision {
        Some(collision) => Some(*collision),
        None => None,
    }
}

/// Whether a collision is on the given side.
pub open spec fn collision_on_side(
    maybe_collision: Option<Collision>,
    side: CollisionSide,
) -> bool {
    match maybe_collision {
        Some(collision) => collision.side == side,
        None => false,
    }
}

/// The legality table: which maneuvers a bike may attempt given its lane,
/// its speed, and an active collision, if any.
pub open spec fn can_do_spec(
    action: BikeAction,
    bike: Bike,
    maybe_collision: Option<Collision>,
) -> bool {
    match action {
        BikeAction::Accelerate => bike.speed < bike.max_speed && !collision_on_side(
            maybe_collision,
            CollisionSide::Front,
        ),
        BikeAction::Watch => true,
        BikeAction::Skid => bike.speed > bike.max_speed / 2,
        BikeAction::Stop => bike.speed > 0,
        BikeAction::Left => bike.current_lane_id != TrackLaneId::First && !collision_on_side(
            maybe_collision,
            CollisionSide::Left,
        ),
        BikeAction::LeftLeft => bike.current_lane_id != TrackLaneId::First
            && bike.current_lane_id != TrackLaneId::Second && !collision_on_side(
            maybe_collision,
            CollisionSide::Left,
        ),
        BikeAction::LeftElbow => bike.current_lane_id != TrackLaneId::First,
        BikeAction::LeftHip => bike.current_lane_id != TrackLaneId::First,
        BikeAction::Right => bike.current_lane_id != TrackLaneId::Fourth && !collision_on_side(
            maybe_collision,
            CollisionSide::Right,
        ),
        BikeAction::RightRight => bike.current_lane_id != TrackLaneId::Fourth
            && bike.current_lane_id != TrackLaneId::Third && !collision_on_side(
            maybe_collision,
            CollisionSide::Right,
        ),
        BikeAction::RightElbow => bike.current_lane_id != TrackLaneId::Fourth,
        BikeAction::RightHip => bike.current_lane_id != TrackLaneId::Fourth,
    }
}

impl BikeAction {
    /// Whether this maneuver may be attempted by `bike` under the given
    /// collision state.
    pub fn can_do(&self, bike: &Bike, maybe_collision: Option<&Collision>) -> (r: bool)
        ensures
            r == can_do_spec(*self, *bike, snapshot(maybe_collision)),
    {
        match self {
            BikeAction::Accelerate => match maybe_collision {
                Some(collision) => {
                    collision.side != CollisionSide::Front && bike.speed < bike.max_speed
                }
                None => bike.speed < bike.max_speed,
            },
            BikeAction::Watch => true,
            BikeAction::Skid => bike.speed > bike.max_speed / 2,
            BikeAction::Stop => bike.speed > 0,
            BikeAction::Left => {
                if bike.current_lane_id == TrackLaneId::First {
                    false
                } else if let Some(collision) = maybe_collision {
                    collision.side != CollisionSide::Left
                } else {
                    true
                }
            }
            BikeAction::LeftLeft => {
                if bike.current_lane_id == TrackLaneId::First || bike.current_lane_id
                    == TrackLaneId::Second {
                    false
                } else if let Some(collision) = maybe_collision {
                    collision.side != CollisionSide::Left
                } else {
                    true
                }
            }
            BikeAction::LeftElbow => bike.current_lane_id != TrackLaneId::First,
            BikeAction::LeftHip => bike.current_lane_id != TrackLaneId::First,
            BikeAction::Right => {
                if bike.current_lane_id == TrackLaneId::Fourth {
                    false
                } else if let Some(collision) = maybe_collision {
                    collision.side != CollisionSide::Right
                } else {
                    true
                }
            }
            BikeAction::RightRight => {
                if bike.current_lane_id == TrackLaneId::Fourth || bike.current_lane_id
                    == TrackLaneId::Third {
                    false
                } else if let Some(collision) = maybe_collision {
                    collision.side != CollisionSide::Right
                } else {
                    true
                }
            }
            BikeAction::RightElbow => bike.current_lane_id != TrackLaneId::Fourth,
            BikeAction::RightHip => bike.current_lane_id != TrackLaneId::Fourth,
        }
    }
}

/// A racer's request to perform a maneuver this turn.
#[derive(Debug, Clone, Copy, PartialEq, Eq, Structural)]
pub struct ActionEvent {
    pub bike_entity: usize,
    pub kind: BikeAction,
}

impl ActionEvent {
    pub fn new(bike_entity: usize, kind: BikeAction) -> (r: ActionEvent)
        ensures
            r == (ActionEvent { bike_entity, kind }),
    {
        ActionEvent { bike_entity, kind }
    }
}

/// Attempt to select an action during the commanding phase: a legal
/// action is attached to the racer for the coming turn, an illegal one is
/// silently dropped. The result reports whether the action was accepted.
pub fn on_action(racer: &mut crate::bike::Racer, kind: BikeAction) -> (accepted: bool)
    ensures
        accepted == can_do_spec(kind, old(racer).bike, old(racer).collision),
        accepted ==> *final(racer) == (crate::bike::Racer {
            action: Some(kind),
            ..*old(racer)
        }),
        !accepted ==> *final(racer) == *old(racer),
{
    let maybe_collision = racer.collision;
    let legal: bool = kind.can_do(&racer.bike, maybe_collision.as_ref());
    if legal {
        racer.action = Some(kind);
    }
    legal
}

} // verus!
