//! Per-racer state: the bike record, the transient speed-change and
//! lane-change interpolations, and the per-tick transition systems that
//! drive them.

use vstd::prelude::*;

verus! {

use crate::actions::BikeAction;
use crate::collision::{Collision, CollisionSide, CRASH_SPEED_DELTA};
use crate::track::{TrackLaneId, TrackLanes, BlendedPose};
use crate::MAX_DISTANCE_MILLIS;

/// Proportion, in per-mille, below which a single lane change falls back
/// to its start lane when the turn ends.
pub const SINGLE_CHANGE_THRESHOLD: u32 = 600;

/// Proportion, in per-mille, below which a double lane change falls back
/// to its start lane when the turn ends.
pub const DOUBLE_CHANGE_LOW_THRESHOLD: u32 = 400;

/// Proportion, in per-mille, above which a double lane change reaches its
/// target lane when the turn ends; between the two thresholds it settles
/// on the intermediate lane.
pub const DOUBLE_CHANGE_HIGH_THRESHOLD: u32 = 900;

/// Base of the lane-dependent speed limit inside turns, in world units
/// per second: lane ordinal `k` tolerates `(4 - k) * 400`.
pub const TURN_SPEED_LIMIT_STEP: u32 = 400;

/// Speed excess above the turn limit, in world units per second, beyond
/// which a slip throws the bike two lanes outward instead of one.
pub const DOUBLE_SLIP_EXCESS: u32 = 800;

/// One racer's bike: its lane, total travelled distance in millis, and
/// speed parameters in world units per second.
#[derive(Debug, Clone, Copy, PartialEq, Eq, Structural)]
pub struct Bike {
    pub current_lane_id: TrackLaneId,
    pub distance: u64,
    pub speed: u32,
    pub max_speed: u32,
    pub acceleration: u32,
}

impl Bike {
    pub fn new(initial_lane: &TrackLaneId, max_speed: u32, acceleration: u32) -> (r: Bike)
        ensures
            r == (Bike {
                current_lane_id: *initial_lane,
                distance: 0,
                speed: 0,
                max_speed,
                acceleration,
            }),
    {
        Bike {
            current_lane_id: *initial_lane,
            distance: 0,
            speed: 0,
            max_speed,
            acceleration,
        }
    }

    /// The speed an accelerating bike aims for: one acceleration step
    /// more, capped at the bike's maximum.
    pub open spec fn accelerate_target_spec(self) -> int {
        if self.speed + self.acceleration <= self.max_speed {
            self.speed + self.acceleration
        } else {
            self.max_speed as int
        }
    }
}

/// An in-progress speed interpolation: from `start_speed` toward
/// `final_speed` over one turn, or at once when `instant`.
#[derive(Debug, Clone, Copy, PartialEq, Eq, Structural)]
pub struct ChangeSpeed {
    pub start_speed: u32,
    pub final_speed: u32,
    pub instant: bool,
}

impl ChangeSpeed {
    /// The interpolated speed once `turn_proportion_elapsed` per-mille of
    /// the turn have passed.
    pub open spec fn current_speed_spec(self, turn_proportion_elapsed: int) -> int {
        if self.final_speed >= self.start_speed {
            self.start_speed + (self.final_speed - self.start_speed) * turn_proportion_elapsed
                / 1000
        } else {
            self.start_speed - (self.start_speed - self.final_speed) * turn_proportion_elapsed
                / 1000
        }
    }

    /// The interpolated speed once `turn_proportion_elapsed` per-mille of
    /// the turn have passed; it always lies between the start and final
    /// speeds.
    pub fn current_speed(self, turn_proportion_elapsed: u32) -> (r: u32)
        requires
            turn_proportion_elapsed <= 1000,
        ensures
            r as int == self.current_speed_spec(turn_proportion_elapsed as int),
            r >= self.start_speed || r >= self.final_speed,
            r <= self.start_speed || r <= self.final_speed,
    {
        let t: u64 = turn_proportion_elapsed as u64;
        if self.final_speed >= self.start_speed {
            let span: u64 = (self.final_speed - self.start_speed) as u64;
            proof {
                assert(span * t / 1000 <= span) by (nonlinear_arith)
                    requires t <= 1000, span >= 0;
            }
            self.start_speed + (span * t / 1000) as u32
        } else {
            let span: u64 = (self.start_speed - self.final_speed) as u64;
            proof {
                assert(span * t / 1000 <= span) by (nonlinear_arith)
                    requires t <= 1000, span >= 0;
            }
            self.start_speed - (span * t / 1000) as u32
        }
    }
}

/// An in-progress lane change. `current_proportion` runs from 0 (still on
/// the start lane) to 1000 (fully on the target lane); a blocking
/// collision on the side being moved toward clears `lane_clear`, after
/// which the proportion decays back toward the start lane.
#[derive(Debug, Clone, Copy, PartialEq, Eq, Structural)]
pub struct ChangeLane {
    pub start_lane_id: TrackLaneId,
    pub final_lane_id: TrackLaneId,
    pub double_lane_change: bool,
    pub current_proportion: u32,
    pub lane_clear: bool,
    pub changing_to_left: bool,
}

impl ChangeLane {
    /// The lane change that `new` builds.
    pub open spec fn new_spec(current: TrackLaneId, desired: TrackLaneId) -> ChangeLane {
        ChangeLane {
            start_lane_id: current,
            final_lane_id: desired,
            double_lane_change: current.ordinal() - desired.ordinal() > 1 || desired.ordinal()
                - current.ordinal() > 1,
            current_proportion: 0,
            lane_clear: true,
            changing_to_left: current.ordinal() > desired.ordinal(),
        }
    }

    pub fn new(current: TrackLaneId, desired: TrackLaneId) -> (r: ChangeLane)
        ensures
            r == Self::new_spec(current, desired),
    {
        let difference: i32 = current.difference(desired);
        let double_lane_change: bool = difference > 1 || difference < -1;
        ChangeLane {
            start_lane_id: current,
            final_lane_id: desired,
            double_lane_change,
            current_proportion: 0,
            lane_clear: true,
            changing_to_left: current.is_to_right_of(desired),
        }
    }

    /// The proportion after a tick: while the target lane is clear the
    /// blend follows the turn clock; once blocked it decays back toward
    /// the start lane by the elapsed proportion.
    pub open spec fn updated_proportion_spec(self, turn_proportion_elapsed: int) -> int {
        if self.lane_clear {
            turn_proportion_elapsed
        } else {
            self.current_proportion - self.current_proportion * turn_proportion_elapsed / 1000
        }
    }

    pub fn update_proportion(&mut self, turn_proportion_elapsed: u32)
        requires
            turn_proportion_elapsed <= 1000,
            old(self).current_proportion <= 1000,
        ensures
            *final(self) == (ChangeLane {
                current_proportion: final(self).current_proportion,
                ..*old(self)
            }),
            final(self).current_proportion as int == old(self).updated_proportion_spec(
                turn_proportion_elapsed as int,
            ),
            final(self).current_proportion <= 1000,
    {
        if self.lane_clear {
            self.current_proportion = turn_proportion_elapsed;
        } else {
            let p: u64 = self.current_proportion as u64;
            let t: u64 = turn_proportion_elapsed as u64;
            proof {
                assert(p * t / 1000 <= p) by (nonlinear_arith)
                    requires t <= 1000, p >= 0;
            }
            self.current_proportion = (p - p * t / 1000) as u32;
        }
    }

    /// The lane a change settles on when the turn ends.
    pub open spec fn final_lane_spec(self) -> TrackLaneId {
        if self.double_lane_change {
            if self.current_proportion < DOUBLE_CHANGE_LOW_THRESHOLD {
                self.start_lane_id
            } else if self.current_proportion > DOUBLE_CHANGE_HIGH_THRESHOLD {
                self.final_lane_id
            } else if self.final_lane_id.ordinal() > self.start_lane_id.ordinal() {
                self.start_lane_id.right_spec()
            } else {
                self.start_lane_id.left_spec()
            }
        } else if self.current_proportion < SINGLE_CHANGE_THRESHOLD {
            self.start_lane_id
        } else {
            self.final_lane_id
        }
    }

    /// Resolve the change to a discrete lane: near its start it falls
    /// back to the start lane, near completion it reaches the target, and
    /// a double change caught in between settles on the intermediate
    /// lane.
    pub fn final_lane(&self) -> (r: TrackLaneId)
        ensures
            r == self.final_lane_spec(),
    {
        if self.double_lane_change {
            if self.current_proportion < DOUBLE_CHANGE_LOW_THRESHOLD {
                self.start_lane_id
            } else if self.current_proportion > DOUBLE_CHANGE_HIGH_THRESHOLD {
                self.final_lane_id
            } else {
                self.start_lane_id.between(self.final_lane_id)
            }
        } else if self.current_proportion < SINGLE_CHANGE_THRESHOLD {
            self.start_lane_id
        } else {
            self.final_lane_id
        }
    }
}

/// One racer's full simulation state: the bike plus the transient
/// components that exist only for parts of a turn, each modeled as an
/// optional field.
#[derive(Debug, Clone, Copy, PartialEq, Eq, Structural)]
pub struct Racer {
    pub bike: Bike,
    pub action: Option<BikeAction>,
    pub change_speed: Option<ChangeSpeed>,
    pub change_lane: Option<ChangeLane>,
    pub collision: Option<Collision>,
}

impl Racer {
    /// An in-progress lane change never runs past a full blend.
    pub open spec fn wf(self) -> bool {
        match self.change_lane {
            Some(change_lane) => change_lane.current_proportion <= 1000,
            None => true,
        }
    }

    pub fn new(bike: Bike) -> (r: Racer)
        ensures
            r == (Racer {
                bike,
                action: None,
                change_speed: None,
                change_lane: None,
                collision: None,
            }),
    {
        Racer { bike, action: None, change_speed: None, change_lane: None, collision: None }
    }

    /// The racer after starting a lane change toward `target`, unless a
    /// lane change is already running.
    pub open spec fn with_lane_change(self, target: TrackLaneId) -> Racer {
        if self.change_lane is None {
            Racer {
                change_lane: Some(ChangeLane::new_spec(self.bike.current_lane_id, target)),
                ..self
            }
        } else {
            self
        }
    }

    /// The racer after starting a speed change toward `target_speed`,
    /// unless a speed change is already running.
    pub open spec fn with_speed_change(self, target_speed: int) -> Racer {
        if self.change_speed is None {
            Racer {
                change_speed: Some(ChangeSpeed {
                    start_speed: self.bike.speed,
                    final_speed: target_speed as u32,
                    instant: false,
                }),
                ..self
            }
        } else {
            self
        }
    }

    /// The racer after its selected action is resolved into a transition:
    /// accelerating or stopping starts a speed change, the four lane
    /// maneuvers start a lane change, and the rest leave the state alone.
    pub open spec fn after_try_action(self) -> Racer {
        match self.action {
            None => self,
            Some(action) => match action {
                BikeAction::Accelerate => self.with_speed_change(
                    self.bike.accelerate_target_spec(),
                ),
                BikeAction::Stop => self.with_speed_change(0),
                BikeAction::Left => self.with_lane_change(
                    self.bike.current_lane_id.left_spec(),
                ),
                BikeAction::LeftLeft => self.with_lane_change(
                    self.bike.current_lane_id.left_spec().left_spec(),
                ),
                BikeAction::Right => self.with_lane_change(
                    self.bike.current_lane_id.right_spec(),
                ),
                BikeAction::RightRight => self.with_lane_change(
                    self.bike.current_lane_id.right_spec().right_spec(),
                ),
                _ => self,
            },
        }
    }
}

/// Resolve the racer's selected action into a state transition, once per
/// turn: a new speed change for Accelerate or Stop, a new lane change for
/// the four lane maneuvers.
pub fn try_action(racer: &mut Racer)
    ensures
        *final(racer) == old(racer).after_try_action(),
{
    let maybe_action = racer.action;
    if let Some(action) = maybe_action {
        match action {
            BikeAction::Accelerate => {
                if racer.change_speed.is_none() {
                    let target: u64 = racer.bike.speed as u64 + racer.bike.acceleration as u64;
                    let capped: u32 = if target <= racer.bike.max_speed as u64 {
                        target as u32
                    } else {
                        racer.bike.max_speed
                    };
                    racer.change_speed = Some(ChangeSpeed {
                        start_speed: racer.bike.speed,
                        final_speed: capped,
                        instant: false,
                    });
                }
            }
            BikeAction::Stop => {
                if racer.change_speed.is_none() {
                    racer.change_speed = Some(ChangeSpeed {
                        start_speed: racer.bike.speed,
                        final_speed: 0,
                        instant: false,
                    });
                }
            }
            BikeAction::Left => {
                if racer.change_lane.is_none() {
                    racer.change_lane = Some(ChangeLane::new(
                        racer.bike.current_lane_id,
                        racer.bike.current_lane_id.left(),
                    ));
                }
            }
            BikeAction::LeftLeft => {
                if racer.change_lane.is_none() {
                    racer.change_lane = Some(ChangeLane::new(
                        racer.bike.current_lane_id,
                        racer.bike.current_lane_id.left_left(),
                    ));
                }
            }
            BikeAction::Right => {
                if racer.change_lane.is_none() {
                    racer.change_lane = Some(ChangeLane::new(
                        racer.bike.current_lane_id,
                        racer.bike.current_lane_id.right(),
                    ));
                }
            }
            BikeAction::RightRight => {
                if racer.change_lane.is_none() {
                    racer.change_lane = Some(ChangeLane::new(
                        racer.bike.current_lane_id,
                        racer.bike.current_lane_id.right_right(),
                    ));
                }
            }
            _ => {}
        }
    }
}

impl Racer {
    /// The racer's speed after the running speed change is applied at the
    /// given turn proportion.
    pub open spec fn after_change_speed(self, turn_proportion_elapsed: int) -> Racer {
        match self.change_speed {
            None => self,
            Some(change_speed) => Racer {
                bike: Bike {
                    speed: if change_speed.instant {
                        change_speed.final_speed
                    } else {
                        change_speed.current_speed_spec(turn_proportion_elapsed) as u32
                    },
                    ..self.bike
                },
                ..self
            },
        }
    }
}

/// Apply the running speed change, if any: an instant change snaps the
/// speed at once, a gradual one follows the turn clock.
pub fn change_speed(racer: &mut Racer, turn_proportion_elapsed: u32)
    requires
        turn_proportion_elapsed <= 1000,
    ensures
        *final(racer) == old(racer).after_change_speed(turn_proportion_elapsed as int),
{
    let maybe_change_speed = racer.change_speed;
    if let Some(cs) = maybe_change_speed {
        if cs.instant {
            racer.bike.speed = cs.final_speed;
        } else {
            racer.bike.speed = cs.current_speed(turn_proportion_elapsed);
        }
    }
}

impl Racer {
    /// The racer's reaction to a newly attached collision: a frontal hit
    /// snaps the speed to the other bike's, and a hit on the side being
    /// moved toward blocks the running lane change.
    pub open spec fn after_on_collision(self) -> Racer {
        match self.collision {
            None => self,
            Some(collision) => match collision.side {
                CollisionSide::Front => Racer {
                    change_speed: Some(ChangeSpeed {
                        start_speed: self.bike.speed,
                        final_speed: collision.other_bike_speed,
                        instant: true,
                    }),
                    ..self
                },
                CollisionSide::Left => self.with_blocked_lane_change(true),
                CollisionSide::Right => self.with_blocked_lane_change(false),
                CollisionSide::Back => self,
            },
        }
    }

    /// The racer with its lane change blocked, when one is running in the
    /// direction the collision came from.
    pub open spec fn with_blocked_lane_change(self, collision_on_left: bool) -> Racer {
        match self.change_lane {
            Some(change_lane) => if change_lane.changing_to_left == collision_on_left {
                Racer {
                    change_lane: Some(ChangeLane { lane_clear: false, ..change_lane }),
                    ..self
                }
            } else {
                self
            },
            None => self,
        }
    }

    /// Whether a newly attached collision counts as a crash: a frontal
    /// hit with too large a speed difference.
    pub open spec fn crash_on_collision(self) -> bool {
        match self.collision {
            Some(collision) => collision.side == CollisionSide::Front && (self.bike.speed
                - collision.other_bike_speed > CRASH_SPEED_DELTA || collision.other_bike_speed
                - self.bike.speed > CRASH_SPEED_DELTA),
            None => false,
        }
    }
}

/// React to a newly attached collision. A frontal hit forces the speed
/// down to the struck bike's speed at once; a hit on the side a lane
/// change is moving toward marks the lane as blocked, which reverses the
/// blend. The result reports whether the frontal hit was hard enough to
/// count as a crash.
pub fn on_collision(racer: &mut Racer) -> (crashed: bool)
    ensures
        *final(racer) == old(racer).after_on_collision(),
        crashed == old(racer).crash_on_collision(),
{
    let maybe_collision = racer.collision;
    if let Some(collision) = maybe_collision {
        match collision.side {
            CollisionSide::Front => {
                racer.change_speed = Some(ChangeSpeed {
                    start_speed: racer.bike.speed,
                    final_speed: collision.other_bike_speed,
                    instant: true,
                });
                let speed_difference: u32 = if racer.bike.speed >= collision.other_bike_speed {
                    racer.bike.speed - collision.other_bike_speed
                } else {
                    collision.other_bike_speed - racer.bike.speed
                };
                speed_difference > CRASH_SPEED_DELTA
            }
            CollisionSide::Left => {
                let maybe_change_lane = racer.change_lane;
                if let Some(change_lane) = maybe_change_lane {
                    if change_lane.changing_to_left {
                        racer.change_lane = Some(ChangeLane {
                            lane_clear: false,
                            ..change_lane
                        });
                    }
                }
                false
            }
            CollisionSide::Right => {
                let maybe_change_lane = racer.change_lane;
                if let Some(change_lane) = maybe_change_lane {
                    if !change_lane.changing_to_left {
                        racer.change_lane = Some(ChangeLane {
                            lane_clear: false,
                            ..change_lane
                        });
                    }
                }
                false
            }
            CollisionSide::Back => false,
        }
    } else {
        false
    }
}

impl Racer {
    /// The racer after one frame of motion: the distance advances by
    /// `speed * dt_ms` millis and a running lane change re-interpolates
    /// its blend from the turn clock.
    pub open spec fn after_move(self, dt_ms: int, turn_proportion_elapsed: int) -> Racer {
        Racer {
            bike: Bike { distance: (self.bike.distance + self.bike.speed * dt_ms) as u64, ..self.bike },
            change_lane: match self.change_lane {
                Some(change_lane) => Some(ChangeLane {
                    current_proportion: change_lane.updated_proportion_spec(
                        turn_proportion_elapsed,
                    ) as u32,
                    ..change_lane
                }),
                None => self.change_lane,
            },
            ..self
        }
    }
}

/// Advance one frame of motion: the travelled distance grows with the
/// bike's speed, and a running lane change follows the turn clock.
pub fn move_bikes(racer: &mut Racer, dt_ms: u32, turn_proportion_elapsed: u32)
    requires
        old(racer).wf(),
        turn_proportion_elapsed <= 1000,
        old(racer).bike.distance + old(racer).bike.speed * dt_ms <= MAX_DISTANCE_MILLIS,
    ensures
        *final(racer) == old(racer).after_move(dt_ms as int, turn_proportion_elapsed as int),
        final(racer).wf(),
        final(racer).bike.distance <= MAX_DISTANCE_MILLIS,
{
    let delta: u64 = (racer.bike.speed as u64) * (dt_ms as u64);
    racer.bike.distance = racer.bike.distance + delta;
    let maybe_change_lane = racer.change_lane;
    if let Some(mut change_lane) = maybe_change_lane {
        change_lane.update_proportion(turn_proportion_elapsed);
        racer.change_lane = Some(change_lane);
    }
}

impl Racer {
    /// The lane-dependent speed limit inside turns, in world units per
    /// second: the tighter the lane, the higher the tolerated speed.
    pub open spec fn turn_speed_limit_spec(lane: TrackLaneId) -> int {
        (4 - lane.ordinal()) * TURN_SPEED_LIMIT_STEP
    }

    /// Whether the racer slips at the start of the simulating phase: it
    /// sits in a turn faster than the lane tolerates and did not brace by
    /// skidding.
    pub open spec fn slips(self, lanes: TrackLanes) -> bool {
        let lane = lanes.lane_of(self.bike.current_lane_id);
        let section = lane.section_of(lane.current_lap_distance_spec(self.bike.distance as int));
        &&& self.action != Some(BikeAction::Skid)
        &&& (section == crate::track::TrackSection::FirstTurn || section
            == crate::track::TrackSection::SecondTurn)
        &&& self.bike.speed > Self::turn_speed_limit_spec(self.bike.current_lane_id)
    }

    /// The racer after the slip check: a slipping racer is thrown into an
    /// involuntary lane change outward, two lanes instead of one when the
    /// speed excess is large.
    pub open spec fn after_check_slip(self, lanes: TrackLanes) -> Racer {
        if self.slips(lanes) {
            let target = if self.bike.speed - Self::turn_speed_limit_spec(
                self.bike.current_lane_id,
            ) > DOUBLE_SLIP_EXCESS {
                self.bike.current_lane_id.right_spec().right_spec()
            } else {
                self.bike.current_lane_id.right_spec()
            };
            Racer {
                change_lane: Some(ChangeLane::new_spec(self.bike.current_lane_id, target)),
                ..self
            }
        } else {
            self
        }
    }
}

/// On entering the simulating phase, throw a bike that is going too fast
/// through a turn into an involuntary outward lane change, unless it
/// braced by skidding. The result reports whether the racer slipped.
pub fn check_slip(racer: &mut Racer, lanes: &TrackLanes) -> (slipped: bool)
    requires
        lanes.wf(),
    ensures
        *final(racer) == old(racer).after_check_slip(*lanes),
        slipped == old(racer).slips(*lanes),
{
    let maybe_action = racer.action;
    if let Some(action) = maybe_action {
        if action == BikeAction::Skid {
            return false;
        }
    }
    let lane = lanes.track_lane(&racer.bike.current_lane_id);
    if lane.in_turn(racer.bike.distance) {
        let max_turn_speed: u32 = (4 - racer.bike.current_lane_id.index() as u32)
            * TURN_SPEED_LIMIT_STEP;
        if racer.bike.speed > max_turn_speed {
            let final_lane_id = if racer.bike.speed - max_turn_speed > DOUBLE_SLIP_EXCESS {
                racer.bike.current_lane_id.right_right()
            } else {
                racer.bike.current_lane_id.right()
            };
            racer.change_lane = Some(ChangeLane::new(
                racer.bike.current_lane_id,
                final_lane_id,
            ));
            return true;
        }
    }
    false
}

impl Racer {
    /// The racer after the turn ends: a running lane change resolves to a
    /// discrete lane, the travelled distance is remapped onto that lane,
    /// and the spent action and transitions are discarded.
    pub open spec fn after_turn_end(self, lanes: TrackLanes) -> Racer {
        match self.change_lane {
            None => Racer { action: None, change_speed: None, ..self },
            Some(change_lane) => {
                let resolved = change_lane.final_lane_spec();
                let new_distance = TrackLanes::mapped_distance_spec(
                    lanes.lane_of(self.bike.current_lane_id),
                    lanes.lane_of(resolved),
                    self.bike.distance as int,
                );
                Racer {
                    bike: Bike {
                        current_lane_id: resolved,
                        distance: new_distance as u64,
                        ..self.bike
                    },
                    action: None,
                    change_speed: None,
                    change_lane: None,
                    ..self
                }
            }
        }
    }
}

/// On leaving the simulating phase, finalize the turn: resolve a running
/// lane change to a discrete lane id, remap the travelled distance onto
/// the resolved lane so the rider keeps its proportion of the way through
/// the current section, and discard the spent action together with the
/// transient transitions.
pub fn on_exit_simulating_state(racer: &mut Racer, lanes: &TrackLanes)
    requires
        lanes.wf(),
        old(racer).bike.distance <= MAX_DISTANCE_MILLIS,
    ensures
        *final(racer) == old(racer).after_turn_end(*lanes),
{
    let maybe_change_lane = racer.change_lane;
    if let Some(change_lane) = maybe_change_lane {
        let resolved = change_lane.final_lane();
        let new_lane_distance: u64 = lanes.distance_on_adjacent_lane(
            racer.bike.current_lane_id,
            resolved,
            racer.bike.distance,
        );
        racer.bike.distance = new_lane_distance;
        racer.bike.current_lane_id = resolved;
        racer.change_lane = None;
    }
    racer.action = None;
    racer.change_speed = None;
}

/// The pose to draw a racer at: a racer changing lanes blends between the
/// change's start and target lanes by its current proportion, any other
/// racer sits squarely on its lane.
pub fn current_pose(racer: &Racer, lanes: &TrackLanes) -> (r: BlendedPose)
    requires
        racer.wf(),
        lanes.wf(),
        racer.bike.distance <= MAX_DISTANCE_MILLIS,
    ensures
        ({
            match racer.change_lane {
                Some(change_lane) => {
                    &&& r.from == lanes.lane_of(change_lane.start_lane_id).pose_at(
                        racer.bike.distance as int,
                    )
                    &&& r.proportion == change_lane.current_proportion
                    &&& change_lane.start_lane_id == change_lane.final_lane_id ==> r.to == r.from
                    &&& change_lane.start_lane_id != change_lane.final_lane_id ==> r.to
                        == lanes.lane_of(change_lane.final_lane_id).pose_at(
                        TrackLanes::mapped_distance_spec(
                            lanes.lane_of(change_lane.start_lane_id),
                            lanes.lane_of(change_lane.final_lane_id),
                            racer.bike.distance as int,
                        ),
                    )
                }
                None => {
                    &&& r.from == lanes.lane_of(racer.bike.current_lane_id).pose_at(
                        racer.bike.distance as int,
                    )
                    &&& r.to == r.from
                    &&& r.proportion == 0
                }
            }
        }),
{
    let maybe_change_lane = racer.change_lane;
    match maybe_change_lane {
        Some(change_lane) => lanes.pos_and_rot_between_lanes(
            change_lane.start_lane_id,
            change_lane.final_lane_id,
            racer.bike.distance,
            change_lane.current_proportion,
        ),
        None => lanes.pos_and_rot_between_lanes(
            racer.bike.current_lane_id,
            racer.bike.current_lane_id,
            racer.bike.distance,
            0,
        ),
    }
}

/// Accelerating never pushes the speed beyond the bike's maximum: the
/// speed change that Accelerate starts interpolates toward a target
/// capped at `max_speed`, so at every turn proportion the interpolated
/// speed stays at or below it.
pub proof fn law_accelerate_caps_speed(racer: Racer, turn_proportion_elapsed: int)
    requires
        racer.action == Some(BikeAction::Accelerate),
        racer.change_speed is None,
        racer.bike.speed <= racer.bike.max_speed,
        0 <= turn_proportion_elapsed <= 1000,
    ensures
        ({
            let change_speed = racer.after_try_action().change_speed;
            &&& change_speed matches Some(cs) && cs.current_speed_spec(turn_proportion_elapsed)
                <= racer.bike.max_speed
            &&& change_speed matches Some(cs) && cs.final_speed <= racer.bike.max_speed
        }),
        racer.after_try_action().after_change_speed(turn_proportion_elapsed).bike.speed
            <= racer.bike.max_speed,
{
    let cs = racer.after_try_action().change_speed->Some_0;
    let s = cs.start_speed as int;
    let f = cs.final_speed as int;
    let t = turn_proportion_elapsed;
    assert(f >= s ==> (f - s) * t / 1000 <= f - s) by (nonlinear_arith)
        requires 0 <= t <= 1000;
    assert(f >= s ==> (f - s) * t / 1000 >= 0) by (nonlinear_arith)
        requires 0 <= t;
    assert(f < s ==> (s - f) * t / 1000 >= 0) by (nonlinear_arith)
        requires 0 <= t;
}

/// Stopping never drives the speed negative: the speed change that Stop
/// starts interpolates from the current speed down toward zero, and at
/// every turn proportion the interpolated speed stays between zero and
/// the speed the stop began at.
pub proof fn law_stop_floors_speed_at_zero(racer: Racer, turn_proportion_elapsed: int)
    requires
        racer.action == Some(BikeAction::Stop),
        racer.change_speed is None,
        0 <= turn_proportion_elapsed <= 1000,
    ensures
        ({
            let change_speed = racer.after_try_action().change_speed;
            &&& change_speed matches Some(cs) && 0 <= cs.current_speed_spec(
                turn_proportion_elapsed,
            )
            &&& change_speed matches Some(cs) && cs.current_speed_spec(turn_proportion_elapsed)
                <= racer.bike.speed
        }),
        racer.after_try_action().after_change_speed(turn_proportion_elapsed).bike.speed
            <= racer.bike.speed,
{
    let cs = racer.after_try_action().change_speed->Some_0;
    let s = cs.start_speed as int;
    let t = turn_proportion_elapsed;
    assert(s * t / 1000 <= s) by (nonlinear_arith)
        requires 0 <= t <= 1000, s >= 0;
    assert(s * t / 1000 >= 0) by (nonlinear_arith)
        requires 0 <= t, s >= 0;
}

} // verus!
