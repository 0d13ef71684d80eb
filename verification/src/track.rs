//! Track geometry: lane identifiers, the five sections of a lap, and the
//! exact distance-to-pose mapping for each lane.

use vstd::prelude::*;

verus! {

use crate::{LANE_WIDTH_MILLIS, MAX_DISTANCE_MILLIS, STRAIGHT_DISTANCE_MILLIS, TURN_RADIUS_MILLIS};

/// Distance below which the remaining length of a track section is treated
/// as zero (0.005 world units), so that a pose sitting right on a section
/// boundary counts as being at the boundary.
pub const SECTION_END_EPSILON_MILLIS: u64 = 5;

/// Length in millis of a semicircle of the given radius in millis, with the
/// circle constant approximated by 355/113.
pub open spec fn semicircle_millis(radius: int) -> int {
    radius * 355 / 113
}

/// Length in millis of a semicircle of the given radius in millis.
pub fn semicircle_len(radius: u64) -> (r: u64)
    requires
        radius <= 1_000_000,
    ensures
        r as int == semicircle_millis(radius as int),
        r <= 4 * radius,
{
    proof {
        assert(radius * 355 / 113 <= 4 * radius) by (nonlinear_arith)
            requires radius <= 1_000_000;
    }
    radius * 355 / 113
}

/// One of the four concentric lanes, innermost first.
#[derive(Debug, Copy, Clone, PartialEq, Eq, Structural)]
pub enum TrackLaneId {
    /// Inner track
    First,
    /// Next to innermost track
    Second,
    /// Next to outermost track
    Third,
    /// Outer track
    Fourth,
}

impl TrackLaneId {
    /// Ordinal of the lane, 0 for the innermost up to 3 for the outermost.
    pub open spec fn ordinal(self) -> int {
        match self {
            TrackLaneId::First => 0,
            TrackLaneId::Second => 1,
            TrackLaneId::Third => 2,
            TrackLaneId::Fourth => 3,
        }
    }

    /// Ordinal of the lane as a machine integer.
    pub fn index(&self) -> (r: u8)
        ensures
            r as int == self.ordinal(),
    {
        match self {
            TrackLaneId::First => 0,
            TrackLaneId::Second => 1,
            TrackLaneId::Third => 2,
            TrackLaneId::Fourth => 3,
        }
    }

    /// Distance from the inner edge of the track to the middle of this
    /// lane, in millis.
    pub open spec fn length_from_inner_edge_spec(self) -> int {
        LANE_WIDTH_MILLIS / 2 + LANE_WIDTH_MILLIS * self.ordinal()
    }

    /// Distance from the inner edge of the track to the middle of this
    /// lane, in millis.
    pub fn length_from_inner_edge(&self) -> (r: u64)
        ensures
            r as int == self.length_from_inner_edge_spec(),
    {
        let factor: u64 = self.index() as u64;
        LANE_WIDTH_MILLIS / 2 + LANE_WIDTH_MILLIS * factor
    }

    /// The lane one step toward the track center, saturating at the
    /// innermost lane.
    pub open spec fn left_spec(self) -> TrackLaneId {
        match self {
            TrackLaneId::First => TrackLaneId::First,
            TrackLaneId::Second => TrackLaneId::First,
            TrackLaneId::Third => TrackLaneId::Second,
            TrackLaneId::Fourth => TrackLaneId::Third,
        }
    }

    /// The lane one step toward the track center, saturating at the
    /// innermost lane.
    pub fn left(&self) -> (r: TrackLaneId)
        ensures
            r == self.left_spec(),
    {
        match self {
            TrackLaneId::First => TrackLaneId::First,
            TrackLaneId::Second => TrackLaneId::First,
            TrackLaneId::Third => TrackLaneId::Second,
            TrackLaneId::Fourth => TrackLaneId::Third,
        }
    }

    /// Two steps toward the track center, saturating at the innermost lane.
    pub fn left_left(&self) -> (r: TrackLaneId)
        ensures
            r == self.left_spec().left_spec(),
    {
        self.left().left()
    }

    /// The lane one step away from the track center, saturating at the
    /// outermost lane.
    pub open spec fn right_spec(self) -> TrackLaneId {
        match self {
            TrackLaneId::First => TrackLaneId::Second,
            TrackLaneId::Second => TrackLaneId::Third,
            TrackLaneId::Third => TrackLaneId::Fourth,
            TrackLaneId::Fourth => TrackLaneId::Fourth,
        }
    }

    /// The lane one step away from the track center, saturating at the
    /// outermost lane.
    pub fn right(&self) -> (r: TrackLaneId)
        ensures
            r == self.right_spec(),
    {
        match self {
            TrackLaneId::First => TrackLaneId::Second,
            TrackLaneId::Second => TrackLaneId::Third,
            TrackLaneId::Third => TrackLaneId::Fourth,
            TrackLaneId::Fourth => TrackLaneId::Fourth,
        }
    }

    /// Two steps away from the track center, saturating at the outermost
    /// lane.
    pub fn right_right(&self) -> (r: TrackLaneId)
        ensures
            r == self.right_spec().right_spec(),
    {
        self.right().right()
    }

    /// The lane adjacent to `self` on the side of `other`: used to resolve
    /// a double lane change that ends between its start and target lanes.
    pub fn between(&self, other: TrackLaneId) -> (r: TrackLaneId)
        ensures
            other.ordinal() > self.ordinal() ==> r == self.right_spec(),
            other.ordinal() <= self.ordinal() ==> r == self.left_spec(),
    {
        let self_index: u8 = self.index();
        let other_index: u8 = other.index();
        if other_index > self_index {
            self.right()
        } else {
            self.left()
        }
    }

    /// Signed lane-count difference between `self` and `other`; positive
    /// when `self` is the outer lane of the two.
    pub fn difference(&self, other: TrackLaneId) -> (r: i32)
        ensures
            r as int == self.ordinal() - other.ordinal(),
    {
        let self_index: i32 = self.index() as i32;
        let other_index: i32 = other.index() as i32;
        self_index - other_index
    }

    /// Whether `self` is strictly farther from the track center than
    /// `other`.
    pub fn is_to_right_of(&self, other: TrackLaneId) -> (r: bool)
        ensures
            r == (self.ordinal() > other.ordinal()),
    {
        let self_index: i32 = self.index() as i32;
        let other_index: i32 = other.index() as i32;
        self_index - other_index > 0
    }
}

/// The five ordered sections of one lap: the finish line sits in the middle
/// of one straight, splitting it into the first and last sections.
#[derive(Debug, Clone, Copy, PartialEq, Eq, Structural)]
pub enum TrackSection {
    FirstStraightawayAfterFinishLine,
    FirstTurn,
    SecondStraightaway,
    SecondTurn,
    FirstStraightawayBeforeFinishLine,
}

/// Which of the two semicircular turns an arc belongs to. The start angle
/// of the first turn is three quarter-circles, of the second one quarter.
#[derive(Debug, Clone, Copy, PartialEq, Eq, Structural)]
pub enum TurnHalf {
    FirstTurn,
    SecondTurn,
}

/// A position and heading on the track, in exact millis.
///
/// * `Straight`: the point `(x, y)`; the heading is along the positive
///   horizontal axis, or along the negative one when `toward_negative_x`.
/// * `TurnArc`: the point reached by walking `arc_millis` of arc length
///   counterclockwise along the circle of radius `radius` around
///   `(center_x, center_y)`, starting from the turn's start angle (three
///   quarter-circles for the first turn, one quarter for the second); the
///   heading is the counterclockwise tangent there. A renderer recovers
///   the angle as the start angle plus `arc_millis / radius` radians.
#[derive(Debug, Clone, Copy, PartialEq, Eq, Structural)]
pub enum Pose {
    Straight { x: i64, y: i64, toward_negative_x: bool },
    TurnArc { center_x: i64, center_y: i64, radius: u64, arc_millis: u64, half: TurnHalf },
}

/// Exact description of an arc of one turn, for drawing a path preview:
/// the arc starts `start_arc_millis` of arc length past the turn's start
/// angle and runs `sweep_millis` further, on the circle of radius `radius`
/// around `(center_x, center_y)`.
#[derive(Debug, Clone, Copy, PartialEq, Eq, Structural)]
pub struct TurnCurve {
    pub center_x: i64,
    pub center_y: i64,
    pub radius: u64,
    pub start_arc_millis: u64,
    pub sweep_millis: u64,
    pub half: TurnHalf,
}

/// Geometry of one lane: its lap length and the cumulative distances at
/// which its five sections end, all in millis.
#[derive(Debug, Clone, Copy, PartialEq, Eq, Structural)]
pub struct TrackLane {
    pub length_from_inner_edge: u64,
    pub lap_distance: u64,
    pub half_straight_dist: u64,
    pub turn_radius: u64,
    pub vertical_offset: u64,
    pub first_straightaway_after_finish_line_dist: u64,
    pub first_turn_dist: u64,
    pub second_straightaway_dist: u64,
    pub second_turn_dist: u64,
}

impl TrackLane {
    /// The lane's fields are the cumulative sums of its section lengths:
    /// half a straight, a turn, a straight, a turn, then half a straight
    /// again, with the turn radius grown by the lane's distance from the
    /// inner edge.
    pub open spec fn wf(self) -> bool {
        &&& self.length_from_inner_edge <= 350_000
        &&& self.half_straight_dist == STRAIGHT_DISTANCE_MILLIS / 2
        &&& self.turn_radius == TURN_RADIUS_MILLIS + self.length_from_inner_edge
        &&& self.vertical_offset == self.turn_radius
        &&& self.first_straightaway_after_finish_line_dist == self.half_straight_dist
        &&& self.first_turn_dist == self.first_straightaway_after_finish_line_dist
            + semicircle_millis(self.turn_radius as int)
        &&& self.second_straightaway_dist == self.first_turn_dist + STRAIGHT_DISTANCE_MILLIS
        &&& self.second_turn_dist == self.second_straightaway_dist
            + semicircle_millis(self.turn_radius as int)
        &&& self.lap_distance == self.second_turn_dist + self.half_straight_dist
    }

    pub fn new(lane: &TrackLaneId) -> (r: TrackLane)
        ensures
            r.wf(),
            r.length_from_inner_edge as int == lane.length_from_inner_edge_spec(),
    {
        let length_from_inner_edge: u64 = lane.length_from_inner_edge();
        let turn_radius: u64 = TURN_RADIUS_MILLIS + length_from_inner_edge;
        let semicircle_circumference: u64 = semicircle_len(turn_radius);
        let half_straight_dist: u64 = STRAIGHT_DISTANCE_MILLIS / 2;
        let vertical_offset: u64 = turn_radius;
        let first_straightaway_after_finish_line_dist: u64 = half_straight_dist;
        let first_turn_dist: u64 =
            first_straightaway_after_finish_line_dist + semicircle_circumference;
        let second_straightaway_dist: u64 = first_turn_dist + STRAIGHT_DISTANCE_MILLIS;
        let second_turn_dist: u64 = second_straightaway_dist + semicircle_circumference;
        let lap_distance: u64 = second_turn_dist + half_straight_dist;
        TrackLane {
            length_from_inner_edge,
            lap_distance,
            half_straight_dist,
            turn_radius,
            vertical_offset,
            first_straightaway_after_finish_line_dist,
            first_turn_dist,
            second_straightaway_dist,
            second_turn_dist,
        }
    }

    /// Numeric bounds that every well-formed lane satisfies; they keep all
    /// the geometry arithmetic inside the machine types.
    pub proof fn lemma_wf_bounds(self)
        requires
            self.wf(),
        ensures
            1_900_000 <= semicircle_millis(self.turn_radius as int) <= 3_100_000,
            7_800_000 <= self.lap_distance <= 10_200_000,
            self.turn_radius <= 970_000,
    {
        assert(620_000 <= self.turn_radius <= 970_000);
        assert(semicircle_millis(self.turn_radius as int) >= 1_900_000) by (nonlinear_arith)
            requires self.turn_radius >= 620_000;
        assert(semicircle_millis(self.turn_radius as int) <= 3_100_000) by (nonlinear_arith)
            requires self.turn_radius <= 970_000;
    }

    /// Distance into the current lap, in millis.
    pub open spec fn current_lap_distance_spec(self, distance: int) -> int {
        distance % (self.lap_distance as int)
    }

    /// Distance into the current lap, in millis.
    pub fn current_lap_distance(&self, distance: u64) -> (r: u64)
        requires
            self.wf(),
        ensures
            r as int == self.current_lap_distance_spec(distance as int),
            r < self.lap_distance,
    {
        proof {
            self.lemma_wf_bounds();
        }
        distance % self.lap_distance
    }

    /// Number of whole laps covered by `distance`.
    pub fn laps_finished(&self, distance: u64) -> (r: u64)
        requires
            self.wf(),
        ensures
            r as int == distance as int / self.lap_distance as int,
    {
        proof {
            self.lemma_wf_bounds();
        }
        distance / self.lap_distance
    }

    /// The section that contains the given distance into a lap. The first
    /// section is the half-open interval up to the first turn; each later
    /// section includes its own end boundary.
    pub open spec fn section_of(self, current_lap_distance: int) -> TrackSection {
        if current_lap_distance < self.first_straightaway_after_finish_line_dist {
            TrackSection::FirstStraightawayAfterFinishLine
        } else if current_lap_distance <= self.first_turn_dist {
            TrackSection::FirstTurn
        } else if current_lap_distance <= self.second_straightaway_dist {
            TrackSection::SecondStraightaway
        } else if current_lap_distance <= self.second_turn_dist {
            TrackSection::SecondTurn
        } else {
            TrackSection::FirstStraightawayBeforeFinishLine
        }
    }

    /// The section that contains `distance`, taken modulo the lap length.
    pub fn in_track_section(&self, distance: u64) -> (r: TrackSection)
        requires
            self.wf(),
        ensures
            r == self.section_of(self.current_lap_distance_spec(distance as int)),
    {
        let current_lap_distance: u64 = self.current_lap_distance(distance);
        if current_lap_distance < self.first_straightaway_after_finish_line_dist {
            TrackSection::FirstStraightawayAfterFinishLine
        } else if current_lap_distance <= self.first_turn_dist {
            TrackSection::FirstTurn
        } else if current_lap_distance <= self.second_straightaway_dist {
            TrackSection::SecondStraightaway
        } else if current_lap_distance <= self.second_turn_dist {
            TrackSection::SecondTurn
        } else {
            TrackSection::FirstStraightawayBeforeFinishLine
        }
    }

    /// Whether `distance` falls in one of the two semicircular turns.
    pub fn in_turn(&self, distance: u64) -> (r: bool)
        requires
            self.wf(),
        ensures
            r == {
                let s = self.section_of(self.current_lap_distance_spec(distance as int));
                s == TrackSection::FirstTurn || s == TrackSection::SecondTurn
            },
    {
        let section = self.in_track_section(distance);
        match section {
            TrackSection::FirstTurn => true,
            TrackSection::SecondTurn => true,
            _ => false,
        }
    }

    /// In-lap distance at which the given section starts.
    pub open spec fn section_start_spec(self, track_section: TrackSection) -> int {
        match track_section {
            TrackSection::FirstStraightawayAfterFinishLine => 0,
            TrackSection::FirstTurn => self.first_straightaway_after_finish_line_dist as int,
            TrackSection::SecondStraightaway => self.first_turn_dist as int,
            TrackSection::SecondTurn => self.second_straightaway_dist as int,
            TrackSection::FirstStraightawayBeforeFinishLine => self.second_turn_dist as int,
        }
    }

    /// In-lap distance at which the given section ends.
    pub open spec fn section_end_spec(self, track_section: TrackSection) -> int {
        match track_section {
            TrackSection::FirstStraightawayAfterFinishLine => {
                self.first_straightaway_after_finish_line_dist as int
            }
            TrackSection::FirstTurn => self.first_turn_dist as int,
            TrackSection::SecondStraightaway => self.second_straightaway_dist as int,
            TrackSection::SecondTurn => self.second_turn_dist as int,
            TrackSection::FirstStraightawayBeforeFinishLine => self.lap_distance as int,
        }
    }

    /// Length of the given section.
    pub open spec fn section_total_spec(self, track_section: TrackSection) -> int {
        self.section_end_spec(track_section) - self.section_start_spec(track_section)
    }

    /// In-lap distance at which the given section starts.
    pub fn track_section_start_distance(&self, track_section: &TrackSection) -> (r: u64)
        requires
            self.wf(),
        ensures
            r as int == self.section_start_spec(*track_section),
    {
        match track_section {
            TrackSection::FirstStraightawayAfterFinishLine => 0,
            TrackSection::FirstTurn => self.first_straightaway_after_finish_line_dist,
            TrackSection::SecondStraightaway => self.first_turn_dist,
            TrackSection::SecondTurn => self.second_straightaway_dist,
            TrackSection::FirstStraightawayBeforeFinishLine => self.second_turn_dist,
        }
    }

    /// In-lap distance at which the given section ends.
    pub fn track_section_end_distance(&self, track_section: &TrackSection) -> (r: u64)
        requires
            self.wf(),
        ensures
            r as int == self.section_end_spec(*track_section),
    {
        match track_section {
            TrackSection::FirstStraightawayAfterFinishLine => {
                self.first_straightaway_after_finish_line_dist
            }
            TrackSection::FirstTurn => self.first_turn_dist,
            TrackSection::SecondStraightaway => self.second_straightaway_dist,
            TrackSection::SecondTurn => self.second_turn_dist,
            TrackSection::FirstStraightawayBeforeFinishLine => self.lap_distance,
        }
    }

    /// Length of the given section.
    pub fn track_section_total_distance(&self, track_section: &TrackSection) -> (r: u64)
        requires
            self.wf(),
        ensures
            r as int == self.section_total_spec(*track_section),
    {
        let end: u64 = self.track_section_end_distance(track_section);
        let start: u64 = self.track_section_start_distance(track_section);
        end - start
    }

    /// In-lap distance of the point a proportion of the way through the
    /// given section; the proportion is in per-mille.
    pub fn lap_distance_at_track_section_proportion(
        &self,
        track_section: &TrackSection,
        proportion: u32,
    ) -> (r: u64)
        requires
            self.wf(),
            proportion <= 1000,
        ensures
            r as int == self.section_start_spec(*track_section)
                + self.section_total_spec(*track_section) * proportion / 1000,
    {
        let initial_dist: u64 = self.track_section_start_distance(track_section);
        let total: u64 = self.track_section_total_distance(track_section);
        proof {
            self.lemma_wf_bounds();
            assert(total * proportion <= total * 1000) by (nonlinear_arith)
                requires proportion <= 1000, total >= 0;
            assert(total * proportion / 1000 <= total) by (nonlinear_arith)
                requires total >= 0, proportion <= 1000;
        }
        let section_dist: u64 = total * (proportion as u64) / 1000;
        initial_dist + section_dist
    }

    /// Remaining distance to the end of the current section, clamped to
    /// zero within `SECTION_END_EPSILON_MILLIS` of the boundary.
    pub open spec fn distance_to_end_spec(self, distance: int) -> int {
        let cur = self.current_lap_distance_spec(distance);
        let remaining = self.section_end_spec(self.section_of(cur)) - cur;
        if remaining < SECTION_END_EPSILON_MILLIS {
            0
        } else {
            remaining
        }
    }

    /// Remaining distance to the end of the current section, clamped to
    /// zero within `SECTION_END_EPSILON_MILLIS` of the boundary.
    pub fn distance_to_end_of_track_section(&self, distance: u64) -> (r: u64)
        requires
            self.wf(),
        ensures
            r as int == self.distance_to_end_spec(distance as int),
    {
        let current_lap_distance: u64 = self.current_lap_distance(distance);
        let current_section = self.in_track_section(current_lap_distance);
        proof {
            self.lemma_wf_bounds();
            vstd::arithmetic::div_mod::lemma_mod_twice(
                distance as int,
                self.lap_distance as int,
            );
        }
        let current_section_end_distance: u64 =
            self.track_section_end_distance(&current_section);
        let distance_to_end: u64 = current_section_end_distance - current_lap_distance;
        if distance_to_end < SECTION_END_EPSILON_MILLIS {
            0
        } else {
            distance_to_end
        }
    }

    /// The pose a rider has after travelling `distance` along this lane
    /// from the finish line. The function is periodic with period
    /// `lap_distance`: only the distance into the current lap matters.
    pub open spec fn pose_at(self, distance: int) -> Pose {
        let cur = self.current_lap_distance_spec(distance);
        match self.section_of(cur) {
            TrackSection::FirstStraightawayAfterFinishLine => Pose::Straight {
                x: cur as i64,
                y: (-(self.vertical_offset as int)) as i64,
                toward_negative_x: false,
            },
            TrackSection::FirstTurn => Pose::TurnArc {
                center_x: self.half_straight_dist as i64,
                center_y: 0,
                radius: self.turn_radius,
                arc_millis: (cur - self.first_straightaway_after_finish_line_dist) as u64,
                half: TurnHalf::FirstTurn,
            },
            TrackSection::SecondStraightaway => Pose::Straight {
                x: (self.half_straight_dist - (cur - self.first_turn_dist)) as i64,
                y: self.vertical_offset as i64,
                toward_negative_x: true,
            },
            TrackSection::SecondTurn => Pose::TurnArc {
                center_x: (-(self.half_straight_dist as int)) as i64,
                center_y: 0,
                radius: self.turn_radius,
                arc_millis: (cur - self.second_straightaway_dist) as u64,
                half: TurnHalf::SecondTurn,
            },
            TrackSection::FirstStraightawayBeforeFinishLine => Pose::Straight {
                x: (cur - self.second_turn_dist - self.half_straight_dist) as i64,
                y: (-(self.vertical_offset as int)) as i64,
                toward_negative_x: false,
            },
        }
    }

    /// Determine the pose at a specified distance from the starting
    /// position of the lane.
    pub fn position_and_rotation(&self, distance: u64) -> (r: Pose)
        requires
            self.wf(),
        ensures
            r == self.pose_at(distance as int),
    {
        proof {
            self.lemma_wf_bounds();
        }
        let current_lap_distance: u64 = self.current_lap_distance(distance);
        proof {
            vstd::arithmetic::div_mod::lemma_mod_twice(
                distance as int,
                self.lap_distance as int,
            );
        }
        match self.in_track_section(current_lap_distance) {
            TrackSection::FirstStraightawayAfterFinishLine => Pose::Straight {
                x: current_lap_distance as i64,
                y: -(self.vertical_offset as i64),
                toward_negative_x: false,
            },
            TrackSection::FirstTurn => Pose::TurnArc {
                center_x: self.half_straight_dist as i64,
                center_y: 0,
                radius: self.turn_radius,
                arc_millis: current_lap_distance
                    - self.first_straightaway_after_finish_line_dist,
                half: TurnHalf::FirstTurn,
            },
            TrackSection::SecondStraightaway => Pose::Straight {
                x: (self.half_straight_dist as i64)
                    - ((current_lap_distance - self.first_turn_dist) as i64),
                y: self.vertical_offset as i64,
                toward_negative_x: true,
            },
            TrackSection::SecondTurn => Pose::TurnArc {
                center_x: -(self.half_straight_dist as i64),
                center_y: 0,
                radius: self.turn_radius,
                arc_millis: current_lap_distance - self.second_straightaway_dist,
                half: TurnHalf::SecondTurn,
            },
            TrackSection::FirstStraightawayBeforeFinishLine => Pose::Straight {
                x: ((current_lap_distance - self.second_turn_dist) as i64)
                    - (self.half_straight_dist as i64),
                y: -(self.vertical_offset as i64),
                toward_negative_x: false,
            },
        }
    }

    /// Exact arc data for the stretch of turn between two distances along
    /// the lane, for drawing a path preview. Both distances must fall in
    /// the same turn section of the same lap.
    pub fn turn_curve_components(&self, start_distance: u64, end_distance: u64) -> (r:
        TurnCurve)
        requires
            self.wf(),
            start_distance <= end_distance,
            ({
                let s = self.section_of(self.current_lap_distance_spec(start_distance as int));
                s == TrackSection::FirstTurn || s == TrackSection::SecondTurn
            }),
            end_distance as int - start_distance as int
                <= self.section_end_spec(
                    self.section_of(self.current_lap_distance_spec(start_distance as int)),
                ) - self.current_lap_distance_spec(start_distance as int),
        ensures
            ({
                let cur = self.current_lap_distance_spec(start_distance as int);
                let section = self.section_of(cur);
                &&& r.radius == self.turn_radius
                &&& r.start_arc_millis as int == cur - self.section_start_spec(section)
                &&& r.sweep_millis == end_distance - start_distance
                &&& section == TrackSection::FirstTurn ==> {
                    &&& r.half == TurnHalf::FirstTurn
                    &&& r.center_x == self.half_straight_dist as i64
                    &&& r.center_y == 0
                }
                &&& section == TrackSection::SecondTurn ==> {
                    &&& r.half == TurnHalf::SecondTurn
                    &&& r.center_x as int == -(self.half_straight_dist as int)
                    &&& r.center_y == 0
                }
            }),
    {
        proof {
            self.lemma_wf_bounds();
        }
        let cur: u64 = self.current_lap_distance(start_distance);
        proof {
            vstd::arithmetic::div_mod::lemma_mod_twice(
                start_distance as int,
                self.lap_distance as int,
            );
        }
        let section = self.in_track_section(cur);
        let section_start: u64 = self.track_section_start_distance(&section);
        let dist_from_section_start: u64 = cur - section_start;
        let sweep_millis: u64 = end_distance - start_distance;
        if matches!(section, TrackSection::FirstTurn) {
            TurnCurve {
                center_x: self.half_straight_dist as i64,
                center_y: 0,
                radius: self.turn_radius,
                start_arc_millis: dist_from_section_start,
                sweep_millis,
                half: TurnHalf::FirstTurn,
            }
        } else {
            TurnCurve {
                center_x: -(self.half_straight_dist as i64),
                center_y: 0,
                radius: self.turn_radius,
                start_arc_millis: dist_from_section_start,
                sweep_millis,
                half: TurnHalf::SecondTurn,
            }
        }
    }
}

/// The distance-to-pose mapping is periodic with period `lap_distance`:
/// travelling one further full lap puts a rider back in the same pose.
pub proof fn lemma_pose_periodic(lane: TrackLane, distance: int)
    requires
        lane.wf(),
        distance >= 0,
    ensures
        lane.pose_at(distance + lane.lap_distance) == lane.pose_at(distance),
{
    lane.lemma_wf_bounds();
    vstd::arithmetic::div_mod::lemma_mod_add_multiples_vanish(
        distance,
        lane.lap_distance as int,
    );
}

/// The five sections partition a lap: every in-lap distance lies in
/// exactly one section, the intervals of consecutive sections meet without
/// gap or overlap, and the turn sections are exactly where `section_of`
/// reports a turn.
pub proof fn lemma_sections_partition_lap(lane: TrackLane, cur: int)
    requires
        lane.wf(),
        0 <= cur < lane.lap_distance,
    ensures
        lane.section_start_spec(TrackSection::FirstStraightawayAfterFinishLine) == 0,
        lane.section_end_spec(TrackSection::FirstStraightawayBeforeFinishLine)
            == lane.lap_distance,
        lane.section_end_spec(TrackSection::FirstStraightawayAfterFinishLine)
            == lane.section_start_spec(TrackSection::FirstTurn),
        lane.section_end_spec(TrackSection::FirstTurn)
            == lane.section_start_spec(TrackSection::SecondStraightaway),
        lane.section_end_spec(TrackSection::SecondStraightaway)
            == lane.section_start_spec(TrackSection::SecondTurn),
        lane.section_end_spec(TrackSection::SecondTurn)
            == lane.section_start_spec(TrackSection::FirstStraightawayBeforeFinishLine),
        lane.section_start_spec(lane.section_of(cur)) <= cur
            <= lane.section_end_spec(lane.section_of(cur)),
        forall|s: TrackSection, t: TrackSection|
            lane.in_section_interval(cur, s) && lane.in_section_interval(cur, t) ==> s == t,
        lane.in_section_interval(cur, lane.section_of(cur)),
        (lane.section_of(cur) == TrackSection::FirstTurn || lane.section_of(cur)
            == TrackSection::SecondTurn) == (lane.first_straightaway_after_finish_line_dist
            <= cur <= lane.first_turn_dist || lane.second_straightaway_dist < cur
            <= lane.second_turn_dist),
{
    lane.lemma_wf_bounds();
}

impl TrackLane {
    /// Whether an in-lap distance lies in the given section's interval.
    /// The first section owns its start boundary and each section owns its
    /// end boundary, so consecutive sections share no point.
    pub open spec fn in_section_interval(self, cur: int, section: TrackSection) -> bool {
        match section {
            TrackSection::FirstStraightawayAfterFinishLine => {
                0 <= cur < self.first_straightaway_after_finish_line_dist
            }
            TrackSection::FirstTurn => {
                self.first_straightaway_after_finish_line_dist <= cur <= self.first_turn_dist
            }
            TrackSection::SecondStraightaway => {
                self.first_turn_dist < cur <= self.second_straightaway_dist
            }
            TrackSection::SecondTurn => {
                self.second_straightaway_dist < cur <= self.second_turn_dist
            }
            TrackSection::FirstStraightawayBeforeFinishLine => {
                self.second_turn_dist < cur < self.lap_distance
            }
        }
    }
}

/// A pose blended between two lanes during a lane change: the pose on the
/// lane the change started from, the pose at the corresponding distance on
/// the target lane, and how far the blend has progressed, in per-mille. A
/// renderer interpolates position and rotation linearly between the two
/// poses by that proportion.
#[derive(Debug, Clone, Copy, PartialEq, Eq, Structural)]
pub struct BlendedPose {
    pub from: Pose,
    pub to: Pose,
    pub proportion: u32,
}

/// The four lanes of the track, computed once at race setup.
#[derive(Debug, Clone, Copy, PartialEq, Eq, Structural)]
pub struct TrackLanes {
    pub first: TrackLane,
    pub second: TrackLane,
    pub third: TrackLane,
    pub fourth: TrackLane,
}

impl TrackLanes {
    /// The lane a lane id names.
    pub open spec fn lane_of(self, id: TrackLaneId) -> TrackLane {
        match id {
            TrackLaneId::First => self.first,
            TrackLaneId::Second => self.second,
            TrackLaneId::Third => self.third,
            TrackLaneId::Fourth => self.fourth,
        }
    }

    /// Each lane is well formed and sits at its id's distance from the
    /// inner edge.
    pub open spec fn wf(self) -> bool {
        &&& self.first.wf()
        &&& self.first.length_from_inner_edge as int
            == TrackLaneId::First.length_from_inner_edge_spec()
        &&& self.second.wf()
        &&& self.second.length_from_inner_edge as int
            == TrackLaneId::Second.length_from_inner_edge_spec()
        &&& self.third.wf()
        &&& self.third.length_from_inner_edge as int
            == TrackLaneId::Third.length_from_inner_edge_spec()
        &&& self.fourth.wf()
        &&& self.fourth.length_from_inner_edge as int
            == TrackLaneId::Fourth.length_from_inner_edge_spec()
    }

    pub fn track_lane(&self, id: &TrackLaneId) -> (r: &TrackLane)
        ensures
            *r == self.lane_of(*id),
    {
        match id {
            TrackLaneId::First => &self.first,
            TrackLaneId::Second => &self.second,
            TrackLaneId::Third => &self.third,
            TrackLaneId::Fourth => &self.fourth,
        }
    }

    /// The distance on `lane_2` that corresponds to `distance` on
    /// `lane_1`: same number of finished laps, same section, and the same
    /// proportion of the way through that section, so that changing lanes
    /// neither slows nor jumps a rider even though the lanes' lap lengths
    /// differ.
    pub open spec fn mapped_distance_spec(
        lane_1: TrackLane,
        lane_2: TrackLane,
        distance: int,
    ) -> int {
        let laps = distance / (lane_1.lap_distance as int);
        let cur = distance % (lane_1.lap_distance as int);
        let section = lane_1.section_of(cur);
        let total_1 = lane_1.section_total_spec(section);
        let remaining = lane_1.distance_to_end_spec(distance);
        let progressed = total_1 - remaining;
        laps * (lane_2.lap_distance as int) + lane_2.section_start_spec(section) + progressed
            * lane_2.section_total_spec(section) / total_1
    }

    #[verifier::rlimit(60)]
    pub fn distance_on_adjacent_lane(
        &self,
        lane_id_1: TrackLaneId,
        lane_id_2: TrackLaneId,
        distance: u64,
    ) -> (r: u64)
        requires
            self.wf(),
            distance <= MAX_DISTANCE_MILLIS,
        ensures
            r as int == Self::mapped_distance_spec(
                self.lane_of(lane_id_1),
                self.lane_of(lane_id_2),
                distance as int,
            ),
            r as int <= (distance as int / self.lane_of(lane_id_1).lap_distance as int + 1)
                * self.lane_of(lane_id_2).lap_distance as int,
    {
        let lane_1 = *self.track_lane(&lane_id_1);
        let lane_2 = *self.track_lane(&lane_id_2);
        proof {
            lane_1.lemma_wf_bounds();
            lane_2.lemma_wf_bounds();
        }
        let num_laps_completed: u64 = lane_1.laps_finished(distance);
        let current_lap_distance: u64 = lane_1.current_lap_distance(distance);
        proof {
            vstd::arithmetic::div_mod::lemma_mod_twice(
                distance as int,
                lane_1.lap_distance as int,
            );
        }
        let track_section = lane_1.in_track_section(current_lap_distance);
        let track_section_total_distance: u64 =
            lane_1.track_section_total_distance(&track_section);
        let track_section_remaining_distance: u64 =
            lane_1.distance_to_end_of_track_section(current_lap_distance);
        proof {
            vstd::arithmetic::div_mod::lemma_mod_twice(
                distance as int,
                lane_1.lap_distance as int,
            );
            assert(lane_1.distance_to_end_spec(current_lap_distance as int)
                == lane_1.distance_to_end_spec(distance as int));
        }
        let progressed: u64 = track_section_total_distance - track_section_remaining_distance;
        let total_2: u64 = lane_2.track_section_total_distance(&track_section);
        let start_2: u64 = lane_2.track_section_start_distance(&track_section);
        proof {
            assert(num_laps_completed <= MAX_DISTANCE_MILLIS as int / 7_800_000) by {
                vstd::arithmetic::div_mod::lemma_div_is_ordered_by_denominator(
                    distance as int,
                    7_800_000,
                    lane_1.lap_distance as int,
                );
                vstd::arithmetic::div_mod::lemma_div_is_ordered(
                    distance as int,
                    MAX_DISTANCE_MILLIS as int,
                    7_800_000,
                );
            }
            assert(num_laps_completed * lane_2.lap_distance <= 0x4_0000_0000_0000int / 7_800_000
                * 10_200_000) by (nonlinear_arith)
                requires
                    num_laps_completed <= 0x4_0000_0000_0000int / 7_800_000,
                    lane_2.lap_distance <= 10_200_000,
            ;
            assert(progressed * total_2 <= 3_100_000 * 3_100_000int) by (nonlinear_arith)
                requires progressed <= 3_100_000, total_2 <= 3_100_000;
            assert(progressed * total_2 / track_section_total_distance as int
                <= progressed * total_2) by {
                vstd::arithmetic::div_mod::lemma_div_nonincreasing(
                    (progressed * total_2) as int,
                    track_section_total_distance as int,
                );
            }
        }
        let lane_2_section_dist: u64 =
            progressed * total_2 / track_section_total_distance;
        proof {
            assert(progressed * total_2 <= track_section_total_distance * total_2)
                by (nonlinear_arith)
                requires progressed <= track_section_total_distance, total_2 >= 0;
            vstd::arithmetic::div_mod::lemma_multiply_divide_le(
                (progressed * total_2) as int,
                track_section_total_distance as int,
                total_2 as int,
            );
            assert((num_laps_completed + 1) * lane_2.lap_distance
                == num_laps_completed * lane_2.lap_distance + lane_2.lap_distance)
                by (nonlinear_arith);
        }
        num_laps_completed * lane_2.lap_distance + start_2 + lane_2_section_dist
    }

    /// Pose of a rider `distance` along `lane_id_1` who is `proportion`
    /// per-mille of the way through a change toward `lane_id_2`. When the
    /// two lanes are equal both poses coincide and the blend is the plain
    /// pose of the lane.
    pub fn pos_and_rot_between_lanes(
        &self,
        lane_id_1: TrackLaneId,
        lane_id_2: TrackLaneId,
        distance: u64,
        proportion: u32,
    ) -> (r: BlendedPose)
        requires
            self.wf(),
            distance <= MAX_DISTANCE_MILLIS,
            proportion <= 1000,
        ensures
            r.from == self.lane_of(lane_id_1).pose_at(distance as int),
            r.proportion == proportion,
            lane_id_1 == lane_id_2 ==> r.to == r.from,
            lane_id_1 != lane_id_2 ==> r.to == self.lane_of(lane_id_2).pose_at(
                Self::mapped_distance_spec(
                    self.lane_of(lane_id_1),
                    self.lane_of(lane_id_2),
                    distance as int,
                ),
            ),
    {
        let lane_1 = self.track_lane(&lane_id_1);
        let pose_1 = lane_1.position_and_rotation(distance);
        if lane_id_1 == lane_id_2 {
            return BlendedPose { from: pose_1, to: pose_1, proportion };
        }
        let lane_2 = self.track_lane(&lane_id_2);
        let lane_2_distance: u64 =
            self.distance_on_adjacent_lane(lane_id_1, lane_id_2, distance);
        let pose_2 = lane_2.position_and_rotation(lane_2_distance);
        BlendedPose { from: pose_1, to: pose_2, proportion }
    }
}

/// Round-trip error of scaling an offset into a section of length `ta`
/// onto a section of length `tb` and back, both scalings by flooring
/// division. The bounds on the section lengths are those of
/// `TrackLane::lemma_wf_bounds`, so one length is always less than twice
/// the other.
proof fn lemma_scaled_offset_round_trip(off: int, ta: int, tb: int)
    requires
        2 <= off <= ta - 10,
        1_900_000 <= ta <= 3_100_000,
        1_900_000 <= tb <= 3_100_000,
    ensures
        1 <= off * tb / ta <= tb - 6,
        off - 2 <= (off * tb / ta) * ta / tb <= off,
{
    let d1 = off * tb;
    let off2 = d1 / ta;
    vstd::arithmetic::div_mod::lemma_fundamental_div_mod(d1, ta);
    vstd::arithmetic::div_mod::lemma_mod_division_less_than_divisor(d1, ta);
    assert(ta * off2 <= d1 && d1 < ta * off2 + ta);
    assert(off2 >= 1) by (nonlinear_arith)
        requires
            d1 == off * tb,
            off >= 2,
            tb >= 1_900_000,
            1_900_000 <= ta <= 3_100_000,
            d1 < ta * off2 + ta,
    ;
    assert(off2 <= tb - 6) by (nonlinear_arith)
        requires
            ta * off2 <= d1,
            d1 == off * tb,
            off <= ta - 10,
            ta < 2 * tb,
            ta >= 1_900_000,
            tb >= 1_900_000,
    ;
    let d2 = off2 * ta;
    let back = d2 / tb;
    vstd::arithmetic::div_mod::lemma_fundamental_div_mod(d2, tb);
    vstd::arithmetic::div_mod::lemma_mod_division_less_than_divisor(d2, tb);
    assert(tb * back <= d2 && d2 < tb * back + tb);
    assert(back <= off) by (nonlinear_arith)
        requires
            tb * back <= d2,
            d2 == off2 * ta,
            ta * off2 <= off * tb,
            tb > 0,
    ;
    assert(back >= off - 2) by (nonlinear_arith)
        requires
            d2 < tb * back + tb,
            d2 == off2 * ta,
            ta * off2 + ta > off * tb,
            ta < 2 * tb,
            tb > 0,
    ;
}

/// Mapping a distance from lane `a` to lane `b` and back returns to the
/// original distance, up to two millis of flooring error: the cross-lane
/// mapping preserves the proportion of the way through the current
/// section. The distance must sit at least 2 millis after the start of
/// its section and at least 10 before its end, so that neither direction
/// of the mapping is moved by the boundary clamping of
/// `distance_to_end_of_track_section`.
#[verifier::rlimit(60)]
pub proof fn lemma_adjacent_distance_round_trip(
    lanes: TrackLanes,
    a: TrackLaneId,
    b: TrackLaneId,
    distance: int,
)
    requires
        lanes.wf(),
        0 <= distance <= MAX_DISTANCE_MILLIS,
        ({
            let la = lanes.lane_of(a);
            let cur = distance % (la.lap_distance as int);
            let sec = la.section_of(cur);
            &&& cur - la.section_start_spec(sec) >= 2
            &&& la.section_end_spec(sec) - cur >= 10
        }),
    ensures
        ({
            let la = lanes.lane_of(a);
            let lb = lanes.lane_of(b);
            let m = TrackLanes::mapped_distance_spec(la, lb, distance);
            let rt = TrackLanes::mapped_distance_spec(lb, la, m);
            distance - 2 <= rt <= distance
        }),
{
    let la = lanes.lane_of(a);
    let lb = lanes.lane_of(b);
    la.lemma_wf_bounds();
    lb.lemma_wf_bounds();
    let big_la = la.lap_distance as int;
    let big_lb = lb.lap_distance as int;
    let laps = distance / big_la;
    let cur = distance % big_la;
    vstd::arithmetic::div_mod::lemma_fundamental_div_mod(distance, big_la);
    vstd::arithmetic::div_mod::lemma_mod_division_less_than_divisor(distance, big_la);
    let sec = la.section_of(cur);
    let sa = la.section_start_spec(sec);
    let ta = la.section_total_spec(sec);
    let off = cur - sa;
    let rem = la.section_end_spec(sec) - cur;
    assert(off + rem == ta);
    assert(la.distance_to_end_spec(distance) == rem);
    let sb = lb.section_start_spec(sec);
    let tb = lb.section_total_spec(sec);
    let off2 = off * tb / ta;
    // The two lanes have equal straights; their turns differ but stay
    // within the bounds that keep the scaled offset's error small.
    let turn = sec == TrackSection::FirstTurn || sec == TrackSection::SecondTurn;
    if turn {
        lemma_scaled_offset_round_trip(off, ta, tb);
    } else {
        assert(ta == tb);
        vstd::arithmetic::div_mod::lemma_div_multiples_vanish(off, ta);
        assert(off * ta == ta * off) by (nonlinear_arith);
        assert(off2 == off);
        vstd::arithmetic::div_mod::lemma_div_multiples_vanish(off2, ta);
        assert(off2 * ta == ta * off2) by (nonlinear_arith);
    }
    assert(1 <= off2 <= tb - 6);
    let back = off2 * ta / tb;
    assert(off - 2 <= back <= off);
    let m = TrackLanes::mapped_distance_spec(la, lb, distance);
    assert(m == laps * big_lb + (sb + off2));
    let cur2 = sb + off2;
    assert(0 <= cur2 < big_lb);
    assert(cur2 == laps * big_lb + cur2 - laps * big_lb) by (nonlinear_arith);
    vstd::arithmetic::div_mod::lemma_fundamental_div_mod_converse_mod(
        m,
        big_lb,
        laps,
        cur2,
    );
    vstd::arithmetic::div_mod::lemma_fundamental_div_mod_converse_div(
        m,
        big_lb,
        laps,
        cur2,
    );
    assert(m / big_lb == laps && m % big_lb == cur2);
    assert(lb.section_of(cur2) == sec);
    assert(lb.section_end_spec(sec) - cur2 == tb - off2);
    assert(lb.distance_to_end_spec(m) == tb - off2);
    let rt = TrackLanes::mapped_distance_spec(lb, la, m);
    assert(rt == laps * big_la + sa + back);
    assert(distance == big_la * laps + cur);
    assert(laps * big_la == big_la * laps) by (nonlinear_arith);
    assert(distance == laps * big_la + sa + off);
}

impl Default for TrackLanes {
    /// The four lanes of the race track.
    fn default() -> (r: TrackLanes)
        ensures
            r.wf(),
    {
        TrackLanes {
            first: TrackLane::new(&TrackLaneId::First),
            second: TrackLane::new(&TrackLaneId::Second),
            third: TrackLane::new(&TrackLaneId::Third),
            fourth: TrackLane::new(&TrackLaneId::Fourth),
        }
    }
}

} // verus!
