//! Turn-resolution engine for a lane-based motorcycle race on a stadium
//! track: four concentric closed lanes, each made of two straights joined by
//! two semicircular turns.
//!
//! All geometry is exact fixed-point arithmetic. Distances, lengths and
//! coordinates are measured in *millis*: thousandths of a world unit (the
//! straights are 2000 units long, so 2_000_000 millis). Speeds are world
//! units per second, time steps are milliseconds, and interpolation
//! proportions run from 0 to 1000 (per-mille of a full turn). Positions on a
//! turn are described by the arc's center, radius and arc length rather than
//! by sine and cosine, so every quantity the engine computes is an integer
//! and every function is verified; a renderer turns arcs into screen
//! coordinates.

use vstd::prelude::*;

pub mod actions;
pub mod bike;
pub mod collision;
pub mod game;
pub mod opponent;
pub mod rng;
pub mod track;

verus! {

/// Number of laps a race lasts.
pub const LAPS: u64 = 4;

/// Length of each straight, in millis of a world unit.
pub const STRAIGHT_DISTANCE_MILLIS: u64 = 2_000_000;

/// Turn radius of the inner edge of the track, in millis.
pub const TURN_RADIUS_MILLIS: u64 = 620_000;

/// Width of one lane, in millis.
pub const LANE_WIDTH_MILLIS: u64 = 100_000;

/// Largest travelled distance the engine supports, in millis. A race is
/// over after 4 laps (well under 50_000_000 millis), so this machine limit
/// is far out of reach; it only keeps lap arithmetic inside `u64`.
pub const MAX_DISTANCE_MILLIS: u64 = 0x4_0000_0000_0000;

} // verus!
