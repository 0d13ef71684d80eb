//! Race flow: the two phases of a turn, the fixed-duration turn clock
//! that drives every interpolation, lap counting, and the ordinal race
//! position.

use vstd::prelude::*;

verus! {

use crate::track::TrackLane;
use crate::bike::Bike;
use crate::LAPS;

/// Length of the simulating phase of one turn, in milliseconds.
pub const TURN_DURATION_MS: u32 = 1000;

/// The two phases of a turn: every racer picks a maneuver while
/// commanding, then the physics run until the turn clock expires.
#[derive(Debug, Clone, Copy, PartialEq, Eq, Structural)]
pub enum RacingState {
    Commanding,
    Simulating,
}

/// The fixed-duration clock of the simulating phase. Its elapsed
/// proportion drives all interpolations; it saturates at its duration, so
/// the proportion never runs past a full turn.
#[derive(Debug, Clone, Copy, PartialEq, Eq, Structural)]
pub struct TurnTimer {
    pub duration_ms: u32,
    pub elapsed_ms: u32,
}

impl TurnTimer {
    pub open spec fn wf(self) -> bool {
        self.duration_ms > 0 && self.elapsed_ms <= self.duration_ms
    }

    pub fn new() -> (r: TurnTimer)
        ensures
            r == (TurnTimer { duration_ms: TURN_DURATION_MS, elapsed_ms: 0 }),
            r.wf(),
    {
        TurnTimer { duration_ms: TURN_DURATION_MS, elapsed_ms: 0 }
    }

    /// Advance the clock by a frame, saturating at the turn's end.
    pub fn tick(&mut self, dt_ms: u32)
        requires
            old(self).wf(),
        ensures
            final(self).duration_ms == old(self).duration_ms,
            final(self).elapsed_ms == if old(self).elapsed_ms + dt_ms
                <= old(self).duration_ms {
                old(self).elapsed_ms + dt_ms
            } else {
                old(self).duration_ms as int
            },
            final(self).wf(),
    {
        let grown: u64 = self.elapsed_ms as u64 + dt_ms as u64;
        if grown <= self.duration_ms as u64 {
            self.elapsed_ms = grown as u32;
        } else {
            self.elapsed_ms = self.duration_ms;
        }
    }

    /// Rewind the clock for the next simulating phase.
    pub fn reset(&mut self)
        ensures
            final(self).duration_ms == old(self).duration_ms,
            final(self).elapsed_ms == 0,
    {
        self.elapsed_ms = 0;
    }

    /// Whether the simulating phase is over.
    pub fn finished(&self) -> (r: bool)
        requires
            self.wf(),
        ensures
            r == (self.elapsed_ms == self.duration_ms),
    {
        self.elapsed_ms >= self.duration_ms
    }

    /// The elapsed proportion of the turn, in per-mille.
    pub fn proportion_finished(&self) -> (r: u32)
        requires
            self.wf(),
        ensures
            r as int == self.elapsed_ms * 1000 / (self.duration_ms as int),
            r <= 1000,
    {
        let scaled: u64 = self.elapsed_ms as u64 * 1000;
        proof {
            assert(self.elapsed_ms * 1000 / (self.duration_ms as int) <= 1000)
                by (nonlinear_arith)
                requires 0 < self.duration_ms, self.elapsed_ms <= self.duration_ms;
        }
        (scaled / self.duration_ms as u64) as u32
    }
}

impl Default for TurnTimer {
    /// A fresh clock for a full turn.
    fn default() -> (r: TurnTimer)
        ensures
            r == (TurnTimer { duration_ms: TURN_DURATION_MS, elapsed_ms: 0 }),
            r.wf(),
    {
        TurnTimer::new()
    }
}

/// Marker for the racer steered by the player.
#[derive(Debug, Clone, Copy, PartialEq, Eq, Structural)]
pub struct Player;

/// Advance the turn clock by one frame of the simulating phase. When the
/// clock expires the phase flips back to commanding; until then it stays
/// as it is.
pub fn tick_turn_timer(timer: &mut TurnTimer, dt_ms: u32) -> (next: RacingState)
    requires
        old(timer).wf(),
    ensures
        final(timer).wf(),
        final(timer).duration_ms == old(timer).duration_ms,
        final(timer).elapsed_ms == if old(timer).elapsed_ms + dt_ms
            <= old(timer).duration_ms {
            old(timer).elapsed_ms + dt_ms
        } else {
            old(timer).duration_ms as int
        },
        next == if final(timer).elapsed_ms == final(timer).duration_ms {
            RacingState::Commanding
        } else {
            RacingState::Simulating
        },
{
    timer.tick(dt_ms);
    if timer.finished() {
        RacingState::Commanding
    } else {
        RacingState::Simulating
    }
}

/// A completed lap, reported to presentation when a rider's count grows.
#[derive(Debug, Clone, Copy, PartialEq, Eq, Structural)]
pub struct LapEvent(pub u64);

/// Refresh a rider's lap count from its bike's travelled distance.
/// Returns the new count, whether it changed since `rider_laps` (a lap
/// event), and whether the race is finished for this rider.
pub fn update_laps(rider_laps: u64, bike: &Bike, lane: &TrackLane) -> (r: (u64, bool, bool))
    requires
        lane.wf(),
    ensures
        r.0 as int == bike.distance as int / lane.lap_distance as int,
        r.1 == (r.0 != rider_laps),
        r.2 == (r.0 != rider_laps && r.0 >= LAPS),
{
    let current_lap: u64 = lane.laps_finished(bike.distance);
    let changed: bool = current_lap != rider_laps;
    let finished: bool = changed && current_lap >= LAPS;
    (current_lap, changed, finished)
}

/// How many of the given travelled distances lie strictly behind the
/// player's.
pub open spec fn racers_behind(player_distance: u64, opponent_distances: Seq<u64>) -> int {
    opponent_distances.filter(|d: u64| player_distance > d).len() as int
}

/// The player's 1-based rank by travelled distance, regardless of lane:
/// one more than the number of opponents not strictly behind the player.
pub fn race_position(player_distance: u64, opponent_distances: &Vec<u64>) -> (r: usize)
    requires
        opponent_distances@.len() < usize::MAX,
    ensures
        r as int == opponent_distances@.len() + 1 - racers_behind(
            player_distance,
            opponent_distances@,
        ),
{
    let ghost pred = |d: u64| player_distance > d;
    let mut behind: usize = 0;
    let n: usize = opponent_distances.len();
    proof {
        assert(opponent_distances@.take(0).filter(pred) =~= Seq::<u64>::empty());
    }
    let mut i: usize = 0;
    while i < n
        invariant
            i <= n,
            n == opponent_distances@.len(),
            behind as int == opponent_distances@.take(i as int).filter(pred).len(),
            behind <= i,
            pred == (|d: u64| player_distance > d),
        decreases n - i,
    {
        proof {
            let taken = opponent_distances@.take(i + 1);
            assert(taken.drop_last() =~= opponent_distances@.take(i as int));
            assert(taken.last() == opponent_distances@[i as int]);
            reveal(Seq::filter);
        }
        if player_distance > opponent_distances[i] {
            behind = behind + 1;
        }
        i = i + 1;
    }
    proof {
        assert(opponent_distances@.take(n as int) =~= opponent_distances@);
        opponent_distances@.lemma_filter_len(pred);
    }
    (n - behind) + 1
}

} // verus!
