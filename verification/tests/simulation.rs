use speedway::actions::{on_action, BikeAction};
use speedway::bike::{
    change_speed, check_slip, move_bikes, on_collision, on_exit_simulating_state, try_action,
    Bike, ChangeLane, Racer,
};
use speedway::collision::{
    check_collision_pair, circles_overlap, find_collision, remove_collision_if_clear, Collider,
    Collision, CollisionSide, Point,
};
use speedway::game::{race_position, tick_turn_timer, update_laps, RacingState, TurnTimer};
use speedway::opponent::{act, generate_possible_actions};
use speedway::track::{TrackLane, TrackLaneId, TrackLanes};

fn racer_in(lane: TrackLaneId, speed: u32) -> Racer {
    let mut bike = Bike::new(&lane, 1400, 800);
    bike.speed = speed;
    Racer::new(bike)
}

#[test]
fn accelerate_reaches_speed_plus_acceleration_after_one_turn() {
    let mut racer = racer_in(TrackLaneId::First, 0);
    let accepted = on_action(&mut racer, BikeAction::Accelerate);
    assert!(accepted);
    try_action(&mut racer);
    let cs = racer.change_speed.expect("a speed change starts");
    assert_eq!(cs.start_speed, 0);
    assert_eq!(cs.final_speed, 800);
    assert!(!cs.instant);
    // Half-way through the turn the speed is half-way to the target.
    change_speed(&mut racer, 500);
    assert_eq!(racer.bike.speed, 400);
    // After the full turn the speed is min(0 + 800, 1400) = 800.
    change_speed(&mut racer, 1000);
    assert_eq!(racer.bike.speed, 800);
}

#[test]
fn accelerate_caps_at_max_speed() {
    let mut racer = racer_in(TrackLaneId::First, 1000);
    racer.action = Some(BikeAction::Accelerate);
    try_action(&mut racer);
    let cs = racer.change_speed.expect("a speed change starts");
    assert_eq!(cs.final_speed, 1400);
    for t in [0u32, 100, 500, 900, 1000] {
        let speed = cs.current_speed(t);
        assert!(speed <= 1400);
    }
}

#[test]
fn stop_never_goes_negative() {
    let mut racer = racer_in(TrackLaneId::Second, 900);
    racer.action = Some(BikeAction::Stop);
    try_action(&mut racer);
    let cs = racer.change_speed.expect("a speed change starts");
    assert_eq!(cs.final_speed, 0);
    let mut last = 900u32;
    for t in [0u32, 250, 500, 750, 1000] {
        let speed = cs.current_speed(t);
        assert!(speed <= last);
        last = speed;
    }
    assert_eq!(cs.current_speed(1000), 0);
}

#[test]
fn selecting_an_illegal_action_changes_nothing() {
    let mut racer = racer_in(TrackLaneId::Fourth, 500);
    let before = racer;
    let accepted = on_action(&mut racer, BikeAction::Right);
    assert!(!accepted);
    assert_eq!(racer, before);
}

#[test]
fn lane_change_thresholds_resolve_single_changes() {
    let mut change = ChangeLane::new(TrackLaneId::Second, TrackLaneId::Third);
    assert!(!change.double_lane_change);
    assert!(!change.changing_to_left);
    change.current_proportion = 400;
    assert_eq!(change.final_lane(), TrackLaneId::Second);
    change.current_proportion = 599;
    assert_eq!(change.final_lane(), TrackLaneId::Second);
    change.current_proportion = 800;
    assert_eq!(change.final_lane(), TrackLaneId::Third);
}

#[test]
fn lane_change_thresholds_resolve_double_changes() {
    let mut change = ChangeLane::new(TrackLaneId::Fourth, TrackLaneId::Second);
    assert!(change.double_lane_change);
    assert!(change.changing_to_left);
    change.current_proportion = 399;
    assert_eq!(change.final_lane(), TrackLaneId::Fourth);
    change.current_proportion = 500;
    assert_eq!(change.final_lane(), TrackLaneId::Third);
    change.current_proportion = 901;
    assert_eq!(change.final_lane(), TrackLaneId::Second);
}

#[test]
fn blocked_lane_change_decays_toward_start() {
    let mut racer = racer_in(TrackLaneId::Second, 300);
    racer.change_lane = Some(ChangeLane {
        start_lane_id: TrackLaneId::Second,
        final_lane_id: TrackLaneId::First,
        double_lane_change: false,
        current_proportion: 500,
        lane_clear: false,
        changing_to_left: true,
    });
    move_bikes(&mut racer, 0, 200);
    let cl = racer.change_lane.expect("the change is still running");
    assert_eq!(cl.current_proportion, 400);
}

#[test]
fn left_collision_blocks_a_leftward_change() {
    let mut racer = racer_in(TrackLaneId::Second, 300);
    racer.change_lane = Some(ChangeLane::new(TrackLaneId::Second, TrackLaneId::First));
    racer.collision = Some(Collision {
        other_entity: 2,
        side: CollisionSide::Left,
        other_bike_speed: 280,
    });
    let crashed = on_collision(&mut racer);
    assert!(!crashed);
    assert!(!racer.change_lane.unwrap().lane_clear);
}

#[test]
fn right_collision_leaves_a_leftward_change_alone() {
    let mut racer = racer_in(TrackLaneId::Second, 300);
    racer.change_lane = Some(ChangeLane::new(TrackLaneId::Second, TrackLaneId::First));
    racer.collision = Some(Collision {
        other_entity: 2,
        side: CollisionSide::Right,
        other_bike_speed: 280,
    });
    on_collision(&mut racer);
    assert!(racer.change_lane.unwrap().lane_clear);
}

#[test]
fn frontal_collision_snaps_speed_and_reports_crashes() {
    let mut racer = racer_in(TrackLaneId::Third, 500);
    racer.collision = Some(Collision {
        other_entity: 0,
        side: CollisionSide::Front,
        other_bike_speed: 480,
    });
    let crashed = on_collision(&mut racer);
    assert!(crashed);
    let cs = racer.change_speed.expect("an instant speed change starts");
    assert!(cs.instant);
    assert_eq!(cs.final_speed, 480);
    change_speed(&mut racer, 0);
    assert_eq!(racer.bike.speed, 480);

    // A ten-unit difference is matched without a crash.
    let mut gentle = racer_in(TrackLaneId::Third, 490);
    gentle.collision = Some(Collision {
        other_entity: 0,
        side: CollisionSide::Front,
        other_bike_speed: 480,
    });
    assert!(!on_collision(&mut gentle));
}

#[test]
fn moving_advances_distance_by_speed_times_time() {
    let mut racer = racer_in(TrackLaneId::First, 1000);
    move_bikes(&mut racer, 16, 0);
    assert_eq!(racer.bike.distance, 16_000);
    move_bikes(&mut racer, 16, 0);
    assert_eq!(racer.bike.distance, 32_000);
}

#[test]
fn slip_throws_a_fast_bike_outward_in_a_turn() {
    let lanes = TrackLanes::default();
    // Inside the first turn of the first lane; the limit there is 1600.
    let mut racer = racer_in(TrackLaneId::First, 1700);
    racer.bike.distance = 2_000_000;
    let slipped = check_slip(&mut racer, &lanes);
    assert!(slipped);
    let cl = racer.change_lane.expect("an involuntary change starts");
    assert_eq!(cl.start_lane_id, TrackLaneId::First);
    assert_eq!(cl.final_lane_id, TrackLaneId::Second);
    assert!(!cl.double_lane_change);
}

#[test]
fn heavy_slip_jumps_two_lanes() {
    let lanes = TrackLanes::default();
    let mut racer = racer_in(TrackLaneId::First, 2500);
    racer.bike.distance = 2_000_000;
    assert!(check_slip(&mut racer, &lanes));
    let cl = racer.change_lane.expect("an involuntary change starts");
    assert_eq!(cl.final_lane_id, TrackLaneId::Third);
    assert!(cl.double_lane_change);
}

#[test]
fn skidding_prevents_the_slip() {
    let lanes = TrackLanes::default();
    let mut racer = racer_in(TrackLaneId::First, 1700);
    racer.bike.distance = 2_000_000;
    racer.action = Some(BikeAction::Skid);
    assert!(!check_slip(&mut racer, &lanes));
    assert!(racer.change_lane.is_none());
}

#[test]
fn no_slip_on_a_straight() {
    let lanes = TrackLanes::default();
    let mut racer = racer_in(TrackLaneId::First, 2500);
    racer.bike.distance = 500_000;
    assert!(!check_slip(&mut racer, &lanes));
}

#[test]
fn turn_end_commits_the_resolved_lane_and_remaps_distance() {
    let lanes = TrackLanes::default();
    let mut racer = racer_in(TrackLaneId::First, 800);
    racer.bike.distance = 2_000_000;
    racer.action = Some(BikeAction::Right);
    try_action(&mut racer);
    let mut cl = racer.change_lane.unwrap();
    cl.current_proportion = 800;
    racer.change_lane = Some(cl);
    on_exit_simulating_state(&mut racer, &lanes);
    assert_eq!(racer.bike.current_lane_id, TrackLaneId::Second);
    assert_eq!(racer.bike.distance, 2_149_253);
    assert!(racer.change_lane.is_none());
    assert!(racer.change_speed.is_none());
    assert!(racer.action.is_none());
}

#[test]
fn turn_end_below_threshold_returns_to_the_start_lane() {
    let lanes = TrackLanes::default();
    let mut racer = racer_in(TrackLaneId::First, 800);
    racer.bike.distance = 2_000_000;
    racer.change_lane = Some(ChangeLane {
        current_proportion: 400,
        ..ChangeLane::new(TrackLaneId::First, TrackLaneId::Second)
    });
    on_exit_simulating_state(&mut racer, &lanes);
    assert_eq!(racer.bike.current_lane_id, TrackLaneId::First);
    assert_eq!(racer.bike.distance, 2_000_000);
}

#[test]
fn collision_sides_are_antisymmetric_in_one_lane() {
    // Two bikes in the second lane, 100 and 120 units along.
    let mut trailing = Bike::new(&TrackLaneId::Second, 1400, 800);
    trailing.distance = 100_000;
    let mut leading = Bike::new(&TrackLaneId::Second, 1400, 800);
    leading.distance = 120_000;

    let mut trailing_racer = Racer::new(trailing);
    assert!(check_collision_pair(&mut trailing_racer, 1, &leading, true));
    assert_eq!(trailing_racer.collision.unwrap().side, CollisionSide::Front);

    let mut leading_racer = Racer::new(leading);
    assert!(check_collision_pair(&mut leading_racer, 0, &trailing, true));
    assert_eq!(leading_racer.collision.unwrap().side, CollisionSide::Back);
}

#[test]
fn collision_sides_across_lanes() {
    let mut outer = Bike::new(&TrackLaneId::Third, 1400, 800);
    outer.distance = 100_000;
    let mut inner = Bike::new(&TrackLaneId::Second, 1400, 800);
    inner.distance = 100_000;

    let mut outer_racer = Racer::new(outer);
    assert!(check_collision_pair(&mut outer_racer, 1, &inner, true));
    assert_eq!(outer_racer.collision.unwrap().side, CollisionSide::Left);

    let mut inner_racer = Racer::new(inner);
    assert!(check_collision_pair(&mut inner_racer, 0, &outer, true));
    assert_eq!(inner_racer.collision.unwrap().side, CollisionSide::Right);
}

#[test]
fn collision_marker_is_kept_until_overlap_ceases() {
    let other = Bike::new(&TrackLaneId::Second, 1400, 800);
    let mut racer = racer_in(TrackLaneId::Second, 100);
    assert!(check_collision_pair(&mut racer, 1, &other, true));
    // Still overlapping: a second check attaches nothing new.
    assert!(!check_collision_pair(&mut racer, 1, &other, true));
    remove_collision_if_clear(&mut racer, true);
    assert!(racer.collision.is_some());
    remove_collision_if_clear(&mut racer, false);
    assert!(racer.collision.is_none());
}

#[test]
fn wheel_circle_overlap_tests() {
    let a = Point { x: 0, y: 0 };
    let b = Point { x: 50_000, y: 0 };
    assert!(circles_overlap(a, 30_000, b, 20_000));
    assert!(!circles_overlap(a, 30_000, b, 19_999));

    let collider = Collider::new(120_000, 60_000);
    assert_eq!(collider.half_size_x, 60_000);
    assert_eq!(collider.half_size_y, 30_000);
    // Two bikes side by side, 60 units apart center to center: their
    // 30-unit wheels just touch.
    let overlap = find_collision(
        Point { x: 60_000, y: 0 },
        Point { x: -60_000, y: 0 },
        &collider,
        Point { x: 60_000, y: 60_000 },
        Point { x: -60_000, y: 60_000 },
        &collider,
    );
    assert!(overlap);
    let apart = find_collision(
        Point { x: 60_000, y: 0 },
        Point { x: -60_000, y: 0 },
        &collider,
        Point { x: 60_000, y: 60_001 },
        Point { x: -60_000, y: 60_001 },
        &collider,
    );
    assert!(!apart);
}

#[test]
fn turn_timer_saturates_and_reports_proportion() {
    let mut timer = TurnTimer::default();
    assert_eq!(timer.duration_ms, 1000);
    assert!(!timer.finished());
    assert_eq!(timer.proportion_finished(), 0);
    timer.tick(250);
    assert_eq!(timer.proportion_finished(), 250);
    timer.tick(600);
    assert_eq!(timer.proportion_finished(), 850);
    timer.tick(600);
    assert!(timer.finished());
    assert_eq!(timer.proportion_finished(), 1000);
    timer.reset();
    assert_eq!(timer.elapsed_ms, 0);
    assert!(!timer.finished());
}

#[test]
fn clock_expiry_flips_the_phase_back_to_commanding() {
    let mut timer = TurnTimer::new();
    assert_eq!(tick_turn_timer(&mut timer, 400), RacingState::Simulating);
    assert_eq!(tick_turn_timer(&mut timer, 400), RacingState::Simulating);
    assert_eq!(tick_turn_timer(&mut timer, 400), RacingState::Commanding);
    assert_eq!(timer.elapsed_ms, 1000);
}

#[test]
fn lap_events_and_race_finish() {
    let lane = TrackLane::new(&TrackLaneId::First);
    let mut bike = Bike::new(&TrackLaneId::First, 1400, 800);
    bike.distance = lane.lap_distance - 1;
    let (laps, event, finished) = update_laps(0, &bike, &lane);
    assert_eq!(laps, 0);
    assert!(!event);
    assert!(!finished);

    bike.distance = lane.lap_distance;
    let (laps, event, finished) = update_laps(0, &bike, &lane);
    assert_eq!(laps, 1);
    assert!(event);
    assert!(!finished);

    bike.distance = 4 * lane.lap_distance + 10;
    let (laps, event, finished) = update_laps(3, &bike, &lane);
    assert_eq!(laps, 4);
    assert!(event);
    assert!(finished);
}

#[test]
fn race_position_ranks_by_distance() {
    assert_eq!(race_position(500, &vec![100, 200, 300]), 1);
    assert_eq!(race_position(250, &vec![100, 200, 300]), 2);
    assert_eq!(race_position(150, &vec![100, 200, 300]), 3);
    assert_eq!(race_position(50, &vec![100, 200, 300]), 4);
    assert_eq!(race_position(200, &vec![100, 200, 300]), 3);
    assert_eq!(race_position(7, &vec![]), 1);
}

#[test]
fn possible_actions_for_a_fresh_bike_on_the_inner_lane() {
    let bike = Bike::new(&TrackLaneId::First, 1400, 800);
    let possible = generate_possible_actions(&bike, None);
    assert_eq!(
        possible,
        vec![
            BikeAction::Accelerate,
            BikeAction::Watch,
            BikeAction::Right,
            BikeAction::RightRight,
            BikeAction::RightElbow,
            BikeAction::RightHip,
        ]
    );
}

#[test]
fn opponent_accelerates_whenever_legal() {
    let bike = Bike::new(&TrackLaneId::Second, 1400, 800);
    let mut rng = fastrand::Rng::with_seed(7);
    assert_eq!(act(&bike, None, &mut rng), BikeAction::Accelerate);
}

#[test]
fn opponent_picks_a_legal_action_when_accelerating_is_illegal() {
    let mut bike = Bike::new(&TrackLaneId::Second, 1400, 800);
    bike.speed = 1400;
    for seed in 0..32u64 {
        let mut rng = fastrand::Rng::with_seed(seed);
        let chosen = act(&bike, None, &mut rng);
        assert!(chosen.can_do(&bike, None), "{chosen:?} from seed {seed}");
        assert_ne!(chosen, BikeAction::Accelerate);
    }
    // The same seed draws the same action.
    let mut rng_a = fastrand::Rng::with_seed(3);
    let mut rng_b = fastrand::Rng::with_seed(3);
    assert_eq!(act(&bike, None, &mut rng_a), act(&bike, None, &mut rng_b));
}
