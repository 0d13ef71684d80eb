use speedway::track::{
    BlendedPose, Pose, TrackLane, TrackLaneId, TrackLanes, TrackSection, TurnHalf,
};

fn lanes() -> TrackLanes {
    TrackLanes::default()
}

fn first_lane() -> TrackLane {
    TrackLane::new(&TrackLaneId::First)
}

#[test]
fn lane_ids_order_and_adjacency() {
    assert_eq!(TrackLaneId::Second.left(), TrackLaneId::First);
    assert_eq!(TrackLaneId::First.left(), TrackLaneId::First);
    assert_eq!(TrackLaneId::Third.left_left(), TrackLaneId::First);
    assert_eq!(TrackLaneId::Third.right(), TrackLaneId::Fourth);
    assert_eq!(TrackLaneId::Fourth.right(), TrackLaneId::Fourth);
    assert_eq!(TrackLaneId::First.right_right(), TrackLaneId::Third);
    assert_eq!(TrackLaneId::First.between(TrackLaneId::Third), TrackLaneId::Second);
    assert_eq!(TrackLaneId::Fourth.between(TrackLaneId::Second), TrackLaneId::Third);
    assert_eq!(TrackLaneId::Fourth.difference(TrackLaneId::Second), 2);
    assert_eq!(TrackLaneId::First.difference(TrackLaneId::Third), -2);
    assert!(TrackLaneId::Fourth.is_to_right_of(TrackLaneId::First));
    assert!(!TrackLaneId::First.is_to_right_of(TrackLaneId::First));
}

#[test]
fn lane_geometry_constants() {
    let lane = first_lane();
    assert_eq!(lane.length_from_inner_edge, 50_000);
    assert_eq!(lane.turn_radius, 670_000);
    assert_eq!(lane.half_straight_dist, 1_000_000);
    assert_eq!(lane.first_straightaway_after_finish_line_dist, 1_000_000);
    assert_eq!(lane.first_turn_dist, 3_104_867);
    assert_eq!(lane.second_straightaway_dist, 5_104_867);
    assert_eq!(lane.second_turn_dist, 7_209_734);
    assert_eq!(lane.lap_distance, 8_209_734);

    let fourth = TrackLane::new(&TrackLaneId::Fourth);
    assert_eq!(fourth.length_from_inner_edge, 350_000);
    assert_eq!(fourth.turn_radius, 970_000);
    assert_eq!(fourth.lap_distance, 10_094_690);
}

#[test]
fn outer_lanes_are_longer() {
    let t = lanes();
    assert!(t.first.lap_distance < t.second.lap_distance);
    assert!(t.second.lap_distance < t.third.lap_distance);
    assert!(t.third.lap_distance < t.fourth.lap_distance);
}

#[test]
fn section_lookup_boundaries() {
    let lane = first_lane();
    assert_eq!(
        lane.in_track_section(0),
        TrackSection::FirstStraightawayAfterFinishLine
    );
    assert_eq!(
        lane.in_track_section(999_999),
        TrackSection::FirstStraightawayAfterFinishLine
    );
    assert_eq!(lane.in_track_section(1_000_000), TrackSection::FirstTurn);
    assert_eq!(lane.in_track_section(3_104_867), TrackSection::FirstTurn);
    assert_eq!(lane.in_track_section(3_104_868), TrackSection::SecondStraightaway);
    assert_eq!(lane.in_track_section(5_104_867), TrackSection::SecondStraightaway);
    assert_eq!(lane.in_track_section(5_104_868), TrackSection::SecondTurn);
    assert_eq!(lane.in_track_section(7_209_734), TrackSection::SecondTurn);
    assert_eq!(
        lane.in_track_section(7_209_735),
        TrackSection::FirstStraightawayBeforeFinishLine
    );
    assert_eq!(
        lane.in_track_section(8_209_733),
        TrackSection::FirstStraightawayBeforeFinishLine
    );
    // One full lap later the sections repeat.
    assert_eq!(lane.in_track_section(8_209_734), TrackSection::FirstStraightawayAfterFinishLine);
}

#[test]
fn in_turn_exactly_on_the_two_turn_sections() {
    let lane = first_lane();
    assert!(!lane.in_turn(0));
    assert!(!lane.in_turn(999_999));
    assert!(lane.in_turn(1_000_000));
    assert!(lane.in_turn(2_000_000));
    assert!(lane.in_turn(3_104_867));
    assert!(!lane.in_turn(3_104_868));
    assert!(!lane.in_turn(5_104_867));
    assert!(lane.in_turn(5_104_868));
    assert!(lane.in_turn(7_209_734));
    assert!(!lane.in_turn(7_209_735));
}

#[test]
fn section_distances_partition_the_lap() {
    let lane = first_lane();
    let sections = [
        TrackSection::FirstStraightawayAfterFinishLine,
        TrackSection::FirstTurn,
        TrackSection::SecondStraightaway,
        TrackSection::SecondTurn,
        TrackSection::FirstStraightawayBeforeFinishLine,
    ];
    let mut covered: u64 = 0;
    for section in &sections {
        let start = lane.track_section_start_distance(section);
        let end = lane.track_section_end_distance(section);
        assert_eq!(start, covered);
        assert_eq!(lane.track_section_total_distance(section), end - start);
        covered = end;
    }
    assert_eq!(covered, lane.lap_distance);
}

#[test]
fn laps_finished_counts_whole_laps() {
    let lane = first_lane();
    assert_eq!(lane.laps_finished(0), 0);
    assert_eq!(lane.laps_finished(8_209_733), 0);
    assert_eq!(lane.laps_finished(8_209_734), 1);
    assert_eq!(lane.laps_finished(3 * 8_209_734 + 17), 3);
}

#[test]
fn positions_on_straights_and_turns() {
    let lane = first_lane();
    assert_eq!(
        lane.position_and_rotation(0),
        Pose::Straight { x: 0, y: -670_000, toward_negative_x: false }
    );
    assert_eq!(
        lane.position_and_rotation(500_000),
        Pose::Straight { x: 500_000, y: -670_000, toward_negative_x: false }
    );
    assert_eq!(
        lane.position_and_rotation(1_000_000),
        Pose::TurnArc {
            center_x: 1_000_000,
            center_y: 0,
            radius: 670_000,
            arc_millis: 0,
            half: TurnHalf::FirstTurn,
        }
    );
    assert_eq!(
        lane.position_and_rotation(2_000_000),
        Pose::TurnArc {
            center_x: 1_000_000,
            center_y: 0,
            radius: 670_000,
            arc_millis: 1_000_000,
            half: TurnHalf::FirstTurn,
        }
    );
    assert_eq!(
        lane.position_and_rotation(4_000_000),
        Pose::Straight { x: 104_867, y: 670_000, toward_negative_x: true }
    );
    assert_eq!(
        lane.position_and_rotation(5_104_868),
        Pose::TurnArc {
            center_x: -1_000_000,
            center_y: 0,
            radius: 670_000,
            arc_millis: 1,
            half: TurnHalf::SecondTurn,
        }
    );
    assert_eq!(
        lane.position_and_rotation(7_209_735),
        Pose::Straight { x: -999_999, y: -670_000, toward_negative_x: false }
    );
}

#[test]
fn position_is_periodic_in_the_lap_distance() {
    let lane = first_lane();
    let lap = lane.lap_distance;
    for d in [0u64, 1, 999_999, 1_000_000, 2_345_678, 5_104_868, 8_209_733] {
        assert_eq!(lane.position_and_rotation(d), lane.position_and_rotation(d + lap));
        assert_eq!(lane.position_and_rotation(d), lane.position_and_rotation(d + 3 * lap));
    }
}

#[test]
fn distance_to_end_clamps_near_the_boundary() {
    let lane = first_lane();
    assert_eq!(lane.distance_to_end_of_track_section(995_000), 5_000);
    assert_eq!(lane.distance_to_end_of_track_section(999_990), 10);
    assert_eq!(lane.distance_to_end_of_track_section(999_995), 5);
    assert_eq!(lane.distance_to_end_of_track_section(999_996), 0);
    assert_eq!(lane.distance_to_end_of_track_section(999_998), 0);
}

#[test]
fn turn_curve_components_describe_the_arc() {
    let lane = first_lane();
    let curve = lane.turn_curve_components(2_000_000, 2_500_000);
    assert_eq!(curve.center_x, 1_000_000);
    assert_eq!(curve.center_y, 0);
    assert_eq!(curve.radius, 670_000);
    assert_eq!(curve.start_arc_millis, 1_000_000);
    assert_eq!(curve.sweep_millis, 500_000);
    assert_eq!(curve.half, TurnHalf::FirstTurn);

    let curve2 = lane.turn_curve_components(5_104_868, 5_104_868);
    assert_eq!(curve2.center_x, -1_000_000);
    assert_eq!(curve2.half, TurnHalf::SecondTurn);
    assert_eq!(curve2.start_arc_millis, 1);
    assert_eq!(curve2.sweep_millis, 0);
}

#[test]
fn adjacent_distance_keeps_section_proportion() {
    let t = lanes();
    // On a straight the lanes line up exactly.
    assert_eq!(
        t.distance_on_adjacent_lane(TrackLaneId::First, TrackLaneId::Second, 100_000),
        100_000
    );
    // Mid-way through the first turn of the first lane.
    assert_eq!(
        t.distance_on_adjacent_lane(TrackLaneId::First, TrackLaneId::Second, 2_000_000),
        2_149_253
    );
    assert_eq!(
        t.distance_on_adjacent_lane(TrackLaneId::First, TrackLaneId::Fourth, 2_000_000),
        2_447_761
    );
    // Laps carry over onto the other lane's lap length.
    let d = 2 * 8_209_734 + 500_000;
    assert_eq!(
        t.distance_on_adjacent_lane(TrackLaneId::First, TrackLaneId::Third, d),
        2 * 9_466_370 + 500_000
    );
}

#[test]
fn adjacent_distance_round_trip_is_nearly_exact() {
    let t = lanes();
    for d in [2_000_000u64, 1_500_000, 6_000_000, 16_919_468] {
        for to in [TrackLaneId::Second, TrackLaneId::Third, TrackLaneId::Fourth] {
            let there = t.distance_on_adjacent_lane(TrackLaneId::First, to, d);
            let back = t.distance_on_adjacent_lane(to, TrackLaneId::First, there);
            assert!(back <= d, "{back} > {d}");
            assert!(d - back <= 2, "{d} - {back} > 2");
        }
    }
}

#[test]
fn blended_pose_between_lanes() {
    let t = lanes();
    let same = t.pos_and_rot_between_lanes(TrackLaneId::First, TrackLaneId::First, 2_000_000, 300);
    assert_eq!(same.from, same.to);
    assert_eq!(same.proportion, 300);
    assert_eq!(same.from, t.first.position_and_rotation(2_000_000));

    let blended: BlendedPose =
        t.pos_and_rot_between_lanes(TrackLaneId::First, TrackLaneId::Second, 2_000_000, 250);
    assert_eq!(blended.from, t.first.position_and_rotation(2_000_000));
    assert_eq!(blended.to, t.second.position_and_rotation(2_149_253));
    assert_eq!(blended.proportion, 250);
}

#[test]
fn track_lane_lookup_returns_each_lane() {
    let t = lanes();
    assert_eq!(t.track_lane(&TrackLaneId::First).length_from_inner_edge, 50_000);
    assert_eq!(t.track_lane(&TrackLaneId::Second).length_from_inner_edge, 150_000);
    assert_eq!(t.track_lane(&TrackLaneId::Third).length_from_inner_edge, 250_000);
    assert_eq!(t.track_lane(&TrackLaneId::Fourth).length_from_inner_edge, 350_000);
}

#[test]
fn lap_distance_at_proportion_walks_the_section() {
    let lane = first_lane();
    assert_eq!(
        lane.lap_distance_at_track_section_proportion(&TrackSection::FirstTurn, 0),
        1_000_000
    );
    assert_eq!(
        lane.lap_distance_at_track_section_proportion(&TrackSection::FirstTurn, 1000),
        3_104_867
    );
    assert_eq!(
        lane.lap_distance_at_track_section_proportion(&TrackSection::SecondStraightaway, 500),
        3_104_867 + 1_000_000
    );
}
