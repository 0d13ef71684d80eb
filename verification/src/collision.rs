//! Collision detection between bikes: the two-circle "wheel" overlap test
//! on exact coordinates, and the classification of which side a collision
//! comes from.

use vstd::prelude::*;

verus! {

use crate::bike::Bike;

/// Speed difference above which a frontal collision counts as a crash, in
/// world units per second.
pub const CRASH_SPEED_DELTA: u32 = 10;

/// Largest coordinate magnitude, in millis, that the overlap tests accept;
/// it keeps every squared distance inside `i64`. The track fits in a few
/// million millis, so this machine limit is far out of reach.
pub const MAX_COORDINATE_MILLIS: i64 = 100_000_000;

/// A point of the plane, in millis.
#[derive(Debug, Clone, Copy, PartialEq, Eq, Structural)]
pub struct Point {
    pub x: i64,
    pub y: i64,
}

/// Half-extents of a bike's collider, in millis: the wheels sit
/// `half_size_x` before and behind the bike's center along its heading,
/// and each wheel is a circle of radius `half_size_y`.
#[derive(Debug, Clone, Copy, PartialEq, Eq, Structural)]
pub struct Collider {
    pub half_size_x: u64,
    pub half_size_y: u64,
}

impl Collider {
    pub fn new(width: u64, length: u64) -> (r: Collider)
        ensures
            r.half_size_x == width / 2,
            r.half_size_y == length / 2,
    {
        Collider { half_size_x: width / 2, half_size_y: length / 2 }
    }
}

/// The side of this bike on which another bike's collider overlaps.
#[derive(Debug, Clone, Copy, PartialEq, Eq, Structural)]
pub enum CollisionSide {
    Front,
    Left,
    Right,
    Back,
}

/// A collision in progress, from one bike's perspective: who was hit, on
/// which side, and how fast the other bike was going when the overlap
/// began.
#[derive(Debug, Clone, Copy, PartialEq, Eq, Structural)]
pub struct Collision {
    pub other_entity: usize,
    pub side: CollisionSide,
    pub other_bike_speed: u32,
}

/// Whether two circles of the given centers and radii intersect.
pub open spec fn circles_overlap_spec(c1: Point, r1: int, c2: Point, r2: int) -> bool {
    (c1.x - c2.x) * (c1.x - c2.x) + (c1.y - c2.y) * (c1.y - c2.y) <= (r1 + r2) * (r1 + r2)
}

/// Whether the coordinates of a point are small enough for the overlap
/// arithmetic.
pub open spec fn point_in_range(p: Point) -> bool {
    -MAX_COORDINATE_MILLIS <= p.x <= MAX_COORDINATE_MILLIS && -MAX_COORDINATE_MILLIS <= p.y
        <= MAX_COORDINATE_MILLIS
}

/// Whether two circles of the given centers and radii intersect.
pub fn circles_overlap(c1: Point, r1: u64, c2: Point, r2: u64) -> (r: bool)
    requires
        point_in_range(c1),
        point_in_range(c2),
        r1 <= MAX_COORDINATE_MILLIS,
        r2 <= MAX_COORDINATE_MILLIS,
    ensures
        r == circles_overlap_spec(c1, r1 as int, c2, r2 as int),
{
    let dx: i64 = c1.x - c2.x;
    let dy: i64 = c1.y - c2.y;
    let rsum: i64 = (r1 as i64) + (r2 as i64);
    proof {
        assert(dx * dx <= 200_000_000 * 200_000_000int) by (nonlinear_arith)
            requires -200_000_000 <= dx <= 200_000_000;
        assert(dx * dx >= 0) by (nonlinear_arith);
        assert(dy * dy <= 200_000_000 * 200_000_000int) by (nonlinear_arith)
            requires -200_000_000 <= dy <= 200_000_000;
        assert(dy * dy >= 0) by (nonlinear_arith);
        assert(rsum * rsum <= 200_000_000 * 200_000_000int) by (nonlinear_arith)
            requires 0 <= rsum <= 200_000_000;
        assert(rsum * rsum >= 0) by (nonlinear_arith);
    }
    dx * dx + dy * dy <= rsum * rsum
}

/// Whether the two-wheel colliders of two bikes overlap: each bike is a
/// pair of circles, and the bikes collide when any of the four circle
/// pairs intersect.
pub open spec fn bikes_overlap_spec(
    front_1: Point,
    rear_1: Point,
    radius_1: int,
    front_2: Point,
    rear_2: Point,
    radius_2: int,
) -> bool {
    ||| circles_overlap_spec(front_1, radius_1, front_2, radius_2)
    ||| circles_overlap_spec(front_1, radius_1, rear_2, radius_2)
    ||| circles_overlap_spec(rear_1, radius_1, front_2, radius_2)
    ||| circles_overlap_spec(rear_1, radius_1, rear_2, radius_2)
}

/// Whether the two-wheel colliders of two bikes overlap. The wheel centers
/// are the bikes' centers displaced by their colliders' `half_size_x`
/// along their headings; the caller computes them from the bikes' poses.
pub fn find_collision(
    front_1: Point,
    rear_1: Point,
    collider_1: &Collider,
    front_2: Point,
    rear_2: Point,
    collider_2: &Collider,
) -> (r: bool)
    requires
        point_in_range(front_1),
        point_in_range(rear_1),
        point_in_range(front_2),
        point_in_range(rear_2),
        collider_1.half_size_y <= MAX_COORDINATE_MILLIS,
        collider_2.half_size_y <= MAX_COORDINATE_MILLIS,
    ensures
        r == bikes_overlap_spec(
            front_1,
            rear_1,
            collider_1.half_size_y as int,
            front_2,
            rear_2,
            collider_2.half_size_y as int,
        ),
{
    let r1: u64 = collider_1.half_size_y;
    let r2: u64 = collider_2.half_size_y;
    circles_overlap(front_1, r1, front_2, r2) || circles_overlap(front_1, r1, rear_2, r2)
        || circles_overlap(rear_1, r1, front_2, r2) || circles_overlap(rear_1, r1, rear_2, r2)
}

/// The side from which `bike` is struck by `other`: in the same lane the
/// bike farther along is struck from the back and the one behind from the
/// front; across lanes the outer bike is struck on its left (track-center)
/// side and the inner on its right.
pub open spec fn collision_side_spec(bike: Bike, other: Bike) -> CollisionSide {
    if bike.current_lane_id == other.current_lane_id {
        if bike.distance > other.distance {
            CollisionSide::Back
        } else {
            CollisionSide::Front
        }
    } else if bike.current_lane_id.ordinal() > other.current_lane_id.ordinal() {
        CollisionSide::Left
    } else {
        CollisionSide::Right
    }
}

/// Classify the side of a collision from `bike`'s perspective.
pub fn collision_side(bike: &Bike, other: &Bike) -> (r: CollisionSide)
    ensures
        r == collision_side_spec(*bike, *other),
{
    if bike.current_lane_id == other.current_lane_id {
        if bike.distance > other.distance {
            CollisionSide::Back
        } else {
            CollisionSide::Front
        }
    } else if bike.current_lane_id.is_to_right_of(other.current_lane_id) {
        CollisionSide::Left
    } else {
        CollisionSide::Right
    }
}

/// The side the other bike reports for the same contact.
pub open spec fn opposite_side(side: CollisionSide) -> CollisionSide {
    match side {
        CollisionSide::Front => CollisionSide::Back,
        CollisionSide::Back => CollisionSide::Front,
        CollisionSide::Left => CollisionSide::Right,
        CollisionSide::Right => CollisionSide::Left,
    }
}

/// Side classification is anti-symmetric: when one bike sees the other in
/// front, the other sees it behind, and the left and right sides swap
/// likewise. The two bikes must not sit at the same distance of the same
/// lane: two exactly coincident bikes each see the other in front.
pub proof fn lemma_collision_side_antisymmetric(bike: Bike, other: Bike)
    requires
        bike.current_lane_id != other.current_lane_id || bike.distance != other.distance,
    ensures
        collision_side_spec(bike, other) == opposite_side(collision_side_spec(other, bike)),
{
}

/// Record a collision with another bike when their colliders overlap and
/// no collision is already active: the racer keeps a snapshot of who was
/// hit, on which side, and the other bike's speed at impact. The caller
/// passes the result of the overlap test on the two bikes' wheel circles.
/// The result reports whether a new collision was attached.
pub fn check_collision_pair(
    racer: &mut crate::bike::Racer,
    other_entity: usize,
    other_bike: &Bike,
    overlapping: bool,
) -> (added: bool)
    ensures
        added == (overlapping && old(racer).collision is None),
        added ==> *final(racer) == (crate::bike::Racer {
            collision: Some(Collision {
                other_entity,
                side: collision_side_spec(old(racer).bike, *other_bike),
                other_bike_speed: other_bike.speed,
            }),
            ..*old(racer)
        }),
        !added ==> *final(racer) == *old(racer),
{
    if overlapping && racer.collision.is_none() {
        let side = collision_side(&racer.bike, other_bike);
        racer.collision = Some(Collision {
            other_entity,
            side,
            other_bike_speed: other_bike.speed,
        });
        true
    } else {
        false
    }
}

/// Drop the racer's collision marker once its collider no longer
/// overlaps the other bike's. The caller passes the result of re-testing
/// the overlap against the bike the collision was recorded with.
pub fn remove_collision_if_clear(racer: &mut crate::bike::Racer, still_overlapping: bool)
    ensures
        *final(racer) == if old(racer).collision is Some && !still_overlapping {
            crate::bike::Racer { collision: None, ..*old(racer) }
        } else {
            *old(racer)
        },
{
    if racer.collision.is_some() && !still_overlapping {
        racer.collision = None;
    }
}

} // verus!
