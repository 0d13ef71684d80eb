//! The opponent policy: accelerate whenever that is legal, otherwise pick
//! uniformly at random among the legal maneuvers.

use vstd::prelude::*;

verus! {

use crate::actions::{can_do_spec, snapshot, BikeAction};
use crate::bike::Bike;
use crate::collision::Collision;
use crate::rng::random_index;

/// Marker for a racer steered by the opponent policy rather than the
/// player.
#[derive(Debug, Clone, Copy, PartialEq, Eq, Structural)]
pub struct Opponent;

/// The twelve maneuvers in their fixed order.
pub open spec fn all_actions_spec() -> Seq<BikeAction> {
    seq![
        BikeAction::Accelerate,
        BikeAction::Watch,
        BikeAction::Skid,
        BikeAction::Stop,
        BikeAction::Left,
        BikeAction::LeftLeft,
        BikeAction::LeftElbow,
        BikeAction::LeftHip,
        BikeAction::Right,
        BikeAction::RightRight,
        BikeAction::RightElbow,
        BikeAction::RightHip,
    ]
}

/// The twelve maneuvers in their fixed order.
pub fn all_actions() -> (r: Vec<BikeAction>)
    ensures
        r@ == all_actions_spec(),
{
    let mut actions: Vec<BikeAction> = Vec::new();
    actions.push(BikeAction::Accelerate);
    actions.push(BikeAction::Watch);
    actions.push(BikeAction::Skid);
    actions.push(BikeAction::Stop);
    actions.push(BikeAction::Left);
    actions.push(BikeAction::LeftLeft);
    actions.push(BikeAction::LeftElbow);
    actions.push(BikeAction::LeftHip);
    actions.push(BikeAction::Right);
    actions.push(BikeAction::RightRight);
    actions.push(BikeAction::RightElbow);
    actions.push(BikeAction::RightHip);
    proof {
        assert(actions@ =~= all_actions_spec());
    }
    actions
}

/// The legal maneuvers for `bike` under the given collision state, in the
/// fixed order of `all_actions_spec`. The list is never empty: watching
/// is always legal.
pub fn generate_possible_actions(bike: &Bike, maybe_collision: Option<&Collision>) -> (r: Vec<
    BikeAction,
>)
    ensures
        r@ == all_actions_spec().filter(
            |action: BikeAction| can_do_spec(action, *bike, snapshot(maybe_collision)),
        ),
        r@.len() >= 1,
{
    let ghost pred = |action: BikeAction| can_do_spec(action, *bike, snapshot(maybe_collision));
    let all: Vec<BikeAction> = all_actions();
    let mut possible: Vec<BikeAction> = Vec::new();
    proof {
        assert(all@.take(0).filter(pred) =~= Seq::<BikeAction>::empty());
    }
    let n: usize = all.len();
    let mut i: usize = 0;
    while i < n
        invariant
            i <= n,
            n == all@.len(),
            all@ == all_actions_spec(),
            possible@ == all@.take(i as int).filter(pred),
            pred == (|action: BikeAction| can_do_spec(
                action,
                *bike,
                snapshot(maybe_collision),
            )),
        decreases n - i,
    {
        proof {
            let taken = all@.take(i + 1);
            assert(taken.drop_last() =~= all@.take(i as int));
            assert(taken.last() == all@[i as int]);
            reveal(Seq::filter);
        }
        let action = all[i];
        if action.can_do(bike, maybe_collision) {
            possible.push(action);
        }
        i = i + 1;
    }
    proof {
        assert(all@.take(n as int) =~= all@);
        assert(pred(all_actions_spec()[1]));
        all@.lemma_filter_contains(pred, 1);
    }
    possible
}

/// Pick this turn's maneuver for an opponent: accelerate when that is
/// legal, otherwise draw uniformly among the legal maneuvers. The chosen
/// maneuver is always legal.
pub fn act(bike: &Bike, maybe_collision: Option<&Collision>, rng: &mut fastrand::Rng) -> (r:
    BikeAction)
    ensures
        can_do_spec(r, *bike, snapshot(maybe_collision)),
        can_do_spec(BikeAction::Accelerate, *bike, snapshot(maybe_collision)) ==> r
            == BikeAction::Accelerate,
{
    if BikeAction::Accelerate.can_do(bike, maybe_collision) {
        BikeAction::Accelerate
    } else {
        let ghost pred = |action: BikeAction| can_do_spec(
            action,
            *bike,
            snapshot(maybe_collision),
        );
        let possible_actions: Vec<BikeAction> = generate_possible_actions(
            bike,
            maybe_collision,
        );
        let random_action_index: usize = random_index(rng, possible_actions.len());
        proof {
            all_actions_spec().lemma_filter_pred(pred, random_action_index as int);
        }
        possible_actions[random_action_index]
    }
}

} // verus!
