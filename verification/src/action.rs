//! Actions: the control commands an input event is translated into, and
//! how a command mutates its target entity.

use crate::entity::{Entity, EntityIndex};
use crate::game_state::GameState;
use crate::scalar::MAX_COORD;
use crate::utils;
use crate::utils::Event;
use crate::vec::Vec2;
use vstd::prelude::*;

verus! {

/// Action that can be performed in a game. Each action targets exactly
/// one entity and mutates only that entity's acceleration.
#[derive(Clone, Copy, Debug, PartialEq, Eq, Structural)]
pub enum Action {
    /// Set acceleration angle, in fixed-point radians.
    SetThrustAngle(i64),
    /// Set the magnitude of the thrusters.
    SetThrustMagnitude(i64),
}

impl Action {
    /// Does the action's payload lie within the range the fixed-point
    /// vector arithmetic accepts?
    pub open spec fn value_in_bounds(self) -> bool {
        match self {
            Action::SetThrustAngle(_) => true,
            Action::SetThrustMagnitude(m) => -MAX_COORD <= m <= MAX_COORD,
        }
    }

    /// The acceleration the action leaves on an entity whose current
    /// acceleration is `acc`: an angle change preserves the magnitude, a
    /// magnitude change preserves the direction.
    pub open spec fn applied_acc_spec(self, acc: Vec2) -> (int, int) {
        match self {
            Action::SetThrustAngle(a) => acc.change_dir_angle_spec(a as int),
            Action::SetThrustMagnitude(m) => acc.change_mag_spec(m as int),
        }
    }

    /// Create an action sequence from an input event: a directional
    /// key-down asks for full thrust towards that key's angle, any
    /// key-up cuts the thrust, and everything else is ignored.
    pub fn from_event(e: &Event) -> (r: Vec<Action>)
        ensures
            *e matches Event::KeyPressed { code } ==> (match utils::to_angle_spec(code) {
                Some(new_angle) => r@ =~= seq![
                    Action::SetThrustMagnitude(Entity::PLAYER_ACC),
                    Action::SetThrustAngle(new_angle),
                ],
                None => r@.len() == 0,
            }),
            *e matches Event::KeyReleased { code } ==> r@ =~= seq![
                Action::SetThrustMagnitude(0i64),
            ],
            *e is Closed ==> r@.len() == 0,
    {
        match e {
            // Down presses are treated as a desire to change acceleration
            // direction
            Event::KeyPressed { code } => match utils::to_angle(*code) {
                None => Vec::new(),
                Some(new_angle) => {
                    let mut r: Vec<Action> = Vec::new();
                    r.push(Action::SetThrustMagnitude(Entity::PLAYER_ACC));
                    r.push(Action::SetThrustAngle(new_angle));
                    r
                },
            },
            // Up presses represent stop acceleration
            Event::KeyReleased { .. } => {
                let mut r: Vec<Action> = Vec::new();
                r.push(Action::SetThrustMagnitude(0));
                r
            },
            _ => Vec::new(),
        }
    }

    /// Make given player perform given action: only the acceleration of
    /// the entity at `ent_idx` changes.
    pub fn perform(&self, game_state: &mut GameState, ent_idx: EntityIndex)
        requires
            ent_idx < old(game_state).entities@.len(),
            old(game_state).entities@[ent_idx as int].acc.in_bounds(),
            self.value_in_bounds(),
        ensures
            ({
                let e0 = old(game_state).entities@[ent_idx as int];
                let e1 = final(game_state).entities@[ent_idx as int];
                &&& final(game_state).entities@ == old(game_state).entities@.update(
                    ent_idx as int,
                    e1,
                )
                &&& (e1.acc.x as int, e1.acc.y as int) == self.applied_acc_spec(e0.acc)
                &&& e1.texture == e0.texture
                &&& e1.state == e0.state
                &&& e1.vel == e0.vel
                &&& e1.flags == e0.flags
            }),
    {
        match self {
            // Set new thrust direction
            Action::SetThrustAngle(new_acc_angle) => {
                let ent = game_state.ent_at_mut(ent_idx);
                ent.acc = ent.acc.change_dir_angle(*new_acc_angle);
            },
            // Set new thrust amount
            Action::SetThrustMagnitude(new_acc_amm) => {
                let ent = game_state.ent_at_mut(ent_idx);
                ent.acc = ent.acc.change_mag(*new_acc_amm);
            },
        }
    }
}

} // verus!
