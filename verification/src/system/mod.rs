//! Systems: dispatching a player action to the uniquely player-tagged
//! entity, and the per-frame physics passes.

pub mod physics;

use crate::action::Action;
use crate::entity::flags::Flags;
use crate::entity::Entity;
use crate::game_state::GameState;
use single::Single;
use vstd::prelude::*;

verus! {

/// Why a player action could not be dispatched: the registry invariant
/// of exactly one player-tagged entity did not hold.
#[derive(Clone, Copy, Debug, PartialEq, Eq, Structural)]
pub enum DispatchError {
    /// No entity carries the player tag.
    NoPlayer,
    /// More than one entity carries the player tag.
    MultiplePlayers,
}

/// The entity at index `k` of `s` carries the player tag.
pub open spec fn is_player_at(s: Seq<Entity>, k: int) -> bool {
    0 <= k < s.len() && (s[k].flags.bits & 1u32) != 0
}

/// Relies on single::Single::single of the single crate, on a vector's
/// iterator: `Ok` with the element exactly when the iterator yields one
/// element, `Error::NoElements` for an empty iterator and
/// `Error::MultipleElements` for a longer one; the two error variants
/// are mapped to this crate's dispatch errors, one arm each.
#[verifier::external_body]
#[allow(deprecated)]
fn single_index(v: &Vec<usize>) -> (r: Result<usize, DispatchError>)
    ensures
        r == (if v@.len() == 1 {
            Ok::<usize, DispatchError>(v@[0])
        } else if v@.len() == 0 {
            Err::<usize, DispatchError>(DispatchError::NoPlayer)
        } else {
            Err::<usize, DispatchError>(DispatchError::MultiplePlayers)
        }),
{
    match v.iter().cloned().single() {
        Ok(i) => Ok(i),
        Err(single::Error::NoElements) => Err(DispatchError::NoPlayer),
        Err(single::Error::MultipleElements) => Err(DispatchError::MultiplePlayers),
    }
}

/// Subject the player entity to the given game action: the action is
/// applied to the entity selected by the player tag, provided that
/// exactly one entity carries it; with none or several, the state is
/// left untouched and the ambiguity is reported as a typed error.
pub fn handle_player_action(game_state: &mut GameState, action: &Action) -> (r: Result<
    (),
    DispatchError,
>)
    requires
        action.value_in_bounds(),
        forall|k: int|
            is_player_at(old(game_state).entities@, k) ==> old(game_state).entities@[k]
                .acc.in_bounds(),
    ensures
        ({
            let s = old(game_state).entities@;
            let t = final(game_state).entities@;
            &&& (forall|k: int|
                (is_player_at(s, k) && (forall|j: int| is_player_at(s, j) ==> j == k)) ==> {
                    let e1 = t[k];
                    &&& r is Ok
                    &&& t == s.update(k, e1)
                    &&& (e1.acc.x as int, e1.acc.y as int) == action.applied_acc_spec(s[k].acc)
                    &&& e1.texture == s[k].texture
                    &&& e1.state == s[k].state
                    &&& e1.vel == s[k].vel
                    &&& e1.flags == s[k].flags
                })
            &&& (forall|k: int| !is_player_at(s, k)) ==> (r == Err::<(), DispatchError>(
                DispatchError::NoPlayer,
            ) && t == s)
            &&& (exists|k1: int, k2: int|
                k1 != k2 && is_player_at(s, k1) && is_player_at(s, k2)) ==> (r == Err::<
                (),
                DispatchError,
            >(DispatchError::MultiplePlayers) && t == s)
        }),
{
    let players: Vec<usize> = game_state.ents_with_flags(Flags::player());
    let ghost s = game_state.entities@;
    match single_index(&players) {
        Ok(idx) => {
            proof {
                assert(is_player_at(s, players@[0] as int));
                assert forall|j: int| is_player_at(s, j) implies j == players@[0] as int by {
                    let w = choose|w: int|
                        0 <= w < players@.len() && (#[trigger] players@[w]) as int == j;
                    assert(players@[w] as int == j);
                }
            }
            action.perform(game_state, idx);
            Ok(())
        },
        Err(e) => {
            proof {
                if players@.len() == 0 {
                    assert forall|k: int| !is_player_at(s, k) by {
                        if is_player_at(s, k) {
                            let w = choose|w: int|
                                0 <= w < players@.len() && (#[trigger] players@[w]) as int == k;
                        }
                    }
                } else {
                    assert(players@.len() > 1);
                    assert(is_player_at(s, players@[0] as int));
                    assert(is_player_at(s, players@[1] as int));
                    assert(players@[0] as int != players@[1] as int);
                }
            }
            Err(e)
        },
    }
}

/// Update position with velocity: translate every entity by its current
/// velocity, leaving velocity and acceleration untouched. (The full
/// integrator, which also applies acceleration, friction and clamping,
/// is `physics::update_all`.)
pub fn update_physics(game_state: &mut GameState)
    requires
        forall|i: int|
            #![trigger old(game_state).entities@[i]]
            0 <= i < old(game_state).entities@.len() ==> {
                let e = old(game_state).entities@[i];
                &&& i64::MIN <= e.state.tx + e.vel.x <= i64::MAX
                &&& i64::MIN <= e.state.ty + e.vel.y <= i64::MAX
            },
    ensures
        final(game_state).entities@.len() == old(game_state).entities@.len(),
        forall|i: int|
            #![trigger final(game_state).entities@[i]]
            0 <= i < old(game_state).entities@.len() ==> {
                let e0 = old(game_state).entities@[i];
                let e1 = final(game_state).entities@[i];
                &&& e1.state.tx == e0.state.tx + e0.vel.x
                &&& e1.state.ty == e0.state.ty + e0.vel.y
                &&& e1.vel == e0.vel
                &&& e1.acc == e0.acc
                &&& e1.texture == e0.texture
                &&& e1.flags == e0.flags
            },
{
    let ghost s = old(game_state).entities@;
    let n: usize = game_state.entities.len();
    let mut idx: usize = 0;
    while idx < n
        invariant
            idx <= n,
            n == s.len(),
            game_state.entities@.len() == s.len(),
            forall|i: int|
                #![trigger s[i]]
                0 <= i < s.len() ==> {
                    let e = s[i];
                    &&& i64::MIN <= e.state.tx + e.vel.x <= i64::MAX
                    &&& i64::MIN <= e.state.ty + e.vel.y <= i64::MAX
                },
            forall|i: int|
                #![trigger game_state.entities@[i]]
                0 <= i < idx ==> {
                    let e0 = s[i];
                    let e1 = game_state.entities@[i];
                    &&& e1.state.tx == e0.state.tx + e0.vel.x
                    &&& e1.state.ty == e0.state.ty + e0.vel.y
                    &&& e1.vel == e0.vel
                    &&& e1.acc == e0.acc
                    &&& e1.texture == e0.texture
                    &&& e1.flags == e0.flags
                },
            forall|i: int|
                #![trigger game_state.entities@[i]]
                idx <= i < s.len() ==> game_state.entities@[i] == s[i],
        decreases n - idx,
    {
        let mut ent: Entity = *game_state.ent_at(idx);
        ent.update();
        *game_state.ent_at_mut(idx) = ent;
        idx = idx + 1;
    }
}

} // verus!
