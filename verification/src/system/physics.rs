//! The kinematics integrator: once per frame, velocity is updated from
//! acceleration (with friction and clamping) and position from velocity,
//! for every entity in registry order.

use crate::entity::Entity;
use crate::game_state::GameState;
use crate::scalar;
use crate::scalar::SCALE;
use crate::vec::{mul_scaled, Vec2};
use vstd::prelude::*;

verus! {

/// Physics system constant: the per-tick multiplicative velocity decay,
/// in thousandths (0.95 per tick).
pub const FRICTION_AMOUNT: i64 = 950;

/// Largest frame delta the integrator accepts, in milliseconds.
pub const MAX_DELTA_MS: i64 = 1000;

/// Velocity-component bound accepted by the integrator; together with
/// the other bounds it keeps every intermediate product inside `i64`.
pub const MAX_VEL_COORD: i64 = 1_000_000_000;

/// Acceleration-component bound accepted by the integrator.
pub const MAX_ACC_COORD: i64 = 1_000_000;

/// Everything the integrator asks of one entity: velocity, acceleration
/// and accumulated position small enough for one tick of fixed-point
/// arithmetic.
pub open spec fn kinematics_pre(e: Entity) -> bool {
    &&& -MAX_VEL_COORD <= e.vel.x <= MAX_VEL_COORD
    &&& -MAX_VEL_COORD <= e.vel.y <= MAX_VEL_COORD
    &&& -MAX_ACC_COORD <= e.acc.x <= MAX_ACC_COORD
    &&& -MAX_ACC_COORD <= e.acc.y <= MAX_ACC_COORD
    &&& i64::MIN + Entity::PLAYER_MAX_VEL <= e.state.tx <= i64::MAX - Entity::PLAYER_MAX_VEL
    &&& i64::MIN + Entity::PLAYER_MAX_VEL <= e.state.ty <= i64::MAX - Entity::PLAYER_MAX_VEL
}

/// The velocity one integrator tick leaves on an entity: velocity plus
/// acceleration times the frame delta, decayed multiplicatively by
/// friction, and clamped to the player's maximum speed.
pub open spec fn next_vel_spec(vel: Vec2, acc: Vec2, delta_ms: int) -> (int, int) {
    let ax = mul_scaled(acc.x as int, delta_ms * (SCALE as int));
    let ay = mul_scaled(acc.y as int, delta_ms * (SCALE as int));
    let sx = ax + vel.x;
    let sy = ay + vel.y;
    let fx = mul_scaled(sx, FRICTION_AMOUNT as int);
    let fy = mul_scaled(sy, FRICTION_AMOUNT as int);
    let decayed = Vec2 { x: fx as i64, y: fy as i64 };
    decayed.clamp_mag_spec(0, Entity::PLAYER_MAX_VEL as int)
}

/// One integrator tick for one entity: the new entity value.
fn tick_entity(e: Entity, delta_ms: i64) -> (r: Entity)
    requires
        0 <= delta_ms <= MAX_DELTA_MS,
        kinematics_pre(e),
    ensures
        (r.vel.x as int, r.vel.y as int) == next_vel_spec(e.vel, e.acc, delta_ms as int),
        -Entity::PLAYER_MAX_VEL <= r.vel.x <= Entity::PLAYER_MAX_VEL,
        -Entity::PLAYER_MAX_VEL <= r.vel.y <= Entity::PLAYER_MAX_VEL,
        r.state.tx == e.state.tx + r.vel.x,
        r.state.ty == e.state.ty + r.vel.y,
        r.acc == e.acc,
        r.texture == e.texture,
        r.flags == e.flags,
{
    let scaled_delta: i64 = delta_ms * SCALE;
    // Entity acceleration over the frame
    let accdt: Vec2 = e.acc.scalar_mul(scaled_delta);
    proof {
        assert(-(1_000_000_000 * (SCALE as int)) <= e.acc.x * scaled_delta <= 1_000_000_000 * (
        SCALE as int) && -(1_000_000_000 * (SCALE as int)) <= e.acc.y * scaled_delta
            <= 1_000_000_000 * (SCALE as int)) by (nonlinear_arith)
            requires
                -MAX_ACC_COORD <= e.acc.x <= MAX_ACC_COORD,
                -MAX_ACC_COORD <= e.acc.y <= MAX_ACC_COORD,
                MAX_ACC_COORD == 1_000_000,
                0 <= scaled_delta <= 1_000_000,
                SCALE == 1000,
        ;
        scalar::lemma_div_trunc_bound(e.acc.x * scaled_delta, SCALE as int, 1_000_000_000);
        scalar::lemma_div_trunc_bound(e.acc.y * scaled_delta, SCALE as int, 1_000_000_000);
    }
    // Apply over current velocity, then friction
    let summed: Vec2 = e.vel.vec_add(accdt);
    let decayed: Vec2 = summed.scalar_mul(FRICTION_AMOUNT);
    proof {
        assert(-(2_000_000_000 * (SCALE as int)) <= summed.x * FRICTION_AMOUNT <= 2_000_000_000
            * (SCALE as int) && -(2_000_000_000 * (SCALE as int)) <= summed.y * FRICTION_AMOUNT
            <= 2_000_000_000 * (SCALE as int)) by (nonlinear_arith)
            requires
                -2_000_000_000 <= summed.x <= 2_000_000_000,
                -2_000_000_000 <= summed.y <= 2_000_000_000,
                FRICTION_AMOUNT == 950,
                SCALE == 1000,
        ;
        scalar::lemma_div_trunc_bound(summed.x * (FRICTION_AMOUNT as int), SCALE as int,
            2_000_000_000);
        scalar::lemma_div_trunc_bound(summed.y * (FRICTION_AMOUNT as int), SCALE as int,
            2_000_000_000);
    }
    // Clamp velocity to the maximum allowed for the player
    let newvel: Vec2 = decayed.clamp_mag(0, Entity::PLAYER_MAX_VEL);
    let mut r: Entity = e;
    r.vel = newvel;
    // Update position
    r.update();
    r
}

/// Handle position, velocity and acceleration update: one tick of the
/// integrator over every entity, in registry order.
fn update_kinematics(game_state: &mut GameState, delta_ms: i64)
    requires
        0 <= delta_ms <= MAX_DELTA_MS,
        forall|i: int|
            #![trigger old(game_state).entities@[i]]
            0 <= i < old(game_state).entities@.len() ==> kinematics_pre(
                old(game_state).entities@[i],
            ),
    ensures
        final(game_state).entities@.len() == old(game_state).entities@.len(),
        forall|i: int|
            #![trigger final(game_state).entities@[i]]
            0 <= i < old(game_state).entities@.len() ==> {
                let e0 = old(game_state).entities@[i];
                let e1 = final(game_state).entities@[i];
                &&& (e1.vel.x as int, e1.vel.y as int) == next_vel_spec(
                    e0.vel,
                    e0.acc,
                    delta_ms as int,
                )
                &&& -Entity::PLAYER_MAX_VEL <= e1.vel.x <= Entity::PLAYER_MAX_VEL
                &&& -Entity::PLAYER_MAX_VEL <= e1.vel.y <= Entity::PLAYER_MAX_VEL
                &&& e1.state.tx == e0.state.tx + e1.vel.x
                &&& e1.state.ty == e0.state.ty + e1.vel.y
                &&& e1.acc == e0.acc
                &&& e1.texture == e0.texture
                &&& e1.flags == e0.flags
            },
{
    let ghost s = old(game_state).entities@;
    let n: usize = game_state.entities.len();
    let mut idx: usize = 0;
    while idx < n
        invariant
            idx <= n,
            n == s.len(),
            game_state.entities@.len() == s.len(),
            0 <= delta_ms <= MAX_DELTA_MS,
            forall|i: int| #![trigger s[i]] 0 <= i < s.len() ==> kinematics_pre(s[i]),
            forall|i: int|
                #![trigger game_state.entities@[i]]
                0 <= i < idx ==> {
                    let e0 = s[i];
                    let e1 = game_state.entities@[i];
                    &&& (e1.vel.x as int, e1.vel.y as int) == next_vel_spec(
                        e0.vel,
                        e0.acc,
                        delta_ms as int,
                    )
                    &&& -Entity::PLAYER_MAX_VEL <= e1.vel.x <= Entity::PLAYER_MAX_VEL
                    &&& -Entity::PLAYER_MAX_VEL <= e1.vel.y <= Entity::PLAYER_MAX_VEL
                    &&& e1.state.tx == e0.state.tx + e1.vel.x
                    &&& e1.state.ty == e0.state.ty + e1.vel.y
                    &&& e1.acc == e0.acc
                    &&& e1.texture == e0.texture
                    &&& e1.flags == e0.flags
                },
            forall|i: int|
                #![trigger game_state.entities@[i]]
                idx <= i < s.len() ==> game_state.entities@[i] == s[i],
        decreases n - idx,
    {
        let e: Entity = *game_state.ent_at(idx);
        let e2: Entity = tick_entity(e, delta_ms);
        *game_state.ent_at_mut(idx) = e2;
        idx = idx + 1;
    }
}

/// Update all things related to physics: one integrator pass with the
/// frame's elapsed time, in milliseconds.
pub fn update_all(game_state: &mut GameState, delta_ms: i64)
    requires
        0 <= delta_ms <= MAX_DELTA_MS,
        forall|i: int|
            #![trigger old(game_state).entities@[i]]
            0 <= i < old(game_state).entities@.len() ==> kinematics_pre(
                old(game_state).entities@[i],
            ),
    ensures
        final(game_state).entities@.len() == old(game_state).entities@.len(),
        forall|i: int|
            #![trigger final(game_state).entities@[i]]
            0 <= i < old(game_state).entities@.len() ==> {
                let e0 = old(game_state).entities@[i];
                let e1 = final(game_state).entities@[i];
                &&& (e1.vel.x as int, e1.vel.y as int) == next_vel_spec(
                    e0.vel,
                    e0.acc,
                    delta_ms as int,
                )
                &&& -Entity::PLAYER_MAX_VEL <= e1.vel.x <= Entity::PLAYER_MAX_VEL
                &&& -Entity::PLAYER_MAX_VEL <= e1.vel.y <= Entity::PLAYER_MAX_VEL
                &&& e1.state.tx == e0.state.tx + e1.vel.x
                &&& e1.state.ty == e0.state.ty + e1.vel.y
                &&& e1.acc == e0.acc
                &&& e1.texture == e0.texture
                &&& e1.flags == e0.flags
            },
{
    update_kinematics(game_state, delta_ms);
    // A collision pass would run here; `update_collision_data` is still
    // an explicit stub and is not called.
}

/// Why a physics pass could not run.
#[derive(Clone, Copy, Debug, PartialEq, Eq, Structural)]
pub enum PhysicsError {
    /// The requested pass is declared but not implemented.
    Unimplemented,
}

/// Check if any two entities are colliding and record it. Collision
/// detection is not implemented in any pass yet: the stub fails loudly
/// on every call, rather than silently doing nothing, so that a future
/// caller gets a clear signal instead of quietly missing collisions.
pub fn update_collision_data(game_state: &mut GameState, delta_ms: i64) -> (r: Result<
    (),
    PhysicsError,
>)
    ensures
        r == Err::<(), PhysicsError>(PhysicsError::Unimplemented),
        final(game_state).entities@ == old(game_state).entities@,
{
    Err(PhysicsError::Unimplemented)
}

} // verus!
