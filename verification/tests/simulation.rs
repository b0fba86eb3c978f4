//! Scenario tests for the registry, the dispatcher and the integrator:
//! spawning, flag filtering, the key-to-command mapping, the
//! one-player invariant, and one exact integration tick.

use ship_core::action::Action;
use ship_core::entity::flags::Flags;
use ship_core::entity::space_ship::Spaceship;
use ship_core::entity::Entity;
use ship_core::game_state::GameState;
use ship_core::system::physics::{update_all, update_collision_data, PhysicsError};
use ship_core::system::{handle_player_action, update_physics, DispatchError};
use ship_core::utils::{to_angle, Event, Key};
use ship_core::vec::Vec2;

#[test]
fn new_world_holds_one_player() {
    let gs = GameState::new();
    assert_eq!(gs.entities.len(), 1);
    let players = gs.ents_with_flags(Flags::player());
    assert_eq!(players, vec![0]);
}

#[test]
fn spawn_returns_stable_indices() {
    let mut gs = GameState::new();
    let mut e = Entity::make_player_ship(7);
    e.flags = Flags::none();
    assert_eq!(gs.spawn(e), 1);
    assert_eq!(gs.spawn(e), 2);
    assert_eq!(gs.ent_at(1).texture, 7);
}

#[test]
fn ents_with_flags_filters_by_intersection() {
    let mut gs = GameState::new();
    let mut a = Entity::make_player_ship(0);
    a.flags = Flags { bits: 2 };
    let mut b = Entity::make_player_ship(0);
    b.flags = Flags { bits: 3 };
    gs.spawn(a);
    gs.spawn(b);
    // Mask 2 intersects bits 2 and 3 but not the player's bits 1.
    assert_eq!(gs.ents_with_flags(Flags { bits: 2 }), vec![1, 2]);
    // Mask 1 intersects the player and the entity with bits 3.
    assert_eq!(gs.ents_with_flags(Flags::player()), vec![0, 2]);
}

#[test]
fn to_angle_maps_the_four_directions() {
    assert_eq!(to_angle(Key::Right), Some(0));
    assert_eq!(to_angle(Key::Down), Some(1571));
    assert_eq!(to_angle(Key::Left), Some(3142));
    assert_eq!(to_angle(Key::Up), Some(4713));
    assert_eq!(to_angle(Key::Return), None);
    assert_eq!(to_angle(Key::Other), None);
}

#[test]
fn key_down_on_right_yields_thrust_then_angle() {
    let actions = Action::from_event(&Event::KeyPressed { code: Key::Right });
    assert_eq!(
        actions,
        vec![
            Action::SetThrustMagnitude(Entity::PLAYER_ACC),
            Action::SetThrustAngle(0)
        ]
    );
}

#[test]
fn key_up_yields_a_single_stop_command() {
    let actions = Action::from_event(&Event::KeyReleased { code: Key::Other });
    assert_eq!(actions, vec![Action::SetThrustMagnitude(0)]);
}

#[test]
fn unrecognized_events_yield_no_commands() {
    assert_eq!(
        Action::from_event(&Event::KeyPressed { code: Key::Return }),
        vec![]
    );
    assert_eq!(Action::from_event(&Event::Closed), vec![]);
}

#[test]
fn actions_set_the_acceleration() {
    let mut gs = GameState::new();
    assert_eq!(
        handle_player_action(&mut gs, &Action::SetThrustMagnitude(Entity::PLAYER_ACC)),
        Ok(())
    );
    assert_eq!(gs.ent_at(0).acc, Vec2::new(Entity::PLAYER_ACC, 0));
    assert_eq!(
        handle_player_action(&mut gs, &Action::SetThrustAngle(1571)),
        Ok(())
    );
    assert_eq!(gs.ent_at(0).acc, Vec2::new(0, Entity::PLAYER_ACC));
}

#[test]
fn a_second_player_makes_dispatch_fail() {
    let mut gs = GameState::new();
    gs.spawn(Entity::make_player_ship(0));
    // With two player-tagged entities every action is refused, and
    // deterministically so: the state is left untouched.
    for _ in 0..2 {
        assert_eq!(
            handle_player_action(&mut gs, &Action::SetThrustMagnitude(Entity::PLAYER_ACC)),
            Err(DispatchError::MultiplePlayers)
        );
    }
    assert_eq!(gs.ent_at(0).acc, Vec2::origin());
    assert_eq!(gs.ent_at(1).acc, Vec2::origin());
}

#[test]
fn no_player_makes_dispatch_fail() {
    let mut gs = GameState { entities: Vec::new() };
    assert_eq!(
        handle_player_action(&mut gs, &Action::SetThrustMagnitude(0)),
        Err(DispatchError::NoPlayer)
    );
}

#[test]
fn one_tick_integrates_acceleration_with_friction() {
    // velocity (0, 0), acceleration 10 units on x, delta 1 ms, friction
    // 0.95: the new velocity is 9.5 units and the transform moves by it.
    let mut gs = GameState::new();
    gs.ent_at_mut(0).acc = Vec2::new(10_000, 0);
    update_all(&mut gs, 1);
    let e = gs.ent_at(0);
    assert_eq!(e.vel, Vec2::new(9500, 0));
    assert_eq!(e.state.tx, 9500);
    assert_eq!(e.state.ty, 0);
}

#[test]
fn a_tick_clamps_the_velocity_to_the_player_maximum() {
    let mut gs = GameState::new();
    gs.ent_at_mut(0).vel = Vec2::new(30_000, 40_000);
    update_all(&mut gs, 0);
    // (30, 40) decays to (28.5, 38), magnitude 47.5, then is clamped to
    // magnitude 10 along the same direction.
    let e = gs.ent_at(0);
    assert_eq!(e.vel, Vec2::new(6000, 8000));
    assert_eq!(e.vel.mag(), 10_000);
}

#[test]
fn update_physics_translates_by_the_velocity() {
    let mut gs = GameState::new();
    gs.ent_at_mut(0).vel = Vec2::new(100, -50);
    update_physics(&mut gs);
    assert_eq!(gs.ent_at(0).state.tx, 100);
    assert_eq!(gs.ent_at(0).state.ty, -50);
    // The velocity itself is untouched.
    assert_eq!(gs.ent_at(0).vel, Vec2::new(100, -50));
}

#[test]
fn spaceship_update_translates_by_velocity() {
    let mut ship = Spaceship::new(3);
    assert_eq!(ship.texture, 3);
    assert_eq!((ship.state.tx, ship.state.ty), (0, 0));
    ship.vel = Vec2::new(5, 7);
    ship.update();
    ship.update();
    assert_eq!((ship.state.tx, ship.state.ty), (10, 14));
}

#[test]
fn collision_detection_reports_unimplemented() {
    let mut gs = GameState::new();
    assert_eq!(
        update_collision_data(&mut gs, 1),
        Err(PhysicsError::Unimplemented)
    );
}
