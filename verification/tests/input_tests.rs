use zombie_survival::animation::{animate_player, PLAYER_ANIM_FRAME_COUNT};
use zombie_survival::common::World;
use zombie_survival::events::handle_shoot_events;
use zombie_survival::geometry::{Vec2, DIR_ONE, UNIT};
use zombie_survival::player::{spawn_player, PLAYER_ANIM_FRAME_MILLIS, PLAYER_SPEED};
use zombie_survival::user_controls::{
    check_keyboard_input, check_mouse_click_events, check_mouse_move_input,
    check_player_movement_events, AimInput, DIAG_ONE,
};

fn v(x: i64, y: i64) -> Vec2 {
    Vec2 { x, y }
}

#[test]
fn keyboard_moves_player_camera_and_spawn_point() {
    let mut w = World::new();
    let p = spawn_player(&mut w);
    check_keyboard_input(&mut w, 10, false, true, false, false);
    let step = DIR_ONE * PLAYER_SPEED * 10;
    assert_eq!(w.entities[p].pos, v(step, 0));
    assert_eq!(w.camera_pos, v(step, 0));
    assert_eq!(w.bullet_spawn_info.pos, v(step, 0));
    assert!(w.entities[p].anim.unwrap().is_walking);
}

#[test]
fn diagonal_movement_uses_the_diagonal_scale() {
    let mut w = World::new();
    let p = spawn_player(&mut w);
    check_keyboard_input(&mut w, 10, false, true, true, false);
    let step = DIAG_ONE * PLAYER_SPEED * 10;
    assert_eq!(w.entities[p].pos, v(step, step));
}

#[test]
fn opposing_keys_cancel_and_clear_walking() {
    let mut w = World::new();
    let p = spawn_player(&mut w);
    check_keyboard_input(&mut w, 10, false, true, false, false);
    check_keyboard_input(&mut w, 10, true, true, false, false);
    let step = DIR_ONE * PLAYER_SPEED * 10;
    assert_eq!(w.entities[p].pos, v(step, 0), "cancelled intent moves nothing");
    assert!(!w.entities[p].anim.unwrap().is_walking, "zero intent clears the walking flag");
}

#[test]
fn aim_update_turns_player_and_spawn_transform() {
    let mut w = World::new();
    let p = spawn_player(&mut w);
    let quarter_turn = 4096;
    let north = Vec2 { x: 0, y: DIR_ONE };
    check_mouse_move_input(&mut w, AimInput { angle: quarter_turn, dir: north });
    assert_eq!(w.entities[p].rotation, quarter_turn);
    assert_eq!(w.entities[p].anim.unwrap().dir_offset, 4);
    assert_eq!(w.bullet_spawn_info.rotation, quarter_turn);
    assert_eq!(w.bullet_spawn_info.dir, north);
}

#[test]
fn out_of_domain_aim_is_wrapped_not_rejected() {
    let mut w = World::new();
    let p = spawn_player(&mut w);
    check_mouse_move_input(
        &mut w,
        AimInput { angle: 16384 + 5, dir: Vec2 { x: DIR_ONE, y: 0 } },
    );
    assert_eq!(w.entities[p].rotation, 5);
}

#[test]
fn clicks_queue_requests_at_the_spawn_transform() {
    let mut w = World::new();
    spawn_player(&mut w);
    check_mouse_click_events(&mut w, true, true);
    assert_eq!(w.shoot_events.len(), 1);
    assert_eq!(w.melee_events.len(), 1);
    assert_eq!(w.shoot_events[0].pos, w.bullet_spawn_info.pos);
    check_mouse_click_events(&mut w, false, false);
    assert_eq!(w.shoot_events.len(), 1);
    assert_eq!(w.melee_events.len(), 1);
}

#[test]
fn click_then_shoot_spawns_at_the_player() {
    let mut w = World::new();
    spawn_player(&mut w);
    check_keyboard_input(&mut w, 10, false, true, false, false);
    check_mouse_click_events(&mut w, true, false);
    let shot = handle_shoot_events(&mut w);
    assert!(shot);
    let step = DIR_ONE * PLAYER_SPEED * 10;
    let bullet = &w.entities[2];
    assert!(bullet.bullet.is_some());
    assert_eq!(bullet.pos, v(step, 0));
}

#[test]
fn movement_events_compose_keyboard_then_aim() {
    let mut w = World::new();
    let p = spawn_player(&mut w);
    check_player_movement_events(
        &mut w,
        10,
        false,
        true,
        false,
        false,
        Some(AimInput { angle: 4096, dir: Vec2 { x: 0, y: DIR_ONE } }),
    );
    let step = DIR_ONE * PLAYER_SPEED * 10;
    assert_eq!(w.entities[p].pos, v(step, 0));
    assert_eq!(w.entities[p].rotation, 4096);
    assert_eq!(w.bullet_spawn_info.pos, v(step, 0));
    assert_eq!(w.bullet_spawn_info.rotation, 4096);
}

#[test]
fn walking_player_advances_frames_modulo_count() {
    let mut w = World::new();
    let p = spawn_player(&mut w);
    check_keyboard_input(&mut w, 10, false, true, false, false);
    assert!(w.entities[p].anim.unwrap().is_walking);
    for expected in 1..=PLAYER_ANIM_FRAME_COUNT {
        animate_player(&mut w, PLAYER_ANIM_FRAME_MILLIS);
        assert_eq!(
            w.entities[p].anim.unwrap().frame,
            expected % PLAYER_ANIM_FRAME_COUNT,
        );
    }
}

#[test]
fn standing_player_snaps_back_to_frame_zero() {
    let mut w = World::new();
    let p = spawn_player(&mut w);
    check_keyboard_input(&mut w, 10, false, true, false, false);
    animate_player(&mut w, PLAYER_ANIM_FRAME_MILLIS);
    assert_eq!(w.entities[p].anim.unwrap().frame, 1);
    check_keyboard_input(&mut w, 10, false, false, false, false);
    animate_player(&mut w, 30);
    assert_eq!(w.entities[p].anim.unwrap().frame, 1, "frame holds until the timer fires");
    animate_player(&mut w, PLAYER_ANIM_FRAME_MILLIS);
    assert_eq!(w.entities[p].anim.unwrap().frame, 0);
}

#[test]
fn dead_or_absent_player_input_is_harmless() {
    let mut w = World::new();
    check_keyboard_input(&mut w, 10, false, true, false, false);
    check_mouse_move_input(&mut w, AimInput { angle: 0, dir: Vec2 { x: DIR_ONE, y: 0 } });
    assert_eq!(w.entities.len(), 0);
    assert_eq!(w.camera_pos, v(0, 0));
}
