use zombie_survival::angle::PI_FIXED;
use zombie_survival::common::World;
use zombie_survival::geometry::{Vec2, DIR_ONE, UNIT};
use zombie_survival::zombie::{
    set_zombie_direction, spawn_zombie, zombie_movement, zombie_translate, ZOMBIE_SPEED,
};

fn v(x: i64, y: i64) -> Vec2 {
    Vec2 { x, y }
}

#[test]
fn no_retarget_keeps_heading_and_straight_line_motion() {
    // With no finished tick the heading never changes, so the
    // cumulative displacement is speed times the sum of the deltas
    // along the fixed unit heading.
    let mut w = World::new();
    let z = spawn_zombie(&mut w, v(0, 0));
    set_zombie_direction(&mut w, z, Vec2 { x: DIR_ONE, y: 0 });
    let deltas = [16u64, 17, 16, 33, 18];
    let mut total = 0u64;
    for d in deltas {
        let retargeted = zombie_movement(&mut w, d);
        assert!(!retargeted, "the 3 s wander timer cannot finish this early");
        assert_eq!(w.entities[z].zombie.unwrap().angle, 0, "heading unchanged");
        zombie_translate(&mut w, d);
        total += d;
    }
    let expected_x = DIR_ONE * ZOMBIE_SPEED * total as i64;
    assert_eq!(w.entities[z].pos, v(expected_x, 0));
    assert_eq!(w.entities[z].pos.y, 0, "straight-line motion");
}

#[test]
fn retarget_fires_on_timer_wrap_and_samples_in_domain() {
    let mut w = World::new();
    let z = spawn_zombie(&mut w, v(0, 0));
    let retargeted = zombie_movement(&mut w, 3100);
    assert!(retargeted, "a full wander period elapsed");
    let heading = w.entities[z].zombie.unwrap().angle;
    assert!(-PI_FIXED < heading && heading <= PI_FIXED, "heading sampled in (-pi, pi]");
    // The elapsed fraction restarted at the wrap: 100 / 3000.
    assert_eq!(w.zombie_timer.timer.elapsed_millis(), 100);
    let again = zombie_movement(&mut w, 10);
    assert!(!again, "finished reports true once per wrap only");
}

#[test]
fn rotation_blends_toward_the_heading_gradually() {
    let mut w = World::new();
    let z = spawn_zombie(&mut w, v(0, 0));
    // Pin a known heading by writing the component directly, then let
    // a tick blend the rotation by elapsed / duration.
    let mut e = w.entities[z];
    let mut wander = e.zombie.unwrap();
    wander.angle = 3000;
    e.zombie = Some(wander);
    w.entities[z] = e;
    let retargeted = zombie_movement(&mut w, 1500);
    assert!(!retargeted);
    // Blend factor 1500 / 3000: halfway from 0 toward 3000.
    assert_eq!(w.entities[z].rotation, 1500);
}

#[test]
fn wander_speed_scales_with_direction_components() {
    let mut w = World::new();
    let z = spawn_zombie(&mut w, v(0, 0));
    set_zombie_direction(&mut w, z, Vec2 { x: -600, y: 800 });
    zombie_translate(&mut w, 100);
    // Each axis advances dir * speed * delta sub-steps, exactly.
    assert_eq!(w.entities[z].pos, v(-600 * ZOMBIE_SPEED * 100, 800 * ZOMBIE_SPEED * 100));
}

#[test]
fn dead_wanderers_do_not_move() {
    let mut w = World::new();
    let z = spawn_zombie(&mut w, v(7 * UNIT, 0));
    zombie_survival::common::despawn_recursive(&mut w, z);
    zombie_translate(&mut w, 100);
    assert_eq!(w.entities[z].pos, v(7 * UNIT, 0));
}

#[test]
fn set_direction_on_a_stale_handle_is_a_no_op() {
    let mut w = World::new();
    let z = spawn_zombie(&mut w, v(0, 0));
    set_zombie_direction(&mut w, 999, Vec2 { x: 0, y: DIR_ONE });
    assert_eq!(w.entities[z].zombie.unwrap().dir, Vec2 { x: DIR_ONE, y: 0 });
}
