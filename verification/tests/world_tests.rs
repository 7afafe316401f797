use zombie_survival::common::{despawn_recursive, World};
use zombie_survival::geometry::{Vec2, UNIT};
use zombie_survival::player::{spawn_player, PLAYER_MELEE_DAMAGE};
use zombie_survival::zombie::{spawn_zombie, ZOMBIE_HEALTH, ZOMBIE_HURT_RADIUS};

fn v(x: i64, y: i64) -> Vec2 {
    Vec2 { x, y }
}

#[test]
fn new_world_is_empty() {
    let w = World::new();
    assert_eq!(w.entities.len(), 0);
    assert!(w.player.is_none());
    assert!(w.player_hit_collider.is_none());
    assert_eq!(w.shoot_events.len(), 0);
    assert_eq!(w.melee_events.len(), 0);
    assert_eq!(w.hurt_zombie_events.len(), 0);
}

#[test]
fn spawn_player_records_both_handles() {
    let mut w = World::new();
    let id = spawn_player(&mut w);
    assert_eq!(id, 0);
    assert_eq!(w.entities.len(), 2);
    assert_eq!(w.player, Some(0));
    assert_eq!(w.player_hit_collider, Some(1));
    let body = &w.entities[0];
    assert!(body.alive);
    assert!(body.player.is_some());
    let anim = body.anim.unwrap();
    assert_eq!(anim.dir_offset, 6);
    assert_eq!(anim.frame, 0);
    assert!(!anim.is_walking);
    let melee = &w.entities[1];
    assert_eq!(melee.parent, Some(0));
    assert_eq!(melee.hit.unwrap().radius, 16 * UNIT);
    assert_eq!(melee.hit.unwrap().offset, v(32 * UNIT, 0));
    assert_eq!(melee.attack.unwrap().damage, PLAYER_MELEE_DAMAGE);
}

#[test]
fn spawn_player_twice_is_a_no_op() {
    let mut w = World::new();
    let id = spawn_player(&mut w);
    let again = spawn_player(&mut w);
    assert_eq!(id, again);
    assert_eq!(w.entities.len(), 2);
}

#[test]
fn spawn_zombie_attaches_health_and_hurt_zone() {
    let mut w = World::new();
    let id = spawn_zombie(&mut w, v(-300 * UNIT, 200 * UNIT));
    assert_eq!(id, 0);
    assert_eq!(w.entities.len(), 2);
    let z = &w.entities[0];
    assert!(z.alive);
    assert_eq!(z.pos, v(-300 * UNIT, 200 * UNIT));
    assert_eq!(z.health.unwrap().points, ZOMBIE_HEALTH);
    assert_eq!(z.hurt.unwrap().radius, ZOMBIE_HURT_RADIUS);
    assert_eq!(z.zombie.unwrap().angle, 0);
    assert_eq!(w.entities[1].parent, Some(0));
}

#[test]
fn despawn_recursive_kills_entity_and_children() {
    let mut w = World::new();
    let z1 = spawn_zombie(&mut w, v(0, 0));
    let z2 = spawn_zombie(&mut w, v(100, 0));
    despawn_recursive(&mut w, z1);
    assert!(!w.entities[z1].alive);
    assert!(!w.entities[z1 + 1].alive, "child must die with its parent");
    assert!(w.entities[z2].alive, "other entities are untouched");
    assert!(w.entities[z2 + 1].alive);
}

#[test]
fn despawn_keeps_slots_so_handles_stay_stale() {
    let mut w = World::new();
    let z1 = spawn_zombie(&mut w, v(0, 0));
    despawn_recursive(&mut w, z1);
    let before = w.entities.len();
    let z3 = spawn_zombie(&mut w, v(50, 0));
    // The new entity gets a fresh slot: the dead one is never reused.
    assert_eq!(z3, before);
    assert!(!w.entities[z1].alive);
}

#[test]
fn despawn_of_a_dead_entity_changes_nothing_else() {
    let mut w = World::new();
    let z1 = spawn_zombie(&mut w, v(0, 0));
    let z2 = spawn_zombie(&mut w, v(9, 9));
    despawn_recursive(&mut w, z1);
    despawn_recursive(&mut w, z1);
    assert!(!w.entities[z1].alive);
    assert!(w.entities[z2].alive);
    assert_eq!(w.entities[z2].health.unwrap().points, ZOMBIE_HEALTH);
}
