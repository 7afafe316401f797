use vstd::prelude::*;
use crate::geometry::{Vec2, DIR_ONE, dir_in_bounds, spec_move, move_along};
use crate::angle::{ANGLE_INPUT_LIMIT, spec_wrap_angle, wrap_angle, spec_octant, octant_of_angle};
use crate::timer::DELTA_LIMIT;
use crate::common::{Entity, World, entity_wf, parent_ok, live_health_positive};
use crate::animation::AnimationState;
use crate::events::{ShootEvent, PlayerMeleeEvent};
use crate::player::PLAYER_SPEED;
use crate::bullet::BulletSpawnInfo;

verus! {

/// Diagonal component of a unit direction: the unit scale divided by
/// the square root of two, rounded, so diagonal walking keeps the
/// same speed as walking along an axis.
pub const DIAG_ONE: i64 = 707;

/// Pointer aim as resolved by the input collaborator: the aim angle
/// and its unit vector.
#[derive(Clone, Copy, PartialEq, Eq, Structural, Debug)]
pub struct AimInput {
    pub angle: i64,
    pub dir: Vec2,
}

/// One axis of the movement intent: -1, 0 or 1; opposing keys cancel.
pub open spec fn intent_axis(neg: bool, pos: bool) -> i64 {
    if neg && !pos {
        -1i64
    } else if pos && !neg {
        1i64
    } else {
        0i64
    }
}

/// The unit heading vector of a non-zero movement intent: full scale
/// along one axis, `DIAG_ONE` per axis on a diagonal.
pub open spec fn intent_dir(ix: i64, iy: i64) -> Vec2 {
    if ix != 0 && iy != 0 {
        Vec2 { x: (ix * DIAG_ONE) as i64, y: (iy * DIAG_ONE) as i64 }
    } else {
        Vec2 { x: (ix * DIR_ONE) as i64, y: (iy * DIR_ONE) as i64 }
    }
}

/// The player entity after one keyboard movement tick: the walking
/// flag mirrors the intent, and a walking player advances along the
/// intent heading at walk speed.  A despawned player is left alone.
pub open spec fn walked_player(e: Entity, delta: u64, ix: i64, iy: i64) -> Entity {
    if e.alive {
        let walking = ix != 0 || iy != 0;
        let anim2 = match e.anim {
            Some(a) => Some(AnimationState { is_walking: walking, ..a }),
            None => e.anim,
        };
        if walking {
            Entity {
                pos: spec_move(e.pos, intent_dir(ix, iy), PLAYER_SPEED, delta),
                anim: anim2,
                ..e
            }
        } else {
            Entity { anim: anim2, ..e }
        }
    } else {
        e
    }
}

/// The player entity after an aim update: it faces the wrapped aim
/// angle and its animation octant follows.  A despawned player is left
/// alone.
pub open spec fn aimed_player(e: Entity, wrapped: i64) -> Entity {
    if e.alive {
        let anim2 = match e.anim {
            Some(a) => Some(AnimationState { dir_offset: spec_octant(wrapped), ..a }),
            None => e.anim,
        };
        Entity { rotation: wrapped, anim: anim2, ..e }
    } else {
        e
    }
}

/// Apply the keyboard movement intent (left, right, up, down keys) to
/// the player: set the walking flag from the intent, and on a
/// non-zero intent move the player and the camera by one walk step and
/// let the projectile spawn position track the player.
pub fn check_keyboard_input(
    world: &mut World,
    delta: u64,
    left: bool,
    right: bool,
    up: bool,
    down: bool,
)
    requires
        old(world).wf(),
        delta <= DELTA_LIMIT,
    ensures
        final(world).wf(),
        ({
            let ix = intent_axis(left, right);
            let iy = intent_axis(down, up);
            match old(world).player {
                Some(p) => {
                    let e2 = walked_player(old(world).entities@[p as int], delta, ix, iy);
                    let moving = old(world).entities@[p as int].alive && (ix != 0 || iy != 0);
                    &&& final(world).entities@ == old(world).entities@.update(p as int, e2)
                    &&& final(world).camera_pos == (
                        if moving {
                            spec_move(old(world).camera_pos, intent_dir(ix, iy), PLAYER_SPEED, delta)
                        } else {
                            old(world).camera_pos
                        }
                    )
                    &&& final(world).bullet_spawn_info == (
                        if moving {
                            (BulletSpawnInfo { pos: e2.pos, ..old(world).bullet_spawn_info })
                        } else {
                            old(world).bullet_spawn_info
                        }
                    )
                    &&& (*final(world) == World {
                        entities: final(world).entities,
                        camera_pos: final(world).camera_pos,
                        bullet_spawn_info: final(world).bullet_spawn_info,
                        ..*old(world)
                    })
                },
                None => *final(world) == *old(world),
            }
        }),
{
    let ix: i64 = if left && !right {
        -1
    } else if right && !left {
        1
    } else {
        0
    };
    let iy: i64 = if down && !up {
        -1
    } else if up && !down {
        1
    } else {
        0
    };
    match world.player {
        None => {},
        Some(p) => {
            let e = world.entities[p];
            let mut e2 = e;
            if e.alive {
                let walking = ix != 0 || iy != 0;
                match e.anim {
                    Some(a) => {
                        e2.anim = Some(AnimationState { is_walking: walking, ..a });
                    },
                    None => {},
                }
                if walking {
                    let dirv = if ix != 0 && iy != 0 {
                        Vec2 { x: ix * DIAG_ONE, y: iy * DIAG_ONE }
                    } else {
                        Vec2 { x: ix * DIR_ONE, y: iy * DIR_ONE }
                    };
                    e2.pos = move_along(e.pos, dirv, PLAYER_SPEED, delta);
                    world.camera_pos = move_along(world.camera_pos, dirv, PLAYER_SPEED, delta);
                    world.bullet_spawn_info = BulletSpawnInfo {
                        pos: e2.pos,
                        ..world.bullet_spawn_info
                    };
                }
            }
            world.entities[p] = e2;
            proof {
                assert forall|i: int| 0 <= i < world.entities@.len()
                    implies entity_wf(#[trigger] world.entities@[i])
                        && parent_ok(world.entities@, i)
                        && live_health_positive(world.entities@[i]) by {
                    assert(entity_wf(old(world).entities@[i]));
                    assert(world.entities@[i].parent == old(world).entities@[i].parent);
                    assert(parent_ok(old(world).entities@, i));
                    assert(live_health_positive(old(world).entities@[i]));
                }
            }
        },
    }
}

/// Apply a pointer aim update: the projectile spawn transform takes
/// the wrapped aim angle and its unit vector, and the player turns to
/// face it, its animation octant following the direction mapping.  An
/// aim angle outside `(-pi, pi]` is wrapped into the domain, never
/// rejected.
pub fn check_mouse_move_input(world: &mut World, aim: AimInput)
    requires
        old(world).wf(),
        -ANGLE_INPUT_LIMIT <= aim.angle <= ANGLE_INPUT_LIMIT,
        dir_in_bounds(aim.dir),
    ensures
        final(world).wf(),
        ({
            let wrapped = spec_wrap_angle(aim.angle as int) as i64;
            &&& final(world).bullet_spawn_info == (BulletSpawnInfo {
                rotation: wrapped,
                dir: aim.dir,
                ..old(world).bullet_spawn_info
            })
            &&& final(world).entities@ == (
                match old(world).player {
                    Some(p) => old(world).entities@.update(
                        p as int,
                        aimed_player(old(world).entities@[p as int], wrapped),
                    ),
                    None => old(world).entities@,
                }
            )
            &&& (*final(world) == World {
                entities: final(world).entities,
                bullet_spawn_info: final(world).bullet_spawn_info,
                ..*old(world)
            })
        }),
{
    let wrapped = wrap_angle(aim.angle);
    world.bullet_spawn_info = BulletSpawnInfo {
        rotation: wrapped,
        dir: aim.dir,
        ..world.bullet_spawn_info
    };
    match world.player {
        None => {},
        Some(p) => {
            let e = world.entities[p];
            let mut e2 = e;
            if e.alive {
                e2.rotation = wrapped;
                match e.anim {
                    Some(a) => {
                        e2.anim = Some(AnimationState { dir_offset: octant_of_angle(wrapped), ..a });
                    },
                    None => {},
                }
            }
            world.entities[p] = e2;
            proof {
                assert forall|i: int| 0 <= i < world.entities@.len()
                    implies entity_wf(#[trigger] world.entities@[i])
                        && parent_ok(world.entities@, i)
                        && live_health_positive(world.entities@[i]) by {
                    assert(entity_wf(old(world).entities@[i]));
                    assert(world.entities@[i].parent == old(world).entities@[i].parent);
                    assert(parent_ok(old(world).entities@, i));
                    assert(live_health_positive(old(world).entities@[i]));
                }
            }
        },
    }
}

/// Turn the tick's discrete click triggers into queued requests: a
/// left click queues a shoot request at the current spawn transform, a
/// right click queues a melee request.
pub fn check_mouse_click_events(world: &mut World, left_just_pressed: bool, right_just_pressed: bool)
    requires
        old(world).wf(),
    ensures
        final(world).wf(),
        final(world).shoot_events@ == (
            if left_just_pressed {
                old(world).shoot_events@.push(
                    ShootEvent {
                        pos: old(world).bullet_spawn_info.pos,
                        rotation: old(world).bullet_spawn_info.rotation,
                        dir: old(world).bullet_spawn_info.dir,
                    },
                )
            } else {
                old(world).shoot_events@
            }
        ),
        final(world).melee_events@ == (
            if right_just_pressed {
                old(world).melee_events@.push(PlayerMeleeEvent)
            } else {
                old(world).melee_events@
            }
        ),
        (*final(world) == World {
            shoot_events: final(world).shoot_events,
            melee_events: final(world).melee_events,
            ..*old(world)
        }),
{
    if left_just_pressed {
        let info = world.bullet_spawn_info;
        world.shoot_events.push(
            ShootEvent { pos: info.pos, rotation: info.rotation, dir: info.dir },
        );
    }
    if right_just_pressed {
        world.melee_events.push(PlayerMeleeEvent);
    }
}

/// One input tick: apply the keyboard movement intent, then the
/// pointer aim update if the pointer moved this tick.
pub fn check_player_movement_events(
    world: &mut World,
    delta: u64,
    left: bool,
    right: bool,
    up: bool,
    down: bool,
    aim: Option<AimInput>,
)
    requires
        old(world).wf(),
        delta <= DELTA_LIMIT,
        match aim {
            Some(a) => -ANGLE_INPUT_LIMIT <= a.angle <= ANGLE_INPUT_LIMIT && dir_in_bounds(a.dir),
            None => true,
        },
    ensures
        final(world).wf(),
        ({
            let ix = intent_axis(left, right);
            let iy = intent_axis(down, up);
            match old(world).player {
                Some(p) => {
                    let e = old(world).entities@[p as int];
                    let e2 = walked_player(e, delta, ix, iy);
                    let moving = e.alive && (ix != 0 || iy != 0);
                    let camera2 = if moving {
                        spec_move(old(world).camera_pos, intent_dir(ix, iy), PLAYER_SPEED, delta)
                    } else {
                        old(world).camera_pos
                    };
                    let info2 = if moving {
                        (BulletSpawnInfo { pos: e2.pos, ..old(world).bullet_spawn_info })
                    } else {
                        old(world).bullet_spawn_info
                    };
                    &&& final(world).entities@ == (
                        match aim {
                            Some(a) => old(world).entities@.update(
                                p as int,
                                aimed_player(e2, spec_wrap_angle(a.angle as int) as i64),
                            ),
                            None => old(world).entities@.update(p as int, e2),
                        }
                    )
                    &&& final(world).camera_pos == camera2
                    &&& final(world).bullet_spawn_info == (
                        match aim {
                            Some(a) => (BulletSpawnInfo {
                                rotation: spec_wrap_angle(a.angle as int) as i64,
                                dir: a.dir,
                                ..info2
                            }),
                            None => info2,
                        }
                    )
                    &&& (*final(world) == World {
                        entities: final(world).entities,
                        camera_pos: final(world).camera_pos,
                        bullet_spawn_info: final(world).bullet_spawn_info,
                        ..*old(world)
                    })
                },
                None => {
                    &&& final(world).entities@ == old(world).entities@
                    &&& final(world).bullet_spawn_info == (
                        match aim {
                            Some(a) => (BulletSpawnInfo {
                                rotation: spec_wrap_angle(a.angle as int) as i64,
                                dir: a.dir,
                                ..old(world).bullet_spawn_info
                            }),
                            None => old(world).bullet_spawn_info,
                        }
                    )
                    &&& (*final(world) == World {
                        entities: final(world).entities,
                        bullet_spawn_info: final(world).bullet_spawn_info,
                        ..*old(world)
                    })
                },
            }
        }),
{
    check_keyboard_input(world, delta, left, right, up, down);
    match aim {
        Some(a) => {
            let ghost mid = *world;
            check_mouse_move_input(world, a);
            proof {
                match old(world).player {
                    Some(p) => {
                        assert(world.entities@ =~= old(world).entities@.update(
                            p as int,
                            aimed_player(
                                walked_player(
                                    old(world).entities@[p as int],
                                    delta,
                                    intent_axis(left, right),
                                    intent_axis(down, up),
                                ),
                                spec_wrap_angle(a.angle as int) as i64,
                            ),
                        ));
                    },
                    None => {},
                }
            }
        },
        None => {},
    }
}

} // verus!
