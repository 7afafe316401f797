use vstd::prelude::*;
use crate::geometry::{Vec2, UNIT};
use crate::timer::Timer;
use crate::animation::AnimationState;
use crate::common::{Entity, World, Attack, HitCollider};

verus! {

/// Player walk speed, in world units per second.
pub const PLAYER_SPEED: i64 = 200;

/// Period of the player's animation frame timer, in milliseconds.
pub const PLAYER_ANIM_FRAME_MILLIS: u64 = 80;

/// Radius of the player's melee hit zone, in position steps.
pub const PLAYER_MELEE_RADIUS: i64 = 16 * UNIT;

/// Forward offset of the melee hit zone from the player.
pub const PLAYER_MELEE_OFFSET_X: i64 = 32 * UNIT;

/// Damage of one melee strike.
pub const PLAYER_MELEE_DAMAGE: i64 = 30;

/// Marker component of the single player entity.
#[derive(Clone, Copy, PartialEq, Eq, Structural, Debug)]
pub struct Player;

/// Marker component of the player's melee hit-collider child entity.
#[derive(Clone, Copy, PartialEq, Eq, Structural, Debug)]
pub struct PlayerHitCollider;

/// The player entity as spawned: at the origin, facing octant 6
/// (angle zero), standing still, with a fresh frame timer.
pub open spec fn player_entity() -> Entity {
    Entity {
        player: Some(Player),
        anim: Some(AnimationState { dir_offset: 6, frame: 0, is_walking: false }),
        anim_timer: Some(
            Timer {
                duration: PLAYER_ANIM_FRAME_MILLIS,
                elapsed: 0,
                repeating: true,
                fired: false,
            },
        ),
        ..Entity::spec_blank(Vec2 { x: 0, y: 0 })
    }
}

/// The player's melee hit-collider child: a hit zone held ahead of the
/// player, able to deal melee damage.
pub open spec fn player_melee_entity(id: usize) -> Entity {
    Entity {
        parent: Some(id),
        player_hit: Some(PlayerHitCollider),
        hit: Some(
            HitCollider {
                radius: PLAYER_MELEE_RADIUS,
                offset: Vec2 { x: PLAYER_MELEE_OFFSET_X, y: 0 },
            },
        ),
        attack: Some(Attack { damage: PLAYER_MELEE_DAMAGE }),
        ..Entity::spec_blank(Vec2 { x: 0, y: 0 })
    }
}

/// Spawn the single player and its melee hit-collider child, and
/// record both singleton handles.  If a player already exists the
/// world is left unchanged and the existing handle is returned.
pub fn spawn_player(world: &mut World) -> (id: usize)
    requires
        old(world).wf(),
    ensures
        final(world).wf(),
        old(world).player is Some ==> *final(world) == *old(world)
            && id == old(world).player->Some_0,
        old(world).player is None ==> {
            &&& id == old(world).entities@.len()
            &&& final(world).entities@ == old(world).entities@
                .push(player_entity())
                .push(player_melee_entity(id))
            &&& final(world).player == Some(id)
            &&& final(world).player_hit_collider is Some
            &&& final(world).player_hit_collider->Some_0 == id + 1
            &&& (*final(world) == World {
                entities: final(world).entities,
                player: final(world).player,
                player_hit_collider: final(world).player_hit_collider,
                ..*old(world)
            })
        },
{
    match world.player {
        Some(existing) => existing,
        None => {
            let id = world.entities.len();
            let mut body = Entity::blank(Vec2 { x: 0, y: 0 });
            body.player = Some(Player);
            body.anim = Some(AnimationState { dir_offset: 6, frame: 0, is_walking: false });
            body.anim_timer = Some(Timer::from_millis(PLAYER_ANIM_FRAME_MILLIS, true));
            world.entities.push(body);
            let mut melee = Entity::blank(Vec2 { x: 0, y: 0 });
            melee.parent = Some(id);
            melee.player_hit = Some(PlayerHitCollider);
            melee.hit = Some(
                HitCollider {
                    radius: PLAYER_MELEE_RADIUS,
                    offset: Vec2 { x: PLAYER_MELEE_OFFSET_X, y: 0 },
                },
            );
            melee.attack = Some(Attack { damage: PLAYER_MELEE_DAMAGE });
            let hid = world.entities.len();
            world.entities.push(melee);
            world.player = Some(id);
            world.player_hit_collider = Some(hid);
            proof {
                assert forall|i: int| 0 <= i < world.entities@.len()
                    implies crate::common::entity_wf(#[trigger] world.entities@[i])
                        && crate::common::parent_ok(world.entities@, i)
                        && crate::common::live_health_positive(world.entities@[i]) by {
                    if i < old(world).entities@.len() {
                        assert(crate::common::entity_wf(old(world).entities@[i]));
                        assert(crate::common::parent_ok(old(world).entities@, i));
                        assert(crate::common::live_health_positive(old(world).entities@[i]));
                    }
                }
            }
            id
        },
    }
}

} // verus!
