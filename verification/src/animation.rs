use vstd::prelude::*;
use crate::common::{Entity, World, entity_wf, parent_ok, live_health_positive};
use crate::timer::DELTA_LIMIT;

verus! {

/// Number of walk frames per facing direction.
pub const PLAYER_ANIM_FRAME_COUNT: u32 = 6;

/// Number of discrete facing directions (octants).
pub const PLAYER_ANIM_DIR_COUNT: u32 = 8;

/// Per-entity animation state: the facing octant, the current walk
/// frame and whether the entity is walking.  The rendered sprite index
/// (`frame + dir_offset * PLAYER_ANIM_FRAME_COUNT`) is the host's
/// concern; only this triple is simulated here.
#[derive(Clone, Copy, PartialEq, Eq, Structural, Debug)]
pub struct AnimationState {
    /// Facing octant, in `0..PLAYER_ANIM_DIR_COUNT`.
    pub dir_offset: u32,
    /// Walk frame, in `0..PLAYER_ANIM_FRAME_COUNT`.
    pub frame: u32,
    pub is_walking: bool,
}

/// The entity after one animation tick: a live player's frame timer
/// advances; on the tick it finishes, a walking player steps to the
/// next frame modulo the frame count, a standing player snaps back to
/// frame zero.  Everything else stands.
pub open spec fn anim_ticked(e: Entity, delta: u64) -> Entity {
    if e.alive && e.player is Some && e.anim is Some && e.anim_timer is Some {
        let t2 = e.anim_timer->Some_0.spec_tick(delta);
        let a = e.anim->Some_0;
        let a2 = if t2.spec_finished() {
            if a.is_walking {
                AnimationState { frame: ((a.frame + 1) % (PLAYER_ANIM_FRAME_COUNT as int)) as u32, ..a }
            } else {
                AnimationState { frame: 0, ..a }
            }
        } else {
            a
        };
        Entity { anim: Some(a2), anim_timer: Some(t2), ..e }
    } else {
        e
    }
}

/// Advance every live player's frame timer by `delta` and step its
/// walk animation on the timer's finishing ticks.
#[verifier::loop_isolation(false)]
pub fn animate_player(world: &mut World, delta: u64)
    requires
        old(world).wf(),
        delta <= DELTA_LIMIT,
    ensures
        final(world).wf(),
        final(world).entities@.len() == old(world).entities@.len(),
        forall|i: int|
            0 <= i < old(world).entities@.len()
                ==> final(world).entities@[i] == anim_ticked(
                    #[trigger] old(world).entities@[i],
                    delta,
                ),
        (*final(world) == World { entities: final(world).entities, ..*old(world) }),
{
    let n = world.entities.len();
    for i in 0..n
        invariant
            n == world.entities@.len(),
            (*world == World { entities: world.entities, ..*old(world) }),
            forall|j: int|
                0 <= j < n ==> #[trigger] world.entities@[j] == (
                    if j < i {
                        anim_ticked(old(world).entities@[j], delta)
                    } else {
                        old(world).entities@[j]
                    }
                ),
    {
        let e = world.entities[i];
        if e.alive && e.player.is_some() {
            match (e.anim, e.anim_timer) {
                (Some(a), Some(t)) => {
                    let mut timer = t;
                    timer.tick(delta);
                    let mut e2 = e;
                    e2.anim_timer = Some(timer);
                    if timer.finished() {
                        if a.is_walking {
                            e2.anim = Some(
                                AnimationState {
                                    frame: (a.frame + 1) % PLAYER_ANIM_FRAME_COUNT,
                                    ..a
                                },
                            );
                        } else {
                            e2.anim = Some(AnimationState { frame: 0, ..a });
                        }
                    }
                    world.entities[i] = e2;
                },
                _ => {},
            }
        }
    }
    proof {
        assert forall|i: int| 0 <= i < world.entities@.len()
            implies entity_wf(#[trigger] world.entities@[i])
                && parent_ok(world.entities@, i)
                && live_health_positive(world.entities@[i]) by {
            assert(entity_wf(old(world).entities@[i]));
            assert(parent_ok(old(world).entities@, i));
            assert(live_health_positive(old(world).entities@[i]));
        }
    }
}

} // verus!
