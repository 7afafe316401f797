use vstd::prelude::*;
use crate::geometry::{Vec2, circles_overlap, circles_collide, vec_add};
use crate::common::{
    Entity, World, Health, entity_wf, parent_ok, live_health_positive, kill_descendants,
    despawn_recursive, HP_LIMIT,
};
use crate::bullet::{BulletSpawnInfo, bullet_entity, bullet_child_entity, spawn_bullet};

verus! {

/// Request to spawn a projectile, carrying the spawn transform: the
/// requester's position and aim (angle plus matching unit direction).
#[derive(Clone, Copy, PartialEq, Eq, Structural, Debug)]
pub struct ShootEvent {
    pub pos: Vec2,
    pub rotation: i64,
    pub dir: Vec2,
}

/// Request for a player melee strike.
#[derive(Clone, Copy, PartialEq, Eq, Structural, Debug)]
pub struct PlayerMeleeEvent;

/// Request to damage one entity.  Stale targets (despawned or
/// out-of-range handles) are dropped silently when the queue drains.
#[derive(Clone, Copy, PartialEq, Eq, Structural, Debug)]
pub struct HurtZombieEvent {
    pub entity: usize,
    pub damage: i64,
}

/// Drain the shoot queue, collapsing to the latest request of the
/// tick: if any request is queued, spawn one projectile from the
/// newest one and clear the queue.  Returns whether a shot was
/// accepted, so the host can play the gunshot sound exactly once per
/// accepted request.
pub fn handle_shoot_events(world: &mut World) -> (shot: bool)
    requires
        old(world).wf(),
    ensures
        final(world).wf(),
        shot == (old(world).shoot_events@.len() > 0),
        old(world).shoot_events@.len() == 0 ==> *final(world) == *old(world),
        old(world).shoot_events@.len() > 0 ==> {
            let ev = old(world).shoot_events@.last();
            let info = BulletSpawnInfo { pos: ev.pos, rotation: ev.rotation, dir: ev.dir };
            &&& final(world).entities@ == old(world).entities@
                .push(bullet_entity(info))
                .push(bullet_child_entity(ev.pos, old(world).entities@.len() as usize))
            &&& final(world).shoot_events@.len() == 0
            &&& (*final(world) == World {
                entities: final(world).entities,
                shoot_events: final(world).shoot_events,
                ..*old(world)
            })
        },
{
    let len = world.shoot_events.len();
    if len > 0 {
        let ev = world.shoot_events[len - 1];
        world.shoot_events.clear();
        let info = BulletSpawnInfo { pos: ev.pos, rotation: ev.rotation, dir: ev.dir };
        spawn_bullet(world, info);
        true
    } else {
        false
    }
}

/// World-space center of an entity's hurt zone.
pub open spec fn hurt_world_pos(e: Entity) -> Vec2 {
    vec_add(e.pos, e.hurt->Some_0.offset)
}

/// The damage requests a melee strike with the given world-space hit
/// zone emits against the first `n` entities, in index order: one per
/// live hurt-zone-bearing entity whose zone overlaps the strike.
pub open spec fn melee_requests(
    s: Seq<Entity>,
    hit_pos: Vec2,
    hit_radius: i64,
    damage: i64,
    n: int,
) -> Seq<HurtZombieEvent>
    decreases n,
{
    if n <= 0 {
        Seq::empty()
    } else {
        let pre = melee_requests(s, hit_pos, hit_radius, damage, n - 1);
        let e = s[n - 1];
        if e.alive && e.hurt is Some && circles_overlap(
            hit_radius as int,
            hit_pos,
            e.hurt->Some_0.radius as int,
            hurt_world_pos(e),
        ) {
            pre.push(HurtZombieEvent { entity: (n - 1) as usize, damage })
        } else {
            pre
        }
    }
}

/// Drain the melee queue, collapsing to the latest request of the
/// tick.  If a request is queued and the player's melee hit collider
/// exists, its world-space zone (owner position plus collider offset)
/// is tested against every live hurt-zone-bearing entity, and one
/// damage request is emitted per overlap.  The melee source is never
/// removed by this check.
#[verifier::loop_isolation(false)]
pub fn handle_player_melee_events(world: &mut World)
    requires
        old(world).wf(),
    ensures
        final(world).wf(),
        old(world).melee_events@.len() == 0 ==> *final(world) == *old(world),
        old(world).melee_events@.len() > 0 ==> {
            &&& final(world).melee_events@.len() == 0
            &&& final(world).hurt_zombie_events@ == (
                match old(world).player_hit_collider {
                    Some(h) => {
                        let he = old(world).entities@[h as int];
                        let owner_pos = match he.parent {
                            Some(p) => old(world).entities@[p as int].pos,
                            None => he.pos,
                        };
                        old(world).hurt_zombie_events@ + melee_requests(
                            old(world).entities@,
                            vec_add(owner_pos, he.hit->Some_0.offset),
                            he.hit->Some_0.radius,
                            he.attack->Some_0.damage,
                            old(world).entities@.len() as int,
                        )
                    },
                    None => old(world).hurt_zombie_events@,
                }
            )
            &&& (*final(world) == World {
                melee_events: final(world).melee_events,
                hurt_zombie_events: final(world).hurt_zombie_events,
                ..*old(world)
            })
        },
{
    if world.melee_events.len() == 0 {
        return;
    }
    world.melee_events.clear();
    match world.player_hit_collider {
        None => {},
        Some(h) => {
            let he = world.entities[h];
            let collider = he.hit.unwrap();
            let damage = he.attack.unwrap().damage;
            let owner_pos = match he.parent {
                Some(p) => {
                    proof {
                        assert(parent_ok(world.entities@, h as int));
                    }
                    world.entities[p].pos
                },
                None => he.pos,
            };
            let hit_pos = Vec2 {
                x: owner_pos.x + collider.offset.x,
                y: owner_pos.y + collider.offset.y,
            };
            let n = world.entities.len();
            for z in 0..n
                invariant
                    n == world.entities@.len(),
                    (*world == World {
                        melee_events: world.melee_events,
                        hurt_zombie_events: world.hurt_zombie_events,
                        ..*old(world)
                    }),
                    world.melee_events@.len() == 0,
                    0 <= damage <= HP_LIMIT,
                    forall|i: int|
                        0 <= i < world.hurt_zombie_events@.len()
                            ==> 0 <= (#[trigger] world.hurt_zombie_events@[i]).damage
                                <= HP_LIMIT,
                    world.hurt_zombie_events@ == old(world).hurt_zombie_events@
                        + melee_requests(
                        world.entities@,
                        hit_pos,
                        collider.radius,
                        damage,
                        z as int,
                    ),
            {
                let e = world.entities[z];
                if e.alive {
                    match e.hurt {
                        Some(zone) => {
                            let target_pos = Vec2 {
                                x: e.pos.x + zone.offset.x,
                                y: e.pos.y + zone.offset.y,
                            };
                            if circles_collide(collider.radius, hit_pos, zone.radius, target_pos) {
                                world.hurt_zombie_events.push(
                                    HurtZombieEvent { entity: z, damage },
                                );
                            }
                        },
                        None => {},
                    }
                }
            }
        },
    }
}

/// The arena after resolving one damage request: a request whose
/// target is out of range, despawned, or without health is dropped;
/// otherwise the amount is subtracted, and a target at or below zero
/// points is recursively despawned.
pub open spec fn apply_damage_step(s: Seq<Entity>, req: HurtZombieEvent) -> Seq<Entity> {
    if req.entity < s.len() {
        let e = s[req.entity as int];
        if e.alive && e.health is Some {
            let np = e.health->Some_0.points - req.damage;
            let s1 = s.update(
                req.entity as int,
                Entity { health: Some(Health { points: np as i64 }), ..e },
            );
            if np <= 0 {
                kill_descendants(s1, req.entity as int)
            } else {
                s1
            }
        } else {
            s
        }
    } else {
        s
    }
}

/// The arena after resolving a queue of damage requests in order:
/// requests against one target accumulate sequentially, none is lost.
pub open spec fn apply_damage(s: Seq<Entity>, reqs: Seq<HurtZombieEvent>) -> Seq<Entity>
    decreases reqs.len(),
{
    if reqs.len() == 0 {
        s
    } else {
        apply_damage(apply_damage_step(s, reqs[0]), reqs.drop_first())
    }
}

proof fn lemma_apply_damage_push(s: Seq<Entity>, reqs: Seq<HurtZombieEvent>, req: HurtZombieEvent)
    ensures
        apply_damage(s, reqs.push(req)) == apply_damage_step(apply_damage(s, reqs), req),
    decreases reqs.len(),
{
    if reqs.len() == 0 {
        assert(reqs.push(req)[0] == req);
        assert(reqs.push(req).drop_first() =~= Seq::<HurtZombieEvent>::empty());
        assert(apply_damage(s, reqs.push(req)) == apply_damage(
            apply_damage_step(s, req),
            Seq::<HurtZombieEvent>::empty(),
        ));
    } else {
        assert(reqs.push(req)[0] == reqs[0]);
        assert(reqs.push(req).drop_first() =~= reqs.drop_first().push(req));
        assert(apply_damage(s, reqs.push(req)) == apply_damage(
            apply_damage_step(s, reqs[0]),
            reqs.drop_first().push(req),
        ));
        lemma_apply_damage_push(apply_damage_step(s, reqs[0]), reqs.drop_first(), req);
    }
}

/// Drain the damage queue in full, in order: every queued request is
/// applied (damage is never lost when several projectiles hit in the
/// same tick); a target brought to zero or less is despawned,
/// recursively, within the same tick.
#[verifier::loop_isolation(false)]
pub fn handle_hurt_zombie_event(world: &mut World)
    requires
        old(world).wf(),
    ensures
        final(world).wf(),
        final(world).entities@ == apply_damage(
            old(world).entities@,
            old(world).hurt_zombie_events@,
        ),
        final(world).hurt_zombie_events@.len() == 0,
        (*final(world) == World {
            entities: final(world).entities,
            hurt_zombie_events: final(world).hurt_zombie_events,
            ..*old(world)
        }),
{
    let m = world.hurt_zombie_events.len();
    for k in 0..m
        invariant
            m == world.hurt_zombie_events@.len(),
            world.hurt_zombie_events@ == old(world).hurt_zombie_events@,
            world.entities@ == apply_damage(
                old(world).entities@,
                old(world).hurt_zombie_events@.take(k as int),
            ),
            world.structure_wf(),
            world.health_wf(),
            (*world == World { entities: world.entities, ..*old(world) }),
    {
        let req = world.hurt_zombie_events[k];
        proof {
            lemma_apply_damage_push(
                old(world).entities@,
                old(world).hurt_zombie_events@.take(k as int),
                req,
            );
            assert(old(world).hurt_zombie_events@.take(k + 1 as int)
                =~= old(world).hurt_zombie_events@.take(k as int).push(req));
        }
        if req.entity < world.entities.len() {
            let e = world.entities[req.entity];
            if e.alive {
                match e.health {
                    Some(h) => {
                        let np = h.points - req.damage;
                        let mut e2 = e;
                        e2.health = Some(Health { points: np });
                        world.entities[req.entity] = e2;
                        proof {
                            assert forall|i: int| 0 <= i < world.entities@.len()
                                implies entity_wf(#[trigger] world.entities@[i])
                                    && parent_ok(world.entities@, i) by {
                                let pre = apply_damage(
                                    old(world).entities@,
                                    old(world).hurt_zombie_events@.take(k as int),
                                );
                                assert(entity_wf(pre[i]));
                                assert(world.entities@[i].parent == pre[i].parent);
                                assert(parent_ok(pre, i));
                            }
                        }
                        if np <= 0 {
                            despawn_recursive(world, req.entity);
                        } else {
                            proof {
                                let pre = apply_damage(
                                    old(world).entities@,
                                    old(world).hurt_zombie_events@.take(k as int),
                                );
                                assert forall|i: int| 0 <= i < world.entities@.len()
                                    implies live_health_positive(
                                        #[trigger] world.entities@[i],
                                    ) by {
                                    assert(live_health_positive(pre[i]));
                                }
                            }
                        }
                    },
                    None => {},
                }
            }
        }
        proof {
            assert forall|i: int| 0 <= i < world.entities@.len()
                implies live_health_positive(#[trigger] world.entities@[i]) by {}
        }
    }
    proof {
        assert(old(world).hurt_zombie_events@.take(m as int) =~= old(world).hurt_zombie_events@);
    }
    world.hurt_zombie_events.clear();
}

/// Damage against a stale handle is dropped: resolving a request whose
/// target handle is out of range or already despawned leaves the arena
/// unchanged, however many times the request is repeated.  Handles are
/// slots that are never reused (despawning only clears `alive`), so a
/// stale request can never reach a recycled entity and double-subtract.
pub proof fn lemma_stale_damage_dropped(s: Seq<Entity>, req: HurtZombieEvent)
    requires
        req.entity >= s.len() || !s[req.entity as int].alive,
    ensures
        apply_damage_step(s, req) == s,
        apply_damage(s, seq![req, req]) == s,
{
    assert(apply_damage_step(s, req) == s);
    assert(seq![req, req][0] == req);
    assert(seq![req, req].drop_first() =~= seq![req]);
    assert(apply_damage(s, seq![req, req]) == apply_damage(s, seq![req]));
    assert(seq![req][0] == req);
    assert(seq![req].drop_first() =~= Seq::<HurtZombieEvent>::empty());
    assert(apply_damage(s, seq![req]) == apply_damage(s, Seq::<HurtZombieEvent>::empty()));
}

} // verus!
