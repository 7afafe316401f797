use vstd::prelude::*;
use crate::geometry::{Vec2, DIR_ONE, UNIT, spec_move, move_along, vec_add, circles_overlap, circles_collide};
use crate::timer::Timer;
use crate::common::{Entity, World, Attack, HitCollider, entity_wf, parent_ok, live_health_positive, spawn_info_wf, killed, HP_LIMIT};
use crate::timer::DELTA_LIMIT;
use crate::events::{HurtZombieEvent, hurt_world_pos};

verus! {

/// Projectile lifetime, in milliseconds: a bullet that has not hit
/// anything for this long decays.
pub const BULLET_DECAY_MILLIS: u64 = 250;

/// Projectile speed, in world units per second.
pub const BULLET_SPEED: i64 = 1500;

/// Projectile component: the one-shot decay timer and the unit heading
/// vector the bullet flies along.
#[derive(Clone, Copy, PartialEq, Eq, Structural, Debug)]
pub struct Bullet {
    pub decay_timer: Timer,
    pub dir: Vec2,
}

impl Bullet {
    /// A fresh bullet heading along angle zero, with a full decay
    /// timer.
    pub open spec fn spec_default() -> Bullet {
        Bullet {
            decay_timer: Timer {
                duration: BULLET_DECAY_MILLIS,
                elapsed: 0,
                repeating: false,
                fired: false,
            },
            dir: Vec2 { x: DIR_ONE, y: 0 },
        }
    }
}

impl Default for Bullet {
    fn default() -> (r: Bullet)
        ensures
            r == Bullet::spec_default(),
    {
        Bullet {
            decay_timer: Timer::from_millis(BULLET_DECAY_MILLIS, false),
            dir: Vec2 { x: DIR_ONE, y: 0 },
        }
    }
}

/// Where and with which aim the next projectile spawns: tracks the
/// player's position and pointer aim.
#[derive(Clone, Copy, PartialEq, Eq, Structural, Debug)]
pub struct BulletSpawnInfo {
    pub pos: Vec2,
    pub rotation: i64,
    pub dir: Vec2,
}

impl BulletSpawnInfo {
    /// At the origin, aiming along angle zero.
    pub open spec fn spec_default() -> BulletSpawnInfo {
        BulletSpawnInfo { pos: Vec2 { x: 0, y: 0 }, rotation: 0, dir: Vec2 { x: DIR_ONE, y: 0 } }
    }
}

impl Default for BulletSpawnInfo {
    fn default() -> (r: BulletSpawnInfo)
        ensures
            r == BulletSpawnInfo::spec_default(),
    {
        BulletSpawnInfo { pos: Vec2 { x: 0, y: 0 }, rotation: 0, dir: Vec2 { x: DIR_ONE, y: 0 } }
    }
}

/// Damage dealt by one projectile hit.
pub const BULLET_DAMAGE: i64 = 10;

/// Radius of a projectile's hit zone, in position steps.
pub const BULLET_HIT_RADIUS: i64 = 8 * UNIT;

/// A projectile as spawned from a spawn transform: a full decay timer,
/// the aim heading, and a hit zone around its center.
pub open spec fn bullet_entity(info: BulletSpawnInfo) -> Entity {
    Entity {
        rotation: info.rotation,
        bullet: Some(
            Bullet {
                decay_timer: Timer {
                    duration: BULLET_DECAY_MILLIS,
                    elapsed: 0,
                    repeating: false,
                    fired: false,
                },
                dir: info.dir,
            },
        ),
        hit: Some(HitCollider { radius: BULLET_HIT_RADIUS, offset: Vec2 { x: 0, y: 0 } }),
        attack: Some(Attack { damage: BULLET_DAMAGE }),
        ..Entity::spec_blank(info.pos)
    }
}

/// A projectile's sprite child, destroyed with its parent.
pub open spec fn bullet_child_entity(pos: Vec2, id: usize) -> Entity {
    Entity { parent: Some(id), ..Entity::spec_blank(pos) }
}

/// Spawn a projectile at the given spawn transform, together with its
/// sprite child.
pub fn spawn_bullet(world: &mut World, info: BulletSpawnInfo) -> (id: usize)
    requires
        old(world).wf(),
        spawn_info_wf(info),
    ensures
        final(world).wf(),
        id == old(world).entities@.len(),
        final(world).entities@ == old(world).entities@
            .push(bullet_entity(info))
            .push(bullet_child_entity(info.pos, id)),
        (*final(world) == World { entities: final(world).entities, ..*old(world) }),
{
    let id = world.entities.len();
    let mut body = Entity::blank(info.pos);
    body.rotation = info.rotation;
    body.bullet = Some(
        Bullet { decay_timer: Timer::from_millis(BULLET_DECAY_MILLIS, false), dir: info.dir },
    );
    body.hit = Some(HitCollider { radius: BULLET_HIT_RADIUS, offset: Vec2 { x: 0, y: 0 } });
    body.attack = Some(Attack { damage: BULLET_DAMAGE });
    world.entities.push(body);
    let mut sprite = Entity::blank(info.pos);
    sprite.parent = Some(id);
    world.entities.push(sprite);
    proof {
        assert forall|i: int| 0 <= i < world.entities@.len()
            implies entity_wf(#[trigger] world.entities@[i])
                && parent_ok(world.entities@, i)
                && live_health_positive(world.entities@[i]) by {
            if i < old(world).entities@.len() {
                assert(entity_wf(old(world).entities@[i]));
                assert(parent_ok(old(world).entities@, i));
                assert(live_health_positive(old(world).entities@[i]));
            }
        }
    }
    id
}

/// The entity after one projectile motion tick: a live projectile
/// advances by `dir * BULLET_SPEED * delta`, everything else stands.
pub open spec fn bullet_moved(e: Entity, delta: u64) -> Entity {
    match e.bullet {
        Some(b) => if e.alive {
            Entity { pos: spec_move(e.pos, b.dir, BULLET_SPEED, delta), ..e }
        } else {
            e
        },
        None => e,
    }
}

/// Translate every live projectile along its fixed heading at constant
/// speed.
#[verifier::loop_isolation(false)]
pub fn bullet_movement(world: &mut World, delta: u64)
    requires
        old(world).wf(),
        delta <= DELTA_LIMIT,
    ensures
        final(world).wf(),
        final(world).entities@.len() == old(world).entities@.len(),
        forall|i: int|
            0 <= i < old(world).entities@.len()
                ==> final(world).entities@[i] == bullet_moved(
                    #[trigger] old(world).entities@[i],
                    delta,
                ),
        (*final(world) == World { entities: final(world).entities, ..*old(world) }),
{
    let n = world.entities.len();
    for i in 0..n
        invariant
            n == world.entities@.len(),
            (*world == World { entities: world.entities, ..*old(world) }),
            forall|j: int|
                0 <= j < n ==> #[trigger] world.entities@[j] == (
                    if j < i {
                        bullet_moved(old(world).entities@[j], delta)
                    } else {
                        old(world).entities@[j]
                    }
                ),
    {
        let e = world.entities[i];
        if e.alive {
            match e.bullet {
                Some(b) => {
                    let mut moved = e;
                    moved.pos = move_along(e.pos, b.dir, BULLET_SPEED, delta);
                    world.entities[i] = moved;
                },
                None => {},
            }
        }
    }
    proof {
        assert forall|i: int| 0 <= i < world.entities@.len()
            implies entity_wf(#[trigger] world.entities@[i])
                && parent_ok(world.entities@, i)
                && live_health_positive(world.entities@[i]) by {
            assert(entity_wf(old(world).entities@[i]));
            assert(parent_ok(old(world).entities@, i));
            assert(live_health_positive(old(world).entities@[i]));
        }
    }
}

/// The entity after its decay timer (if it is a live projectile) has
/// advanced by `delta`.
pub open spec fn decay_ticked(e: Entity, delta: u64) -> Entity {
    match e.bullet {
        Some(b) => if e.alive {
            Entity {
                bullet: Some(Bullet { decay_timer: b.decay_timer.spec_tick(delta), ..b }),
                ..e
            }
        } else {
            e
        },
        None => e,
    }
}

/// Whether entity `i` is removed by this decay tick: it is a live
/// projectile whose ticked decay timer finished, or a transitive child
/// of one.
pub open spec fn decay_doomed(s: Seq<Entity>, i: int, delta: u64) -> bool
    decreases i,
{
    let expired = s[i].alive && match s[i].bullet {
        Some(b) => b.decay_timer.spec_tick(delta).spec_finished(),
        None => false,
    };
    expired || match s[i].parent {
        Some(p) => (p as int) < i && decay_doomed(s, p as int, delta),
        None => false,
    }
}

/// Advance every live projectile's decay timer; a projectile whose
/// lifetime ran out is removed, with its children, without dealing any
/// damage.
#[verifier::loop_isolation(false)]
pub fn bullet_decay(world: &mut World, delta: u64)
    requires
        old(world).wf(),
        delta <= DELTA_LIMIT,
    ensures
        final(world).wf(),
        final(world).entities@.len() == old(world).entities@.len(),
        forall|i: int|
            0 <= i < old(world).entities@.len()
                ==> final(world).entities@[i] == (
                    if decay_doomed(old(world).entities@, i, delta) {
                        killed(decay_ticked(#[trigger] old(world).entities@[i], delta))
                    } else {
                        decay_ticked(old(world).entities@[i], delta)
                    }
                ),
        (*final(world) == World { entities: final(world).entities, ..*old(world) }),
{
    let n = world.entities.len();
    let mut doomed: Vec<bool> = Vec::new();
    for i in 0..n
        invariant
            n == world.entities@.len(),
            (*world == World { entities: world.entities, ..*old(world) }),
            doomed@.len() == i,
            forall|j: int|
                0 <= j < i ==> doomed@[j] == decay_doomed(old(world).entities@, j, delta),
            forall|j: int|
                0 <= j < n ==> #[trigger] world.entities@[j] == (
                    if j < i {
                        if decay_doomed(old(world).entities@, j, delta) {
                            killed(decay_ticked(old(world).entities@[j], delta))
                        } else {
                            decay_ticked(old(world).entities@[j], delta)
                        }
                    } else {
                        old(world).entities@[j]
                    }
                ),
    {
        let e = world.entities[i];
        let mut next = e;
        let mut expired = false;
        if e.alive {
            match e.bullet {
                Some(b) => {
                    let mut timer = b.decay_timer;
                    timer.tick(delta);
                    expired = timer.finished();
                    next.bullet = Some(Bullet { decay_timer: timer, ..b });
                },
                None => {},
            }
        }
        let from_parent = match e.parent {
            Some(p) => {
                proof {
                    assert(parent_ok(old(world).entities@, i as int));
                }
                doomed[p]
            },
            None => false,
        };
        let dm = expired || from_parent;
        if dm {
            next.alive = false;
        }
        doomed.push(dm);
        world.entities[i] = next;
    }
    proof {
        assert forall|i: int| 0 <= i < world.entities@.len()
            implies entity_wf(#[trigger] world.entities@[i])
                && parent_ok(world.entities@, i)
                && live_health_positive(world.entities@[i]) by {
            assert(entity_wf(old(world).entities@[i]));
            assert(parent_ok(old(world).entities@, i));
            assert(live_health_positive(old(world).entities@[i]));
        }
    }
}

/// Whether entity `b` is a live, armed projectile: it flies, deals
/// damage and has a hit zone.
pub open spec fn is_armed_bullet(e: Entity) -> bool {
    &&& e.alive
    &&& e.bullet is Some
    &&& e.hit is Some
    &&& e.attack is Some
}

/// World-space center of a projectile's hit zone.
pub open spec fn bullet_hit_pos(e: Entity) -> Vec2 {
    vec_add(e.pos, e.hit->Some_0.offset)
}

/// Whether a projectile's hit zone overlaps a target's hurt zone; a
/// despawned or hurt-zone-less target never matches.
pub open spec fn bullet_overlaps(b: Entity, t: Entity) -> bool {
    &&& t.alive
    &&& t.hurt is Some
    &&& circles_overlap(
        b.hit->Some_0.radius as int,
        bullet_hit_pos(b),
        t.hurt->Some_0.radius as int,
        hurt_world_pos(t),
    )
}

/// The damage requests projectile `b` emits against the first `m`
/// entities, in index order: one per overlapped live target.
pub open spec fn bullet_requests_for(s: Seq<Entity>, b: int, m: int) -> Seq<HurtZombieEvent>
    decreases m,
{
    if m <= 0 {
        Seq::empty()
    } else {
        let pre = bullet_requests_for(s, b, m - 1);
        if bullet_overlaps(s[b], s[m - 1]) {
            pre.push(
                HurtZombieEvent { entity: (m - 1) as usize, damage: s[b].attack->Some_0.damage },
            )
        } else {
            pre
        }
    }
}

/// All damage requests this collision tick emits, scanning the first
/// `n` slots for armed projectiles in index order.
pub open spec fn all_bullet_requests(s: Seq<Entity>, n: int) -> Seq<HurtZombieEvent>
    decreases n,
{
    if n <= 0 {
        Seq::empty()
    } else {
        all_bullet_requests(s, n - 1) + (
        if is_armed_bullet(s[n - 1]) {
            bullet_requests_for(s, n - 1, s.len() as int)
        } else {
            Seq::empty()
        })
    }
}

/// Whether entity `i` is removed by this collision tick: it is an
/// armed projectile that overlapped at least one target, or a
/// transitive child of one.
pub open spec fn collision_doomed(s: Seq<Entity>, i: int) -> bool
    decreases i,
{
    (is_armed_bullet(s[i]) && bullet_requests_for(s, i, s.len() as int).len() > 0) || match s[i]
        .parent {
        Some(p) => (p as int) < i && collision_doomed(s, p as int),
        None => false,
    }
}

/// Projectile-versus-target collision: every live, armed projectile is
/// tested against every live hurt-zone-bearing entity; one damage
/// request is emitted per overlapped target, and a projectile that hit
/// anything is removed (with its children) on this same first tick of
/// contact, so it can never damage across several ticks.  All overlap
/// tests read the arena as it stood at the start of the tick.
#[verifier::loop_isolation(false)]
pub fn check_bullet_collisions(world: &mut World)
    requires
        old(world).wf(),
    ensures
        final(world).wf(),
        final(world).entities@.len() == old(world).entities@.len(),
        forall|i: int|
            0 <= i < old(world).entities@.len()
                ==> final(world).entities@[i] == (
                    if collision_doomed(old(world).entities@, i) {
                        killed(#[trigger] old(world).entities@[i])
                    } else {
                        old(world).entities@[i]
                    }
                ),
        final(world).hurt_zombie_events@ == old(world).hurt_zombie_events@
            + all_bullet_requests(old(world).entities@, old(world).entities@.len() as int),
        (*final(world) == World {
            entities: final(world).entities,
            hurt_zombie_events: final(world).hurt_zombie_events,
            ..*old(world)
        }),
{
    let n = world.entities.len();
    let mut hits: Vec<bool> = Vec::new();
    for b in 0..n
        invariant
            n == world.entities@.len(),
            (*world == World {
                hurt_zombie_events: world.hurt_zombie_events,
                ..*old(world)
            }),
            world.entities@ == old(world).entities@,
            hits@.len() == b,
            forall|j: int|
                0 <= j < b ==> hits@[j] == (is_armed_bullet(old(world).entities@[j])
                    && bullet_requests_for(old(world).entities@, j, n as int).len() > 0),
            forall|i: int|
                0 <= i < world.hurt_zombie_events@.len()
                    ==> 0 <= (#[trigger] world.hurt_zombie_events@[i]).damage <= HP_LIMIT,
            world.hurt_zombie_events@ == old(world).hurt_zombie_events@
                + all_bullet_requests(old(world).entities@, b as int),
    {
        let e = world.entities[b];
        let mut hit_any = false;
        if e.alive {
            match (e.bullet, e.hit, e.attack) {
                (Some(_), Some(collider), Some(attack)) => {
                    let hit_pos = Vec2 {
                        x: e.pos.x + collider.offset.x,
                        y: e.pos.y + collider.offset.y,
                    };
                    for z in 0..n
                        invariant
                            n == world.entities@.len(),
                            (*world == World {
                                hurt_zombie_events: world.hurt_zombie_events,
                                ..*old(world)
                            }),
                            world.entities@ == old(world).entities@,
                            b < n,
                            e == old(world).entities@[b as int],
                            is_armed_bullet(e),
                            collider == e.hit->Some_0,
                            attack == e.attack->Some_0,
                            hit_pos == bullet_hit_pos(e),
                            hit_any == (bullet_requests_for(
                                old(world).entities@,
                                b as int,
                                z as int,
                            ).len() > 0),
                            forall|i: int|
                                0 <= i < world.hurt_zombie_events@.len()
                                    ==> 0 <= (#[trigger] world.hurt_zombie_events@[i]).damage
                                        <= HP_LIMIT,
                            world.hurt_zombie_events@ == old(world).hurt_zombie_events@
                                + all_bullet_requests(old(world).entities@, b as int)
                                + bullet_requests_for(old(world).entities@, b as int, z as int),
                    {
                        let t = world.entities[z];
                        if t.alive {
                            match t.hurt {
                                Some(zone) => {
                                    let target_pos = Vec2 {
                                        x: t.pos.x + zone.offset.x,
                                        y: t.pos.y + zone.offset.y,
                                    };
                                    if circles_collide(
                                        collider.radius,
                                        hit_pos,
                                        zone.radius,
                                        target_pos,
                                    ) {
                                        world.hurt_zombie_events.push(
                                            HurtZombieEvent { entity: z, damage: attack.damage },
                                        );
                                        hit_any = true;
                                    }
                                },
                                None => {},
                            }
                        }
                    }
                },
                _ => {},
            }
        }
        hits.push(hit_any);
    }
    let mut doomed: Vec<bool> = Vec::new();
    for i in 0..n
        invariant
            n == world.entities@.len(),
            (*world == World {
                entities: world.entities,
                hurt_zombie_events: world.hurt_zombie_events,
                ..*old(world)
            }),
            world.hurt_zombie_events@ == old(world).hurt_zombie_events@
                + all_bullet_requests(old(world).entities@, n as int),
            forall|i2: int|
                0 <= i2 < world.hurt_zombie_events@.len()
                    ==> 0 <= (#[trigger] world.hurt_zombie_events@[i2]).damage <= HP_LIMIT,
            hits@.len() == n,
            forall|j: int|
                0 <= j < n ==> hits@[j] == (is_armed_bullet(old(world).entities@[j])
                    && bullet_requests_for(old(world).entities@, j, n as int).len() > 0),
            doomed@.len() == i,
            forall|j: int|
                0 <= j < i ==> doomed@[j] == collision_doomed(old(world).entities@, j),
            forall|j: int|
                0 <= j < n ==> #[trigger] world.entities@[j] == (
                    if j < i && collision_doomed(old(world).entities@, j) {
                        killed(old(world).entities@[j])
                    } else {
                        old(world).entities@[j]
                    }
                ),
    {
        let from_parent = match world.entities[i].parent {
            Some(p) => {
                proof {
                    assert(parent_ok(old(world).entities@, i as int));
                }
                doomed[p]
            },
            None => false,
        };
        let dm = hits[i] || from_parent;
        doomed.push(dm);
        if dm {
            let mut e = world.entities[i];
            e.alive = false;
            world.entities[i] = e;
        }
    }
    proof {
        assert forall|i: int| 0 <= i < world.entities@.len()
            implies entity_wf(#[trigger] world.entities@[i])
                && parent_ok(world.entities@, i)
                && live_health_positive(world.entities@[i]) by {
            assert(entity_wf(old(world).entities@[i]));
            assert(parent_ok(old(world).entities@, i));
            assert(live_health_positive(old(world).entities@[i]));
        }
    }
}

} // verus!
