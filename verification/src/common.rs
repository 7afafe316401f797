use vstd::prelude::*;
use crate::geometry::{Vec2, in_bounds, dir_in_bounds, POS_LIMIT};
use crate::angle::angle_in_domain;
use crate::timer::Timer;
use crate::animation::{AnimationState, PLAYER_ANIM_FRAME_COUNT, PLAYER_ANIM_DIR_COUNT};
use crate::bullet::{Bullet, BulletSpawnInfo};
use crate::zombie::{Zombie, ZombieTimer};
use crate::player::{Player, PlayerHitCollider};
use crate::events::{ShootEvent, PlayerMeleeEvent, HurtZombieEvent};

verus! {

/// Health points and damage amounts are kept within this bound so that
/// one subtraction can never overflow.
pub const HP_LIMIT: i64 = 0x100_0000_0000;

/// Health of anything that can die.  While its owner is alive the
/// points are positive; an owner whose points reach zero or less is
/// despawned within the same tick.
#[derive(Clone, Copy, PartialEq, Eq, Structural, Debug)]
pub struct Health {
    pub points: i64,
}

/// Damage dealt by anything that can attack.
#[derive(Clone, Copy, PartialEq, Eq, Structural, Debug)]
pub struct Attack {
    pub damage: i64,
}

/// The circular area an entity deals damage with; the offset is
/// relative to the owner's position.
#[derive(Clone, Copy, PartialEq, Eq, Structural, Debug)]
pub struct HitCollider {
    pub radius: i64,
    pub offset: Vec2,
}

/// The circular area an entity receives damage in; the offset is
/// relative to the owner's position.
#[derive(Clone, Copy, PartialEq, Eq, Structural, Debug)]
pub struct HurtCollider {
    pub radius: i64,
    pub offset: Vec2,
}

pub open spec fn radius_in_bounds(r: i64) -> bool {
    -POS_LIMIT <= r <= POS_LIMIT
}

/// One simulated game object: a slot in the arena together with the
/// components it carries.  A slot is never reused: despawning only
/// clears `alive`, so stale handles stay invalid for good.
#[derive(Clone, Copy, PartialEq, Eq, Debug)]
pub struct Entity {
    pub alive: bool,
    /// Owning parent; children are destroyed with their parent.  A
    /// parent always sits at a smaller index, since it was spawned
    /// first.
    pub parent: Option<usize>,
    pub pos: Vec2,
    /// Facing, as a fixed-point angle in `(-pi, pi]`.
    pub rotation: i64,
    pub player: Option<Player>,
    pub player_hit: Option<PlayerHitCollider>,
    pub zombie: Option<Zombie>,
    pub bullet: Option<Bullet>,
    pub health: Option<Health>,
    pub attack: Option<Attack>,
    pub hit: Option<HitCollider>,
    pub hurt: Option<HurtCollider>,
    pub anim: Option<AnimationState>,
    pub anim_timer: Option<Timer>,
}

impl Entity {
    /// A bare alive entity at a position, carrying no components.
    pub open spec fn spec_blank(pos: Vec2) -> Entity {
        Entity {
            alive: true,
            parent: None,
            pos,
            rotation: 0,
            player: None,
            player_hit: None,
            zombie: None,
            bullet: None,
            health: None,
            attack: None,
            hit: None,
            hurt: None,
            anim: None,
            anim_timer: None,
        }
    }

    pub fn blank(pos: Vec2) -> (r: Entity)
        ensures
            r == Entity::spec_blank(pos),
    {
        Entity {
            alive: true,
            parent: None,
            pos,
            rotation: 0,
            player: None,
            player_hit: None,
            zombie: None,
            bullet: None,
            health: None,
            attack: None,
            hit: None,
            hurt: None,
            anim: None,
            anim_timer: None,
        }
    }
}

pub open spec fn entity_wf(e: Entity) -> bool {
    &&& in_bounds(e.pos)
    &&& angle_in_domain(e.rotation)
    &&& match e.zombie {
            Some(z) => angle_in_domain(z.angle) && dir_in_bounds(z.dir),
            None => true,
        }
    &&& match e.bullet {
            Some(b) => b.decay_timer.wf() && !b.decay_timer.repeating && dir_in_bounds(b.dir),
            None => true,
        }
    &&& match e.health {
            Some(h) => -HP_LIMIT <= h.points <= HP_LIMIT,
            None => true,
        }
    &&& match e.attack {
            Some(a) => 0 <= a.damage <= HP_LIMIT,
            None => true,
        }
    &&& match e.hit {
            Some(c) => radius_in_bounds(c.radius) && in_bounds(c.offset),
            None => true,
        }
    &&& match e.hurt {
            Some(c) => radius_in_bounds(c.radius) && in_bounds(c.offset),
            None => true,
        }
    &&& match e.anim {
            Some(a) => a.dir_offset < PLAYER_ANIM_DIR_COUNT && a.frame < PLAYER_ANIM_FRAME_COUNT,
            None => true,
        }
    &&& match e.anim_timer {
            Some(t) => t.wf() && t.repeating,
            None => true,
        }
}

/// A live entity's health, if any, is positive: an entity at or below
/// zero points must already have been despawned.
pub open spec fn live_health_positive(e: Entity) -> bool {
    match e.health {
        Some(h) => e.alive ==> h.points > 0,
        None => true,
    }
}

pub open spec fn parent_ok(s: Seq<Entity>, i: int) -> bool {
    match s[i].parent {
        Some(p) => (p as int) < i,
        None => true,
    }
}

/// Whether entity `i` is entity `t` or a transitive child of it,
/// following the ownership chain.
pub open spec fn descends(s: Seq<Entity>, i: int, t: int) -> bool
    decreases i,
{
    if i == t {
        true
    } else {
        match s[i].parent {
            Some(p) => (p as int) < i && descends(s, p as int, t),
            None => false,
        }
    }
}

pub open spec fn killed(e: Entity) -> Entity {
    Entity { alive: false, ..e }
}

/// The arena after recursively destroying entity `t`: `t` and every
/// transitive child are dead, everything else is untouched.
pub open spec fn kill_descendants(s: Seq<Entity>, t: int) -> Seq<Entity> {
    Seq::new(s.len(), |i: int| if descends(s, i, t) { killed(s[i]) } else { s[i] })
}

/// The whole simulation state for one tick: the entity arena, the
/// validated singleton handles, the camera, the projectile spawn
/// transform, the shared wander timer, and the per-tick event queues.
///
/// Shoot and melee queues collapse to the latest request per tick;
/// the damage queue is drained in full, in order.
pub struct World {
    pub entities: Vec<Entity>,
    /// Handle of the single player entity, if one was spawned.
    pub player: Option<usize>,
    /// Handle of the player's melee hit-collider child entity.
    pub player_hit_collider: Option<usize>,
    pub camera_pos: Vec2,
    pub bullet_spawn_info: BulletSpawnInfo,
    pub zombie_timer: ZombieTimer,
    pub shoot_events: Vec<ShootEvent>,
    pub melee_events: Vec<PlayerMeleeEvent>,
    pub hurt_zombie_events: Vec<HurtZombieEvent>,
}

pub open spec fn shoot_event_wf(e: ShootEvent) -> bool {
    &&& in_bounds(e.pos)
    &&& angle_in_domain(e.rotation)
    &&& dir_in_bounds(e.dir)
}

pub open spec fn spawn_info_wf(info: BulletSpawnInfo) -> bool {
    &&& in_bounds(info.pos)
    &&& angle_in_domain(info.rotation)
    &&& dir_in_bounds(info.dir)
}

impl World {
    /// Structural well-formedness: bounds on every component, parents
    /// at smaller indices, validated singleton handles, a repeating
    /// wander timer, and bounded queue entries.
    pub open spec fn structure_wf(self) -> bool {
        &&& forall|i: int|
                0 <= i < self.entities@.len() ==> entity_wf(#[trigger] self.entities@[i])
        &&& forall|i: int|
                0 <= i < self.entities@.len() ==> parent_ok(self.entities@, i)
        &&& match self.player {
                Some(p) => p < self.entities@.len() && self.entities@[p as int].player is Some,
                None => true,
            }
        &&& match self.player_hit_collider {
                Some(h) => h < self.entities@.len() && self.entities@[h as int].hit is Some
                    && self.entities@[h as int].attack is Some,
                None => true,
            }
        &&& in_bounds(self.camera_pos)
        &&& spawn_info_wf(self.bullet_spawn_info)
        &&& self.zombie_timer.timer.wf()
        &&& self.zombie_timer.timer.repeating
        &&& forall|i: int|
                0 <= i < self.shoot_events@.len()
                    ==> shoot_event_wf(#[trigger] self.shoot_events@[i])
        &&& forall|i: int|
                0 <= i < self.hurt_zombie_events@.len()
                    ==> 0 <= (#[trigger] self.hurt_zombie_events@[i]).damage <= HP_LIMIT
    }

    /// Every live entity with health has positive points.
    pub open spec fn health_wf(self) -> bool {
        forall|i: int|
            0 <= i < self.entities@.len()
                ==> live_health_positive(#[trigger] self.entities@[i])
    }

    pub open spec fn wf(self) -> bool {
        self.structure_wf() && self.health_wf()
    }

    /// An empty world with no entities and empty queues.
    pub fn new() -> (w: World)
        ensures
            w.wf(),
            w.entities@.len() == 0,
            w.player is None,
            w.player_hit_collider is None,
            w.camera_pos == (Vec2 { x: 0, y: 0 }),
            w.bullet_spawn_info == BulletSpawnInfo::spec_default(),
            w.zombie_timer == ZombieTimer::spec_default(),
            w.shoot_events@.len() == 0,
            w.melee_events@.len() == 0,
            w.hurt_zombie_events@.len() == 0,
    {
        World {
            entities: Vec::new(),
            player: None,
            player_hit_collider: None,
            camera_pos: Vec2 { x: 0, y: 0 },
            bullet_spawn_info: BulletSpawnInfo::default(),
            zombie_timer: ZombieTimer::default(),
            shoot_events: Vec::new(),
            melee_events: Vec::new(),
            hurt_zombie_events: Vec::new(),
        }
    }
}

/// Recursively destroy entity `target`: it and all its transitive
/// children are marked dead and become invisible to every later
/// overlap check and damage lookup.  Slots are never removed or
/// reused, so stale handles can never reach a recycled entity.
///
/// Only structural well-formedness is required, so damage resolution
/// may despawn an entity whose points were just driven to zero or
/// below; clearing `alive` flags can never break the health invariant.
#[verifier::loop_isolation(false)]
pub fn despawn_recursive(world: &mut World, target: usize)
    requires
        old(world).structure_wf(),
        target < old(world).entities@.len(),
    ensures
        final(world).entities@ == kill_descendants(old(world).entities@, target as int),
        (*final(world) == World { entities: final(world).entities, ..*old(world) }),
        final(world).structure_wf(),
        old(world).health_wf() ==> final(world).health_wf(),
{
    let n = world.entities.len();
    let mut doomed: Vec<bool> = Vec::new();
    for i in 0..n
        invariant
            *world == *old(world),
            doomed@.len() == i,
            forall|j: int|
                0 <= j < i ==> doomed@[j] == descends(world.entities@, j, target as int),
    {
        let d = if i == target {
            true
        } else {
            match world.entities[i].parent {
                Some(p) => {
                    proof {
                        assert(parent_ok(world.entities@, i as int));
                    }
                    doomed[p]
                },
                None => false,
            }
        };
        doomed.push(d);
    }
    for i in 0..n
        invariant
            n == world.entities@.len(),
            n == old(world).entities@.len(),
            doomed@.len() == n,
            forall|j: int|
                0 <= j < n ==> doomed@[j] == descends(old(world).entities@, j, target as int),
            (*world == World { entities: world.entities, ..*old(world) }),
            forall|j: int|
                0 <= j < n ==> #[trigger] world.entities@[j] == (
                    if j < i && descends(old(world).entities@, j, target as int) {
                        killed(old(world).entities@[j])
                    } else {
                        old(world).entities@[j]
                    }
                ),
    {
        if doomed[i] {
            let mut e = world.entities[i];
            e.alive = false;
            world.entities[i] = e;
        }
    }
    proof {
        assert(world.entities@ =~= kill_descendants(old(world).entities@, target as int));
        assert forall|i: int| 0 <= i < world.entities@.len()
            implies entity_wf(#[trigger] world.entities@[i])
                && parent_ok(world.entities@, i) by {
            assert(entity_wf(old(world).entities@[i]));
            assert(parent_ok(old(world).entities@, i));
        }
    }
}

} // verus!
