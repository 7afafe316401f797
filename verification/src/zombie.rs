use vstd::prelude::*;
use rand::Rng;
use crate::geometry::{Vec2, DIR_ONE, UNIT, in_bounds, dir_in_bounds, spec_move, move_along, SPEED_LIMIT, POS_LIMIT};
use crate::timer::{Timer, DELTA_LIMIT};
use crate::angle::{PI_FIXED, angle_in_domain, spec_lerp, lerp_angle};
use crate::common::{Entity, World, Health, HurtCollider, entity_wf, parent_ok, live_health_positive};

verus! {

/// Period of the shared wander timer, in milliseconds: every period
/// each wanderer picks a fresh random heading.
pub const ZOMBIE_WANDER_PERIOD_MILLIS: u64 = 3000;

/// Wanderer speed, in world units per second.
pub const ZOMBIE_SPEED: i64 = 50;

/// Wander state of one roaming entity: the target heading angle and
/// the matching unit direction vector (the host supplies the vector,
/// since only it can take a cosine).
#[derive(Clone, Copy, PartialEq, Eq, Structural, Debug)]
pub struct Zombie {
    /// Target heading, a fixed-point angle in `(-pi, pi]`.
    pub angle: i64,
    /// Unit vector of the heading, scaled by `DIR_ONE`.
    pub dir: Vec2,
}

/// The shared repeating timer that paces wander retargeting.
#[derive(Clone, Copy, PartialEq, Eq, Structural, Debug)]
pub struct ZombieTimer {
    pub timer: Timer,
}

impl ZombieTimer {
    pub open spec fn spec_default() -> ZombieTimer {
        ZombieTimer {
            timer: Timer {
                duration: ZOMBIE_WANDER_PERIOD_MILLIS,
                elapsed: 0,
                repeating: true,
                fired: false,
            },
        }
    }
}

impl Default for ZombieTimer {
    fn default() -> (r: ZombieTimer)
        ensures
            r == ZombieTimer::spec_default(),
    {
        ZombieTimer { timer: Timer::from_millis(ZOMBIE_WANDER_PERIOD_MILLIS, true) }
    }
}

/// Starting health of a wanderer.
pub const ZOMBIE_HEALTH: i64 = 100;

/// Radius of a wanderer's hurt zone, in position steps.
pub const ZOMBIE_HURT_RADIUS: i64 = 32 * UNIT;

/// A wanderer as spawned: full health, a hurt zone around its center,
/// heading along angle zero.
pub open spec fn zombie_entity(pos: Vec2) -> Entity {
    Entity {
        zombie: Some(Zombie { angle: 0, dir: Vec2 { x: DIR_ONE, y: 0 } }),
        health: Some(Health { points: ZOMBIE_HEALTH }),
        hurt: Some(HurtCollider { radius: ZOMBIE_HURT_RADIUS, offset: Vec2 { x: 0, y: 0 } }),
        ..Entity::spec_blank(pos)
    }
}

/// A wanderer's collider-outline child, destroyed with its parent.
pub open spec fn zombie_child_entity(pos: Vec2, id: usize) -> Entity {
    Entity { parent: Some(id), ..Entity::spec_blank(pos) }
}

/// Spawn a wanderer at `pos` together with its collider-outline child.
pub fn spawn_zombie(world: &mut World, pos: Vec2) -> (id: usize)
    requires
        old(world).wf(),
        in_bounds(pos),
    ensures
        final(world).wf(),
        id == old(world).entities@.len(),
        final(world).entities@ == old(world).entities@
            .push(zombie_entity(pos))
            .push(zombie_child_entity(pos, id)),
        (*final(world) == World { entities: final(world).entities, ..*old(world) }),
{
    let id = world.entities.len();
    let mut body = Entity::blank(pos);
    body.zombie = Some(Zombie { angle: 0, dir: Vec2 { x: DIR_ONE, y: 0 } });
    body.health = Some(Health { points: ZOMBIE_HEALTH });
    body.hurt = Some(HurtCollider { radius: ZOMBIE_HURT_RADIUS, offset: Vec2 { x: 0, y: 0 } });
    world.entities.push(body);
    let mut outline = Entity::blank(pos);
    outline.parent = Some(id);
    world.entities.push(outline);
    proof {
        assert forall|i: int| 0 <= i < world.entities@.len()
            implies entity_wf(#[trigger] world.entities@[i])
                && parent_ok(world.entities@, i)
                && live_health_positive(world.entities@[i]) by {
            if i < old(world).entities@.len() {
                assert(entity_wf(old(world).entities@[i]));
                assert(parent_ok(old(world).entities@, i));
                assert(live_health_positive(old(world).entities@[i]));
            }
        }
    }
    id
}

#[verifier::external_type_specification]
#[verifier::external_body]
pub struct ExThreadRng(rand::rngs::ThreadRng);

/// Relies on rand::thread_rng: a handle to the thread-local random
/// number generator.  Nothing is promised of it.
#[verifier::external_body]
fn fresh_rng() -> rand::rngs::ThreadRng {
    rand::thread_rng()
}

/// Relies on rand::Rng::gen_range on the non-empty inclusive range
/// `lo..=hi`: the sample lies within the bounds.  Nothing more can be
/// promised of a random value.
#[verifier::external_body]
fn gen_range_i64(rng: &mut rand::rngs::ThreadRng, lo: i64, hi: i64) -> (r: i64)
    requires
        lo <= hi,
    ensures
        lo <= r <= hi,
{
    rng.gen_range(lo..=hi)
}

/// How one wander tick may rewrite one entity, given the shared timer
/// state `t` after its tick.  A live wanderer keeps its direction
/// vector and every other component; its target heading stays in the
/// angle domain and is unchanged unless the timer finished (when it is
/// freshly sampled); its rotation is blended toward the target heading
/// by the elapsed fraction of the timer.  Everything else stands.
pub open spec fn wander_step_ok(e: Entity, e2: Entity, t: Timer) -> bool {
    if e.alive && e.zombie is Some {
        let z = e.zombie->Some_0;
        &&& e2.zombie is Some
        &&& e2.zombie->Some_0.dir == z.dir
        &&& angle_in_domain(e2.zombie->Some_0.angle)
        &&& (!t.spec_finished() ==> e2.zombie->Some_0.angle == z.angle)
        &&& e2.rotation == spec_lerp(e.rotation, e2.zombie->Some_0.angle, t.elapsed, t.duration)
        &&& (e2 == Entity { rotation: e2.rotation, zombie: e2.zombie, ..e })
    } else {
        e2 == e
    }
}

/// One wander tick: advance the shared timer; on the tick where it
/// finishes, give every live wanderer a fresh uniformly random target
/// heading in `(-pi, pi]`; every tick, blend each wanderer's rotation
/// toward its target heading by the timer's elapsed fraction, so the
/// turn is gradual and restarts from zero right after a retarget.
/// Returns whether the timer finished, so the host can recompute the
/// heading unit vectors (only it can take a cosine) before
/// `zombie_translate` runs.
#[verifier::loop_isolation(false)]
pub fn zombie_movement(world: &mut World, delta: u64) -> (retargeted: bool)
    requires
        old(world).wf(),
        delta <= DELTA_LIMIT,
    ensures
        final(world).wf(),
        final(world).zombie_timer.timer == old(world).zombie_timer.timer.spec_tick(delta),
        retargeted == final(world).zombie_timer.timer.spec_finished(),
        final(world).entities@.len() == old(world).entities@.len(),
        forall|i: int|
            0 <= i < old(world).entities@.len()
                ==> wander_step_ok(
                    #[trigger] old(world).entities@[i],
                    final(world).entities@[i],
                    old(world).zombie_timer.timer.spec_tick(delta),
                ),
        (*final(world) == World {
            entities: final(world).entities,
            zombie_timer: final(world).zombie_timer,
            ..*old(world)
        }),
{
    let mut timer = world.zombie_timer.timer;
    timer.tick(delta);
    world.zombie_timer = ZombieTimer { timer };
    let fired = timer.finished();
    let elapsed = timer.elapsed_millis();
    let duration = timer.duration_millis();
    let mut rng = fresh_rng();
    let n = world.entities.len();
    for i in 0..n
        invariant
            n == world.entities@.len(),
            (*world == World {
                entities: world.entities,
                zombie_timer: world.zombie_timer,
                ..*old(world)
            }),
            world.zombie_timer.timer == old(world).zombie_timer.timer.spec_tick(delta),
            timer == world.zombie_timer.timer,
            fired == timer.spec_finished(),
            elapsed == timer.elapsed,
            duration == timer.duration,
            forall|j: int|
                0 <= j < n && j >= i ==> world.entities@[j] == old(world).entities@[j],
            forall|j: int|
                0 <= j < i ==> wander_step_ok(
                    #[trigger] old(world).entities@[j],
                    world.entities@[j],
                    timer,
                ),
            forall|j: int|
                0 <= j < n ==> entity_wf(#[trigger] world.entities@[j])
                    && parent_ok(world.entities@, j)
                    && live_health_positive(world.entities@[j]),
    {
        let e = world.entities[i];
        if e.alive {
            match e.zombie {
                Some(z) => {
                    let mut z2 = z;
                    if fired {
                        z2.angle = gen_range_i64(&mut rng, -PI_FIXED + 1, PI_FIXED);
                    }
                    let mut e2 = e;
                    e2.rotation = lerp_angle(e.rotation, z2.angle, elapsed, duration);
                    e2.zombie = Some(z2);
                    world.entities[i] = e2;
                    proof {
                        assert(parent_ok(world.entities@, i as int));
                        assert forall|j: int| 0 <= j < n
                            implies parent_ok(world.entities@, j) by {
                            assert(world.entities@[j].parent
                                == old(world).entities@[j].parent);
                            assert(parent_ok(old(world).entities@, j));
                        }
                    }
                },
                None => {},
            }
        }
    }
    fired
}

/// Record the unit vector of a wanderer's target heading, as computed
/// by the host from the heading angle.  A handle that is out of range
/// or does not name a wanderer leaves the world unchanged.
#[verifier::loop_isolation(false)]
pub fn set_zombie_direction(world: &mut World, id: usize, dir: Vec2)
    requires
        old(world).wf(),
        dir_in_bounds(dir),
    ensures
        final(world).wf(),
        final(world).entities@.len() == old(world).entities@.len(),
        forall|i: int|
            0 <= i < old(world).entities@.len() && i != id
                ==> final(world).entities@[i] == old(world).entities@[i],
        id < old(world).entities@.len() ==> final(world).entities@[id as int] == (
            match old(world).entities@[id as int].zombie {
                Some(z) => (Entity {
                    zombie: Some(Zombie { dir, ..z }),
                    ..old(world).entities@[id as int]
                }),
                None => old(world).entities@[id as int],
            }
        ),
        (*final(world) == World { entities: final(world).entities, ..*old(world) }),
{
    if id < world.entities.len() {
        let e = world.entities[id];
        match e.zombie {
            Some(z) => {
                let mut e2 = e;
                e2.zombie = Some(Zombie { dir, ..z });
                world.entities[id] = e2;
                proof {
                    assert forall|i: int| 0 <= i < world.entities@.len()
                        implies entity_wf(#[trigger] world.entities@[i])
                            && parent_ok(world.entities@, i)
                            && live_health_positive(world.entities@[i]) by {
                        assert(entity_wf(old(world).entities@[i]));
                        assert(world.entities@[i].parent == old(world).entities@[i].parent);
                        assert(parent_ok(old(world).entities@, i));
                        assert(live_health_positive(old(world).entities@[i]));
                    }
                }
            },
            None => {},
        }
    }
}

/// The entity after one wander translation tick: a live wanderer
/// advances by `dir * ZOMBIE_SPEED * delta`, everything else stands.
pub open spec fn zombie_moved(e: Entity, delta: u64) -> Entity {
    match e.zombie {
        Some(z) => if e.alive {
            Entity { pos: spec_move(e.pos, z.dir, ZOMBIE_SPEED, delta), ..e }
        } else {
            e
        },
        None => e,
    }
}

/// Translate every live wanderer along its heading unit vector at the
/// wander speed.
#[verifier::loop_isolation(false)]
pub fn zombie_translate(world: &mut World, delta: u64)
    requires
        old(world).wf(),
        delta <= DELTA_LIMIT,
    ensures
        final(world).wf(),
        final(world).entities@.len() == old(world).entities@.len(),
        forall|i: int|
            0 <= i < old(world).entities@.len()
                ==> final(world).entities@[i] == zombie_moved(
                    #[trigger] old(world).entities@[i],
                    delta,
                ),
        (*final(world) == World { entities: final(world).entities, ..*old(world) }),
{
    let n = world.entities.len();
    for i in 0..n
        invariant
            n == world.entities@.len(),
            (*world == World { entities: world.entities, ..*old(world) }),
            forall|j: int|
                0 <= j < n ==> #[trigger] world.entities@[j] == (
                    if j < i {
                        zombie_moved(old(world).entities@[j], delta)
                    } else {
                        old(world).entities@[j]
                    }
                ),
    {
        let e = world.entities[i];
        if e.alive {
            match e.zombie {
                Some(z) => {
                    let mut moved = e;
                    moved.pos = move_along(e.pos, z.dir, ZOMBIE_SPEED, delta);
                    world.entities[i] = moved;
                },
                None => {},
            }
        }
    }
    proof {
        assert forall|i: int| 0 <= i < world.entities@.len()
            implies entity_wf(#[trigger] world.entities@[i])
                && parent_ok(world.entities@, i)
                && live_health_positive(world.entities@[i]) by {
            assert(entity_wf(old(world).entities@[i]));
            assert(parent_ok(old(world).entities@, i));
            assert(live_health_positive(old(world).entities@[i]));
        }
    }
}

/// Total time of a run of tick deltas.
pub open spec fn sum_deltas(deltas: Seq<u64>) -> int
    decreases deltas.len(),
{
    if deltas.len() == 0 {
        0
    } else {
        deltas[0] + sum_deltas(deltas.drop_first())
    }
}

/// The position reached by translating along a fixed heading vector
/// once per tick, as `zombie_translate` does to a live wanderer.
pub open spec fn path_pos(start: Vec2, dir: Vec2, speed: i64, deltas: Seq<u64>) -> Vec2
    decreases deltas.len(),
{
    if deltas.len() == 0 {
        start
    } else {
        path_pos(spec_move(start, dir, speed, deltas[0]), dir, speed, deltas.drop_first())
    }
}

proof fn lemma_sum_deltas_nonneg(deltas: Seq<u64>)
    ensures
        sum_deltas(deltas) >= 0,
    decreases deltas.len(),
{
    if deltas.len() > 0 {
        lemma_sum_deltas_nonneg(deltas.drop_first());
    }
}

/// Straight-line wander motion: across any run of ticks in which a
/// wanderer's heading vector never changes (no retarget fired, see
/// `wander_step_ok`), the cumulative displacement is exactly
/// `dir * speed * (sum of the deltas)`, and its squared magnitude is
/// `|dir|^2 * (speed * sum)^2`.  For a unit heading vector
/// (`|dir| == DIR_ONE`) that is a straight line of length
/// `speed * sum` world units: heading unchanged means straight-line
/// motion at constant speed, no step lost and none added.
pub proof fn lemma_wander_straight_line(start: Vec2, dir: Vec2, speed: i64, deltas: Seq<u64>)
    requires
        in_bounds(start),
        dir_in_bounds(dir),
        0 <= speed <= SPEED_LIMIT,
        -POS_LIMIT <= start.x + dir.x * speed * sum_deltas(deltas) <= POS_LIMIT,
        -POS_LIMIT <= start.y + dir.y * speed * sum_deltas(deltas) <= POS_LIMIT,
    ensures
        path_pos(start, dir, speed, deltas).x == start.x + dir.x * speed * sum_deltas(deltas),
        path_pos(start, dir, speed, deltas).y == start.y + dir.y * speed * sum_deltas(deltas),
        (path_pos(start, dir, speed, deltas).x - start.x) * (path_pos(
            start,
            dir,
            speed,
            deltas,
        ).x - start.x) + (path_pos(start, dir, speed, deltas).y - start.y) * (path_pos(
            start,
            dir,
            speed,
            deltas,
        ).y - start.y) == (dir.x * dir.x + dir.y * dir.y) * ((speed * sum_deltas(deltas)) * (
        speed * sum_deltas(deltas))),
    decreases deltas.len(),
{
    let total = sum_deltas(deltas);
    lemma_sum_deltas_nonneg(deltas);
    if deltas.len() == 0 {
        assert(dir.x * speed * 0 == 0) by (nonlinear_arith);
        assert(dir.y * speed * 0 == 0) by (nonlinear_arith);
    } else {
        let d0 = deltas[0];
        let rest = deltas.drop_first();
        lemma_sum_deltas_nonneg(rest);
        let cx = dir.x * speed;
        let cy = dir.y * speed;
        assert(dir.x * speed * total == cx * total && dir.x * speed * d0 == cx * d0
            && dir.y * speed * total == cy * total && dir.y * speed * d0 == cy * d0);
        assert(cx * total == cx * d0 + cx * sum_deltas(rest)
            && cy * total == cy * d0 + cy * sum_deltas(rest)) by (nonlinear_arith)
            requires total == d0 + sum_deltas(rest);
        assert((if cx >= 0 { 0 <= cx * d0 <= cx * total } else { cx * total <= cx * d0 <= 0 })
            && (if cy >= 0 { 0 <= cy * d0 <= cy * total } else { cy * total <= cy * d0 <= 0 }))
            by (nonlinear_arith)
            requires 0 <= d0, 0 <= sum_deltas(rest), total == d0 + sum_deltas(rest);
        let mid = spec_move(start, dir, speed, d0);
        assert(mid.x == start.x + cx * d0 && mid.y == start.y + cy * d0);
        assert(mid.x + dir.x * speed * sum_deltas(rest) == start.x + cx * total
            && mid.y + dir.y * speed * sum_deltas(rest) == start.y + cy * total);
        lemma_wander_straight_line(mid, dir, speed, rest);
        assert(path_pos(start, dir, speed, deltas) == path_pos(mid, dir, speed, rest));
        assert((cx * total) * (cx * total) == (dir.x * dir.x) * ((speed * total) * (speed
            * total))) by (nonlinear_arith)
            requires cx == dir.x * speed;
        assert((cy * total) * (cy * total) == (dir.y * dir.y) * ((speed * total) * (speed
            * total))) by (nonlinear_arith)
            requires cy == dir.y * speed;
        assert((dir.x * dir.x) * ((speed * total) * (speed * total)) + (dir.y * dir.y) * ((speed
            * total) * (speed * total)) == (dir.x * dir.x + dir.y * dir.y) * ((speed * total) * (
        speed * total))) by (nonlinear_arith);
    }
}

} // verus!
