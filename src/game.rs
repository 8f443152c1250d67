//! Game rules around the two subsystems: the level's walls, movement
//! impulses, shooting, shot flight and hits, and losing.
use vstd::prelude::*;
use crate::geom::{Vec3, coord_ok};
use crate::physics::{
    Aabb, Physics, all_wf, detect_collision, overlaps, move_fits, moved, move_position,
};
use crate::anim::{MAJOR_HEIGHT, MINOR_HEIGHT};

verus! {

/// Number of wall boxes in the level.
pub const NUM_WALLS: usize = 18;

/// The level: for each wall its center x, y, z and its full size along x,
/// y, z, in steps.
pub open spec fn wall_table() -> Seq<int> {
    seq![
        0, -250, 0, 21000, 500, 21000,
        13200, -250, -20400, 11000, 500, 11000,
        -24200, -250, -1200, 11000, 500, 11000,
        -16600, -250, 17600, 11000, 500, 11000,
        12800, -250, 18300, 11000, 500, 11000,
        32500, -250, 1700, 11000, 500, 11000,
        37600, -250, -17400, 11000, 500, 11000,
        26000, -250, -43800, 11000, 500, 11000,
        -6500, -250, -39500, 11000, 500, 11000,
        -28000, -250, -21300, 11000, 500, 11000,
        -41200, -250, -43100, 11000, 500, 11000,
        -53500, -250, -13700, 11000, 500, 11000,
        -44400, -250, 12500, 11000, 500, 11000,
        -28900, -250, 36700, 11000, 500, 11000,
        400, -250, 36700, 11000, 500, 11000,
        32900, -250, 33500, 11000, 500, 11000,
        4900, 1200, -29500, 4200, 500, 4200,
        -16800, 1200, -30100, 4200, 500, 4200,
    ]
}

/// Wall `i` of the level as a box.
pub open spec fn wall_box(i: int) -> Aabb {
    let t = wall_table();
    Aabb {
        center: Vec3 { x: t[6 * i] as i64, y: t[6 * i + 1] as i64, z: t[6 * i + 2] as i64 },
        half: Vec3 {
            x: (t[6 * i + 3] / 2) as i64,
            y: (t[6 * i + 4] / 2) as i64,
            z: (t[6 * i + 5] / 2) as i64,
        },
    }
}

/// The wall boxes of the level, in table order.
pub fn map_walls() -> (r: Vec<Aabb>)
    ensures
        r@.len() == NUM_WALLS,
        forall|i: int| 0 <= i < NUM_WALLS ==> r@[i] == #[trigger] wall_box(i),
        all_wf(r@),
{
    let t: Vec<i64> = vec![
        0, -250, 0, 21000, 500, 21000,
        13200, -250, -20400, 11000, 500, 11000,
        -24200, -250, -1200, 11000, 500, 11000,
        -16600, -250, 17600, 11000, 500, 11000,
        12800, -250, 18300, 11000, 500, 11000,
        32500, -250, 1700, 11000, 500, 11000,
        37600, -250, -17400, 11000, 500, 11000,
        26000, -250, -43800, 11000, 500, 11000,
        -6500, -250, -39500, 11000, 500, 11000,
        -28000, -250, -21300, 11000, 500, 11000,
        -41200, -250, -43100, 11000, 500, 11000,
        -53500, -250, -13700, 11000, 500, 11000,
        -44400, -250, 12500, 11000, 500, 11000,
        -28900, -250, 36700, 11000, 500, 11000,
        400, -250, 36700, 11000, 500, 11000,
        32900, -250, 33500, 11000, 500, 11000,
        4900, 1200, -29500, 4200, 500, 4200,
        -16800, 1200, -30100, 4200, 500, 4200,
    ];
    assert(t@.map_values(|v: i64| v as int) =~= wall_table());
    assert(forall|j: int| 0 <= j < t@.len() ==> t@[j] as int == #[trigger] wall_table()[j]) by {
        assert forall|j: int| 0 <= j < t@.len() implies t@[j] as int == #[trigger] wall_table()[j] by {
            assert(t@.map_values(|v: i64| v as int)[j] == t@[j] as int);
        }
    }
    assert(forall|j: int| 0 <= j < wall_table().len() ==> -100_000 <= #[trigger] wall_table()[j] <= 100_000);
    let mut r: Vec<Aabb> = Vec::new();
    let mut i: usize = 0;
    while i < NUM_WALLS
        invariant
            i <= NUM_WALLS,
            t@.len() == 6 * NUM_WALLS,
            forall|j: int| 0 <= j < t@.len() ==> t@[j] as int == #[trigger] wall_table()[j],
            forall|j: int| 0 <= j < wall_table().len() ==> -100_000 <= #[trigger] wall_table()[j] <= 100_000,
            wall_table().len() == 6 * NUM_WALLS,
            r@.len() == i,
            forall|k: int| 0 <= k < i ==> r@[k] == #[trigger] wall_box(k),
            forall|k: int| 0 <= k < i ==> (#[trigger] r@[k]).wf(),
        decreases NUM_WALLS - i,
    {
        let b = 6 * i;
        let wall = Aabb {
            center: Vec3 { x: t[b], y: t[b + 1], z: t[b + 2] },
            half: Vec3 { x: t[b + 3] / 2, y: t[b + 4] / 2, z: t[b + 5] / 2 },
        };
        r.push(wall);
        i = i + 1;
    }
    r
}

/// The player's motion state at spawn: one tall hitbox hanging below the
/// head, at rest, not grounded.
pub fn player_physics() -> (r: Physics)
    ensures
        r.hitboxes@ == seq![
            Aabb { center: Vec3 { x: 0, y: (-3500) as i64, z: 0 }, half: Vec3 { x: 200, y: 3000, z: 200 } },
        ],
        r.velocity == (Vec3 { x: 0, y: 0, z: 0 }),
        !r.grounded,
        r.wf(),
{
    let hitboxes = vec![
        Aabb { center: Vec3 { x: 0, y: -3500, z: 0 }, half: Vec3 { x: 200, y: 3000, z: 200 } },
    ];
    assert(hitboxes@ =~= seq![
        Aabb { center: Vec3 { x: 0, y: (-3500) as i64, z: 0 }, half: Vec3 { x: 200, y: 3000, z: 200 } },
    ]);
    Physics { hitboxes, velocity: Vec3 { x: 0, y: 0, z: 0 }, grounded: false }
}

/// Walking impulse per key press on the ground, in steps per second.
pub const WALK_IMPULSE: i64 = 800;
/// Walking impulse per key press in the air.
pub const AIR_IMPULSE: i64 = 160;
/// Upward impulse of a jump.
pub const JUMP_IMPULSE: i64 = 4000;

/// Movement keys held during a tick.
#[derive(Clone, Copy, Debug, PartialEq, Eq, Structural)]
pub struct MoveInput {
    pub forward: bool,
    pub left: bool,
    pub right: bool,
    pub back: bool,
    pub jump: bool,
}

pub open spec fn held(b: bool, s: int) -> int {
    if b {
        s
    } else {
        0
    }
}

/// Velocity added by the held keys, in the player's own frame (+z ahead,
/// +x to the left): a smaller push in the air, and a jump only from the
/// ground.
pub fn movement_impulse(input: MoveInput, grounded: bool) -> (r: Vec3)
    ensures
        ({
            let s = if grounded { WALK_IMPULSE } else { AIR_IMPULSE };
            r == Vec3 {
                x: (held(input.left, s as int) - held(input.right, s as int)) as i64,
                y: held(input.jump && grounded, JUMP_IMPULSE as int) as i64,
                z: (held(input.forward, s as int) - held(input.back, s as int)) as i64,
            }
        }),
{
    let s = if grounded { WALK_IMPULSE } else { AIR_IMPULSE };
    let mut r = Vec3 { x: 0, y: 0, z: 0 };
    if input.forward {
        r.z = r.z + s;
    }
    if input.left {
        r.x = r.x + s;
    }
    if input.right {
        r.x = r.x - s;
    }
    if input.back {
        r.z = r.z - s;
    }
    if input.jump && grounded {
        r.y = JUMP_IMPULSE;
    }
    r
}

/// Microseconds between two of the player's shots.
pub const PLAYER_SHOT_DELAY: u64 = 500_000;

/// Time left before the player may shoot again, in microseconds.
#[derive(Clone, Copy, Debug, PartialEq, Eq, Structural)]
pub struct ShotCooldown {
    pub cooldown: u64,
}

impl ShotCooldown {
    /// Ready to shoot at once.
    pub fn new() -> (r: ShotCooldown)
        ensures
            r.cooldown == 0,
    {
        ShotCooldown { cooldown: 0 }
    }

    /// Lets `delta_time` pass; if the trigger is pressed and the cooldown
    /// has run out, fires (returns true) and restarts the cooldown.
    pub fn try_fire(&mut self, delta_time: u64, pressed: bool) -> (r: bool)
        ensures
            ({
                let left = if delta_time >= old(self).cooldown { 0 } else { old(self).cooldown - delta_time };
                &&& r == (pressed && left == 0)
                &&& final(self).cooldown == if r { PLAYER_SHOT_DELAY as int } else { left }
            }),
    {
        self.cooldown = if delta_time >= self.cooldown { 0 } else { self.cooldown - delta_time };
        if pressed && self.cooldown == 0 {
            self.cooldown = PLAYER_SHOT_DELAY;
            true
        } else {
            false
        }
    }
}

/// Velocity a shot loses every tick, in steps per second.
pub const SHOT_GRAVITY_STEP: i64 = 100;
/// Height at or below which a shot is removed.
pub const DELETE_SHOT_Y: i64 = -20_000;
/// Half the size of a shot's box.
pub const SHOT_HALF: i64 = 150;
/// Height below which the player has lost.
pub const LOSE_Y: i64 = -50_000;

/// Flight state of a shot.
#[derive(Clone, Copy, Debug, PartialEq, Eq, Structural)]
pub struct ShotPhysics {
    pub velocity: Vec3,
}

/// One tick of a shot's flight: it moves by its velocity, then its vertical
/// velocity drops by `SHOT_GRAVITY_STEP`.
pub fn shot_physics_system(position: &mut Vec3, shot: &mut ShotPhysics, delta_time: u64)
    requires
        old(position).bounded(),
        old(shot).velocity.bounded(),
        coord_ok(old(shot).velocity.y - SHOT_GRAVITY_STEP),
        move_fits(*old(position), old(shot).velocity, delta_time as int),
    ensures
        *final(position) == moved(*old(position), old(shot).velocity, delta_time as int),
        final(shot).velocity == (Vec3 { y: (old(shot).velocity.y - SHOT_GRAVITY_STEP) as i64, ..old(shot).velocity }),
{
    *position = move_position(*position, shot.velocity, delta_time);
    shot.velocity.y = shot.velocity.y - SHOT_GRAVITY_STEP;
}

/// Whether a shot at `position` has fallen out of play.
pub fn shot_expired(position: Vec3) -> (r: bool)
    ensures
        r == (position.y <= DELETE_SHOT_Y),
{
    position.y <= DELETE_SHOT_Y
}

/// Whether a player whose head is at `position` has fallen off the level.
pub fn check_lose(position: Vec3) -> (r: bool)
    ensures
        r == (position.y < LOSE_Y),
{
    position.y < LOSE_Y
}

/// The box a shot hits on a character whose head is at `head`: wider than
/// the physics hitbox, to make hits a little easier.
pub open spec fn sticky_box(head: Vec3) -> Aabb {
    Aabb {
        center: Vec3 { y: (head.y - 3500) as i64, ..head },
        half: Vec3 { x: 400, y: 3000, z: 400 },
    }
}

pub open spec fn shot_box(shot: Vec3) -> Aabb {
    Aabb { center: shot, half: Vec3 { x: SHOT_HALF, y: SHOT_HALF, z: SHOT_HALF } }
}

/// Whether a shot at `shot` hits the character whose head is at `head`.
pub fn shot_hits(head: Vec3, shot: Vec3) -> (r: bool)
    requires
        head.bounded(),
        shot.bounded(),
    ensures
        r == overlaps(sticky_box(head), shot_box(shot)),
{
    let body = Aabb {
        center: Vec3 { x: head.x, y: head.y - 3500, z: head.z },
        half: Vec3 { x: 400, y: 3000, z: 400 },
    };
    let ball = Aabb { center: shot, half: Vec3 { x: SHOT_HALF, y: SHOT_HALF, z: SHOT_HALF } };
    detect_collision(&body, &ball)
}

/// Hits an enemy takes before it is destroyed.
pub const ENEMY_HEALTH: u16 = 3;
/// Enemies in a round.
pub const ENEMY_NUM: u16 = 3;

#[derive(Clone, Copy, Debug, PartialEq, Eq, Structural)]
pub struct Health {
    pub amount: u16,
}

/// Enemies still standing.
#[derive(Clone, Copy, Debug, PartialEq, Eq, Structural)]
pub struct EnemyNum {
    pub number: u16,
}

/// What a hit did to an enemy.
#[derive(Clone, Copy, Debug, PartialEq, Eq, Structural)]
pub enum EnemyHit {
    /// It survived and moves elsewhere.
    Respawn,
    /// It was destroyed; others remain.
    Killed,
    /// It was the last one: the player wins.
    Won,
}

/// A shot hits an enemy: it loses one health; at zero it is destroyed and
/// the count of enemies drops.
pub fn enemy_hit(health: &mut Health, enemies: &mut EnemyNum) -> (r: EnemyHit)
    requires
        old(health).amount > 0,
        old(enemies).number > 0,
    ensures
        final(health).amount == old(health).amount - 1,
        final(health).amount > 0 ==> r == EnemyHit::Respawn && *final(enemies) == *old(enemies),
        final(health).amount == 0 ==> final(enemies).number == old(enemies).number - 1,
        final(health).amount == 0 ==> r == if final(enemies).number == 0 { EnemyHit::Won } else { EnemyHit::Killed },
{
    health.amount = health.amount - 1;
    if health.amount > 0 {
        EnemyHit::Respawn
    } else {
        enemies.number = enemies.number - 1;
        if enemies.number == 0 {
            EnemyHit::Won
        } else {
            EnemyHit::Killed
        }
    }
}

/// Relies on fastrand::i64: a value drawn from `lo..hi`; it panics on an
/// empty range, which `requires` rules out.
#[verifier::external_body]
fn random_range(lo: i64, hi: i64) -> (r: i64)
    requires
        lo < hi,
    ensures
        lo <= r < hi,
{
    fastrand::i64(lo..hi)
}

/// Half the width of the square area enemies are placed in.
pub const ARENA_HALF: i64 = 50_000;
/// Half the width of the random sideways part of a knockback.
pub const KNOCKBACK_SPREAD: i64 = 5_000;
/// Upward velocity a hit gives the player.
pub const KNOCKBACK_LIFT: i64 = 30_000;
/// Height of a freshly placed enemy's head.
pub const ENEMY_SPAWN_Y: i64 = MAJOR_HEIGHT + MINOR_HEIGHT + 1000;

/// A random point of the arena at enemy head height.
pub fn enemy_spawn_position() -> (r: Vec3)
    ensures
        -ARENA_HALF <= r.x < ARENA_HALF,
        r.y == ENEMY_SPAWN_Y,
        -ARENA_HALF <= r.z < ARENA_HALF,
        r.bounded(),
{
    let x = random_range(-ARENA_HALF, ARENA_HALF);
    let z = random_range(-ARENA_HALF, ARENA_HALF);
    Vec3 { x, y: ENEMY_SPAWN_Y, z }
}

/// Moves a hit enemy to a random point of the arena, keeping its height.
pub fn respawn(position: &mut Vec3)
    ensures
        -ARENA_HALF <= final(position).x < ARENA_HALF,
        final(position).y == old(position).y,
        -ARENA_HALF <= final(position).z < ARENA_HALF,
{
    position.x = random_range(-ARENA_HALF, ARENA_HALF);
    position.z = random_range(-ARENA_HALF, ARENA_HALF);
}

/// A hit throws the player up by `KNOCKBACK_LIFT` and sideways by a random
/// amount below `KNOCKBACK_SPREAD` on each horizontal axis.
pub fn knockback(physics: &mut Physics)
    requires
        old(physics).velocity.bounded(),
        coord_ok(old(physics).velocity.x - KNOCKBACK_SPREAD),
        coord_ok(old(physics).velocity.x + KNOCKBACK_SPREAD),
        coord_ok(old(physics).velocity.y + KNOCKBACK_LIFT),
        coord_ok(old(physics).velocity.z - KNOCKBACK_SPREAD),
        coord_ok(old(physics).velocity.z + KNOCKBACK_SPREAD),
    ensures
        old(physics).velocity.x - KNOCKBACK_SPREAD <= final(physics).velocity.x < old(physics).velocity.x + KNOCKBACK_SPREAD,
        final(physics).velocity.y == old(physics).velocity.y + KNOCKBACK_LIFT,
        old(physics).velocity.z - KNOCKBACK_SPREAD <= final(physics).velocity.z < old(physics).velocity.z + KNOCKBACK_SPREAD,
        final(physics).velocity.bounded(),
        final(physics).hitboxes == old(physics).hitboxes,
        final(physics).grounded == old(physics).grounded,
{
    let dx = random_range(-KNOCKBACK_SPREAD, KNOCKBACK_SPREAD);
    let dz = random_range(-KNOCKBACK_SPREAD, KNOCKBACK_SPREAD);
    physics.velocity.x = physics.velocity.x + dx;
    physics.velocity.y = physics.velocity.y + KNOCKBACK_LIFT;
    physics.velocity.z = physics.velocity.z + dz;
}

/// Number of equally likely draws behind an enemy's decision to fire.
pub const FIRE_ODDS: i64 = 500;

/// An enemy fires exactly when its draw is 0.
pub fn fires_on(draw: i64) -> (r: bool)
    ensures
        r == (draw == 0),
{
    draw == 0
}

/// Whether an enemy fires this tick: it draws from `0..FIRE_ODDS` and fires
/// on 0, one chance in 500.
pub fn enemy_fires() -> bool {
    fires_on(random_range(0, FIRE_ODDS))
}

/// Where `val + change` lands once kept off the band of width `clamp_val`
/// just inside `-pos` and `pos`: a value below `-pos` may not rise past
/// `-pos - clamp_val`, one above `pos` may not fall below `pos + clamp_val`,
/// and one in between stays within `[-pos + clamp_val, pos - clamp_val]`
/// (the upper limit checked first).
pub open spec fn clamped_around(val: int, change: int, pos: int, clamp_val: int) -> int {
    let n = val + change;
    if val < -pos {
        if n > -pos - clamp_val { -pos - clamp_val } else { n }
    } else if val > pos {
        if n < pos + clamp_val { pos + clamp_val } else { n }
    } else if n > pos - clamp_val {
        pos - clamp_val
    } else if n < -pos + clamp_val {
        -pos + clamp_val
    } else {
        n
    }
}

/// Adds `change` to the angle `val` without letting it cross the limits
/// `-pos` and `pos` (keeping `clamp_val` away from them), in micro-radians.
pub fn add_clamp_around(val: i64, change: i64, pos: i64, clamp_val: i64) -> (r: i64)
    requires
        coord_ok(val as int),
        coord_ok(change as int),
        coord_ok(pos as int),
        coord_ok(clamp_val as int),
    ensures
        r == clamped_around(val as int, change as int, pos as int, clamp_val as int),
{
    let new_val = val + change;
    if val < -pos {
        if new_val > -pos - clamp_val {
            return -pos - clamp_val;
        }
    } else if val > pos {
        if new_val < pos + clamp_val {
            return pos + clamp_val;
        }
    } else {
        if new_val > pos - clamp_val {
            return pos - clamp_val;
        }
        if new_val < -pos + clamp_val {
            return -pos + clamp_val;
        }
    }
    new_val
}

} // verus!
