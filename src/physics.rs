//! Motion integration and push-out of hitboxes from static wall boxes.
use vstd::prelude::*;
use crate::geom::{Vec3, coord_ok, COORD_LIMIT};

verus! {

/// Velocity lost to gravity on every tick, in steps per second.
pub const GRAVITY_STEP: i64 = 200;

/// Microseconds per second: velocities are per second, ticks in microseconds.
pub const MICROS_PER_SECOND: i64 = 1_000_000;

/// An axis-aligned box: its center and its half extent on each axis.
#[derive(Clone, Copy, Debug, PartialEq, Eq, Structural)]
pub struct Aabb {
    pub center: Vec3,
    pub half: Vec3,
}

/// Extents may be up to `COORD_LIMIT`, never negative.
pub open spec fn extent_ok(v: Vec3) -> bool {
    v.bounded() && v.x >= 0 && v.y >= 0 && v.z >= 0
}

/// Centers of boxes placed in the world may be up to twice `COORD_LIMIT`
/// (a bounded position plus a bounded offset).
pub open spec fn wide_ok(v: int) -> bool {
    -2 * COORD_LIMIT <= v <= 2 * COORD_LIMIT
}

impl Aabb {
    /// A box given in bounded coordinates.
    pub open spec fn wf(self) -> bool {
        self.center.bounded() && extent_ok(self.half)
    }

    /// A box whose center may be a bounded position plus a bounded offset.
    pub open spec fn placed_ok(self) -> bool {
        &&& wide_ok(self.center.x as int)
        &&& wide_ok(self.center.y as int)
        &&& wide_ok(self.center.z as int)
        &&& extent_ok(self.half)
    }
}

/// Distance between two numbers.
pub open spec fn abs_diff(a: int, b: int) -> int {
    if a >= b {
        a - b
    } else {
        b - a
    }
}

/// Two boxes overlap (touching counts) when on every axis their centers are
/// no further apart than the sum of their half extents.
pub open spec fn overlaps(a: Aabb, b: Aabb) -> bool {
    &&& abs_diff(a.center.x as int, b.center.x as int) <= a.half.x + b.half.x
    &&& abs_diff(a.center.y as int, b.center.y as int) <= a.half.y + b.half.y
    &&& abs_diff(a.center.z as int, b.center.z as int) <= a.half.z + b.half.z
}

/// Whether the two boxes overlap or touch.
pub fn detect_collision(hitbox: &Aabb, wall: &Aabb) -> (r: bool)
    requires
        hitbox.placed_ok(),
        wall.wf(),
    ensures
        r == overlaps(*hitbox, *wall),
{
    let dx = if hitbox.center.x >= wall.center.x {
        hitbox.center.x - wall.center.x
    } else {
        wall.center.x - hitbox.center.x
    };
    let dy = if hitbox.center.y >= wall.center.y {
        hitbox.center.y - wall.center.y
    } else {
        wall.center.y - hitbox.center.y
    };
    let dz = if hitbox.center.z >= wall.center.z {
        hitbox.center.z - wall.center.z
    } else {
        wall.center.z - hitbox.center.z
    };
    dx <= hitbox.half.x + wall.half.x && dy <= hitbox.half.y + wall.half.y && dz
        <= hitbox.half.z + wall.half.z
}

/// The six directions a box can be pushed out of a wall.
#[derive(Clone, Copy, Debug, PartialEq, Eq, Structural)]
pub enum Push {
    /// Towards +y, onto the wall's top face.
    Up,
    /// Towards -y, below the wall's bottom face.
    Down,
    /// Towards +x.
    Left,
    /// Towards -x.
    Right,
    /// Towards +z.
    Forward,
    /// Towards -z.
    Back,
}

/// Rank of a direction in the tie-breaking order.
pub open spec fn push_rank(p: Push) -> int {
    match p {
        Push::Up => 0,
        Push::Down => 1,
        Push::Left => 2,
        Push::Right => 3,
        Push::Forward => 4,
        Push::Back => 5,
    }
}

/// How far the box `h` must move in direction `p` to clear the wall `w`.
pub open spec fn push_depth(h: Aabb, w: Aabb, p: Push) -> int {
    match p {
        Push::Up => (w.center.y + w.half.y) - (h.center.y - h.half.y),
        Push::Down => (h.center.y + h.half.y) - (w.center.y - w.half.y),
        Push::Left => (w.center.x + w.half.x) - (h.center.x - h.half.x),
        Push::Right => (h.center.x + h.half.x) - (w.center.x - w.half.x),
        Push::Forward => (w.center.z + w.half.z) - (h.center.z - h.half.z),
        Push::Back => (h.center.z + h.half.z) - (w.center.z - w.half.z),
    }
}

/// Of `a` and a later candidate `b`, the one with the smaller depth; `a` on
/// a tie.
pub open spec fn shallower(h: Aabb, w: Aabb, a: Push, b: Push) -> Push {
    if push_depth(h, w, b) < push_depth(h, w, a) {
        b
    } else {
        a
    }
}

/// The direction of least depth, the earliest in rank order on a tie.
pub open spec fn best_push(h: Aabb, w: Aabb) -> Push {
    let vertical = shallower(h, w, Push::Up, Push::Down);
    let with_left = shallower(h, w, vertical, Push::Left);
    let with_right = shallower(h, w, with_left, Push::Right);
    let with_forward = shallower(h, w, with_right, Push::Forward);
    shallower(h, w, with_forward, Push::Back)
}

/// The chosen direction needs no more displacement than any other, and every
/// direction ranked before it needs strictly more.
pub proof fn lemma_best_push_is_shallowest(h: Aabb, w: Aabb)
    ensures
        forall|p: Push| push_depth(h, w, best_push(h, w)) <= #[trigger] push_depth(h, w, p),
        forall|p: Push|
            push_rank(p) < push_rank(best_push(h, w)) ==> push_depth(h, w, best_push(h, w))
                < #[trigger] push_depth(h, w, p),
{
    assert forall|p: Push| push_depth(h, w, best_push(h, w)) <= #[trigger] push_depth(h, w, p) by {
        match p {
            Push::Up => {},
            Push::Down => {},
            Push::Left => {},
            Push::Right => {},
            Push::Forward => {},
            Push::Back => {},
        }
    }
    assert forall|p: Push|
        push_rank(p) < push_rank(best_push(h, w)) implies push_depth(h, w, best_push(h, w))
            < #[trigger] push_depth(h, w, p) by {
        match p {
            Push::Up => {},
            Push::Down => {},
            Push::Left => {},
            Push::Right => {},
            Push::Forward => {},
            Push::Back => {},
        }
    }
}

/// Picks the push-out direction for a hitbox overlapping a wall: the one of
/// least depth, ties going to the earliest of up, down, left, right,
/// forward, back. Returns the direction and its depth.
pub fn choose_push(hitbox: &Aabb, wall: &Aabb) -> (r: (Push, i64))
    requires
        hitbox.placed_ok(),
        wall.wf(),
    ensures
        r.0 == best_push(*hitbox, *wall),
        r.1 == push_depth(*hitbox, *wall, r.0),
        forall|p: Push| r.1 <= #[trigger] push_depth(*hitbox, *wall, p),
        forall|p: Push| push_rank(p) < push_rank(r.0) ==> r.1 < #[trigger] push_depth(*hitbox, *wall, p),
{
    proof { lemma_best_push_is_shallowest(*hitbox, *wall); }
    let h = hitbox;
    let w = wall;
    let up = (w.center.y + w.half.y) - (h.center.y - h.half.y);
    let down = (h.center.y + h.half.y) - (w.center.y - w.half.y);
    let left = (w.center.x + w.half.x) - (h.center.x - h.half.x);
    let right = (h.center.x + h.half.x) - (w.center.x - w.half.x);
    let forward = (w.center.z + w.half.z) - (h.center.z - h.half.z);
    let back = (h.center.z + h.half.z) - (w.center.z - w.half.z);
    let mut best = (Push::Up, up);
    if down < best.1 {
        best = (Push::Down, down);
    }
    if left < best.1 {
        best = (Push::Left, left);
    }
    if right < best.1 {
        best = (Push::Right, right);
    }
    if forward < best.1 {
        best = (Push::Forward, forward);
    }
    if back < best.1 {
        best = (Push::Back, back);
    }
    best
}

/// A velocity component after ground friction: 0.9 of it, rounded towards 0.
pub open spec fn damp(v: int) -> int {
    if v >= 0 {
        v * 9 / 10
    } else {
        -((-v) * 9 / 10)
    }
}

pub open spec fn max0(v: int) -> int {
    if v >= 0 {
        v
    } else {
        0
    }
}

pub open spec fn min0(v: int) -> int {
    if v <= 0 {
        v
    } else {
        0
    }
}

/// Position after moving `d` in direction `p`.
pub open spec fn pushed_pos(pos: Vec3, p: Push, d: int) -> Vec3 {
    match p {
        Push::Up => Vec3 { y: (pos.y + d) as i64, ..pos },
        Push::Down => Vec3 { y: (pos.y - d) as i64, ..pos },
        Push::Left => Vec3 { x: (pos.x + d) as i64, ..pos },
        Push::Right => Vec3 { x: (pos.x - d) as i64, ..pos },
        Push::Forward => Vec3 { z: (pos.z + d) as i64, ..pos },
        Push::Back => Vec3 { z: (pos.z - d) as i64, ..pos },
    }
}

/// Velocity after a push in direction `p`: the component along the push
/// may no longer point into the wall; landing on top also damps the
/// horizontal components.
pub open spec fn pushed_vel(vel: Vec3, p: Push) -> Vec3 {
    match p {
        Push::Up => Vec3 {
            x: damp(vel.x as int) as i64,
            y: max0(vel.y as int) as i64,
            z: damp(vel.z as int) as i64,
        },
        Push::Down => Vec3 { y: min0(vel.y as int) as i64, ..vel },
        Push::Left => Vec3 { x: max0(vel.x as int) as i64, ..vel },
        Push::Right => Vec3 { x: min0(vel.x as int) as i64, ..vel },
        Push::Forward => Vec3 { z: max0(vel.z as int) as i64, ..vel },
        Push::Back => Vec3 { z: min0(vel.z as int) as i64, ..vel },
    }
}

fn damp_i64(v: i64) -> (r: i64)
    requires
        coord_ok(v as int),
    ensures
        r == damp(v as int),
        coord_ok(r as int),
{
    if v >= 0 {
        v * 9 / 10
    } else {
        -((-v) * 9 / 10)
    }
}

/// Velocity after a push in direction `p`.
pub fn push_velocity(vel: Vec3, p: Push) -> (r: Vec3)
    requires
        vel.bounded(),
    ensures
        r == pushed_vel(vel, p),
        r.bounded(),
{
    match p {
        Push::Up => Vec3 {
            x: damp_i64(vel.x),
            y: if vel.y >= 0 { vel.y } else { 0 },
            z: damp_i64(vel.z),
        },
        Push::Down => Vec3 { y: if vel.y <= 0 { vel.y } else { 0 }, ..vel },
        Push::Left => Vec3 { x: if vel.x >= 0 { vel.x } else { 0 }, ..vel },
        Push::Right => Vec3 { x: if vel.x <= 0 { vel.x } else { 0 }, ..vel },
        Push::Forward => Vec3 { z: if vel.z >= 0 { vel.z } else { 0 }, ..vel },
        Push::Back => Vec3 { z: if vel.z <= 0 { vel.z } else { 0 }, ..vel },
    }
}

/// A hitbox given relative to an entity, placed at the entity's position.
pub open spec fn placed(pos: Vec3, hitbox: Aabb) -> Aabb {
    Aabb {
        center: Vec3 {
            x: (pos.x + hitbox.center.x) as i64,
            y: (pos.y + hitbox.center.y) as i64,
            z: (pos.z + hitbox.center.z) as i64,
        },
        half: hitbox.half,
    }
}

pub fn place_hitbox(pos: Vec3, hitbox: &Aabb) -> (r: Aabb)
    requires
        pos.bounded(),
        hitbox.wf(),
    ensures
        r == placed(pos, *hitbox),
        r.placed_ok(),
{
    Aabb {
        center: Vec3 {
            x: pos.x + hitbox.center.x,
            y: pos.y + hitbox.center.y,
            z: pos.z + hitbox.center.z,
        },
        half: hitbox.half,
    }
}

/// Hitbox `h` of an entity at `pos` overlaps wall `w`.
pub open spec fn hits(pos: Vec3, hitboxes: Seq<Aabb>, walls: Seq<Aabb>, w: int, h: int) -> bool {
    &&& 0 <= w < walls.len()
    &&& 0 <= h < hitboxes.len()
    &&& overlaps(placed(pos, hitboxes[h]), walls[w])
}

/// `(w, h)` is the first overlapping pair, walls in order and, within a
/// wall, hitboxes in order.
pub open spec fn is_first_contact(pos: Vec3, hitboxes: Seq<Aabb>, walls: Seq<Aabb>, w: int, h: int) -> bool {
    &&& hits(pos, hitboxes, walls, w, h)
    &&& forall|w2: int, h2: int|
        (w2 < w || (w2 == w && h2 < h)) ==> !#[trigger] hits(pos, hitboxes, walls, w2, h2)
}

pub open spec fn all_wf(boxes: Seq<Aabb>) -> bool {
    forall|i: int| 0 <= i < boxes.len() ==> (#[trigger] boxes[i]).wf()
}

/// Finds the first wall, and the first hitbox against it, that overlap for
/// an entity at `pos`.
pub fn find_contact(pos: Vec3, hitboxes: &Vec<Aabb>, walls: &Vec<Aabb>) -> (r: Option<(usize, usize)>)
    requires
        pos.bounded(),
        all_wf(hitboxes@),
        all_wf(walls@),
    ensures
        r is None <==> forall|w: int, h: int| !#[trigger] hits(pos, hitboxes@, walls@, w, h),
        r matches Some((w, h)) ==> is_first_contact(pos, hitboxes@, walls@, w as int, h as int),
{
    let mut w: usize = 0;
    while w < walls.len()
        invariant
            w <= walls@.len(),
            pos.bounded(),
            all_wf(hitboxes@),
            all_wf(walls@),
            forall|w2: int, h2: int| w2 < w ==> !#[trigger] hits(pos, hitboxes@, walls@, w2, h2),
        decreases walls@.len() - w,
    {
        let mut h: usize = 0;
        while h < hitboxes.len()
            invariant
                w < walls@.len(),
                h <= hitboxes@.len(),
                pos.bounded(),
                all_wf(hitboxes@),
                all_wf(walls@),
                forall|w2: int, h2: int| w2 < w ==> !#[trigger] hits(pos, hitboxes@, walls@, w2, h2),
                forall|h2: int| h2 < h ==> !#[trigger] hits(pos, hitboxes@, walls@, w as int, h2),
            decreases hitboxes@.len() - h,
        {
            let placed_box = place_hitbox(pos, &hitboxes[h]);
            if detect_collision(&placed_box, &walls[w]) {
                assert(hits(pos, hitboxes@, walls@, w as int, h as int));
                return Some((w, h));
            }
            h = h + 1;
        }
        w = w + 1;
    }
    None
}

/// Distance covered in `dt` microseconds at `v` steps per second, rounded
/// towards 0.
pub open spec fn travel(v: int, dt: int) -> int {
    if v >= 0 {
        v * dt / (MICROS_PER_SECOND as int)
    } else {
        -((-v) * dt / (MICROS_PER_SECOND as int))
    }
}

/// Position after moving at `vel` for `dt` microseconds.
pub open spec fn moved(pos: Vec3, vel: Vec3, dt: int) -> Vec3 {
    Vec3 {
        x: (pos.x + travel(vel.x as int, dt)) as i64,
        y: (pos.y + travel(vel.y as int, dt)) as i64,
        z: (pos.z + travel(vel.z as int, dt)) as i64,
    }
}

/// Moving at `vel` for `dt` keeps the position within `COORD_LIMIT`.
pub open spec fn move_fits(pos: Vec3, vel: Vec3, dt: int) -> bool {
    &&& coord_ok(pos.x + travel(vel.x as int, dt))
    &&& coord_ok(pos.y + travel(vel.y as int, dt))
    &&& coord_ok(pos.z + travel(vel.z as int, dt))
}

fn travel_i128(v: i64, dt: u64) -> (r: i128)
    requires
        coord_ok(v as int),
    ensures
        r == travel(v as int, dt as int),
        -1_000_000_000_000 * 0x1_0000_0000_0000_0000 <= r <= 1_000_000_000_000 * 0x1_0000_0000_0000_0000,
{
    let m = MICROS_PER_SECOND as i128;
    let speed: i128 = if v >= 0 { v as i128 } else { -(v as i128) };
    let t = dt as i128;
    assert(0 <= speed * t <= 1_000_000_000_000 * 0x1_0000_0000_0000_0000) by (nonlinear_arith)
        requires
            0 <= speed <= 1_000_000_000_000,
            0 <= t < 0x1_0000_0000_0000_0000,
    ;
    let q = speed * t / m;
    if v >= 0 {
        q
    } else {
        -q
    }
}

fn move_coord(p: i64, v: i64, dt: u64) -> (r: i64)
    requires
        coord_ok(p as int),
        coord_ok(v as int),
        coord_ok(p + travel(v as int, dt as int)),
    ensures
        r == p + travel(v as int, dt as int),
{
    p + (travel_i128(v, dt) as i64)
}

/// Motion state of an entity: hitboxes relative to its position, velocity
/// in steps per second, and whether it rested on a surface after the last
/// tick.
#[derive(Debug)]
pub struct Physics {
    pub hitboxes: Vec<Aabb>,
    pub velocity: Vec3,
    pub grounded: bool,
}

impl Physics {
    pub open spec fn wf(&self) -> bool {
        all_wf(self.hitboxes@) && self.velocity.bounded()
    }
}

fn coord_move_fits(p: i64, v: i64, dt: u64) -> (r: bool)
    requires
        coord_ok(p as int),
        coord_ok(v as int),
    ensures
        r == coord_ok(p + travel(v as int, dt as int)),
{
    let np = (p as i128) + travel_i128(v, dt);
    -(COORD_LIMIT as i128) <= np && np <= COORD_LIMIT as i128
}

/// Whether the boxes are all well formed.
pub fn boxes_wf(boxes: &Vec<Aabb>) -> (r: bool)
    ensures
        r == all_wf(boxes@),
{
    let mut i: usize = 0;
    while i < boxes.len()
        invariant
            i <= boxes@.len(),
            forall|j: int| 0 <= j < i ==> (#[trigger] boxes@[j]).wf(),
        decreases boxes@.len() - i,
    {
        let b = &boxes[i];
        if !(b.center.is_bounded() && b.half.is_bounded() && b.half.x >= 0 && b.half.y >= 0
            && b.half.z >= 0) {
            return false;
        }
        i = i + 1;
    }
    true
}

/// Whether a bounded position moving at a bounded velocity for
/// `delta_time` microseconds stays within `COORD_LIMIT`.
pub fn can_move(position: Vec3, velocity: Vec3, delta_time: u64) -> (r: bool)
    ensures
        r == (position.bounded() && velocity.bounded() && move_fits(
            position,
            velocity,
            delta_time as int,
        )),
{
    position.is_bounded() && velocity.is_bounded() && coord_move_fits(
        position.x,
        velocity.x,
        delta_time,
    ) && coord_move_fits(position.y, velocity.y, delta_time) && coord_move_fits(
        position.z,
        velocity.z,
        delta_time,
    )
}

/// Whether `physics_system` may run on these arguments: the inputs are well
/// formed and the moved position stays within `COORD_LIMIT`.
pub fn can_tick(position: Vec3, physics: &Physics, walls: &Vec<Aabb>, delta_time: u64) -> (r: bool)
    ensures
        r == (position.bounded() && physics.wf() && all_wf(walls@) && move_fits(
            position,
            physics.velocity,
            delta_time as int,
        )),
{
    boxes_wf(&physics.hitboxes) && boxes_wf(walls) && can_move(position, physics.velocity, delta_time)
}

/// Position after moving at `vel` for `delta_time` microseconds.
pub fn move_position(pos: Vec3, vel: Vec3, delta_time: u64) -> (r: Vec3)
    requires
        pos.bounded(),
        vel.bounded(),
        move_fits(pos, vel, delta_time as int),
    ensures
        r == moved(pos, vel, delta_time as int),
        r.bounded(),
{
    Vec3 {
        x: move_coord(pos.x, vel.x, delta_time),
        y: move_coord(pos.y, vel.y, delta_time),
        z: move_coord(pos.z, vel.z, delta_time),
    }
}

/// Gravity for one tick: the vertical velocity drops by `GRAVITY_STEP`.
pub fn gravity_system(physics: &mut Physics)
    requires
        coord_ok(old(physics).velocity.y - GRAVITY_STEP),
    ensures
        final(physics).velocity == (Vec3 { y: (old(physics).velocity.y - GRAVITY_STEP) as i64, ..old(physics).velocity }),
        final(physics).hitboxes == old(physics).hitboxes,
        final(physics).grounded == old(physics).grounded,
{
    physics.velocity.y = physics.velocity.y - GRAVITY_STEP;
}

/// One physics tick of an entity against the walls: moves it by its
/// velocity for `delta_time` microseconds, then pushes the first hitbox
/// that overlaps a wall (first wall first) out along the direction of least
/// depth, once. `grounded` ends true exactly when that push was upwards.
pub fn physics_system(position: &mut Vec3, physics: &mut Physics, walls: &Vec<Aabb>, delta_time: u64)
    requires
        old(position).bounded(),
        old(physics).wf(),
        all_wf(walls@),
        move_fits(*old(position), old(physics).velocity, delta_time as int),
    ensures
        final(physics).hitboxes == old(physics).hitboxes,
        final(physics).wf(),
        ({
            let moved_pos = moved(*old(position), old(physics).velocity, delta_time as int);
            (forall|w: int, h: int| !#[trigger] hits(moved_pos, old(physics).hitboxes@, walls@, w, h))
                ==> {
                &&& *final(position) == moved_pos
                &&& final(physics).velocity == old(physics).velocity
                &&& !final(physics).grounded
            }
        }),
        forall|w: int, h: int|
            #[trigger] is_first_contact(
                moved(*old(position), old(physics).velocity, delta_time as int),
                old(physics).hitboxes@,
                walls@,
                w,
                h,
            ) ==> {
                let moved_pos = moved(*old(position), old(physics).velocity, delta_time as int);
                let hb = placed(moved_pos, old(physics).hitboxes@[h]);
                let p = best_push(hb, walls@[w]);
                &&& *final(position) == pushed_pos(moved_pos, p, push_depth(hb, walls@[w], p))
                &&& final(physics).velocity == pushed_vel(old(physics).velocity, p)
                &&& final(physics).grounded == (p == Push::Up)
            },
{
    let moved_pos = move_position(*position, physics.velocity, delta_time);
    *position = moved_pos;
    physics.grounded = false;
    match find_contact(moved_pos, &physics.hitboxes, walls) {
        None => {},
        Some((w, h)) => {
            let hb = place_hitbox(moved_pos, &physics.hitboxes[h]);
            let (p, d) = choose_push(&hb, &walls[w]);
            let np = match p {
                Push::Up => Vec3 { y: moved_pos.y + d, ..moved_pos },
                Push::Down => Vec3 { y: moved_pos.y - d, ..moved_pos },
                Push::Left => Vec3 { x: moved_pos.x + d, ..moved_pos },
                Push::Right => Vec3 { x: moved_pos.x - d, ..moved_pos },
                Push::Forward => Vec3 { z: moved_pos.z + d, ..moved_pos },
                Push::Back => Vec3 { z: moved_pos.z - d, ..moved_pos },
            };
            *position = np;
            physics.velocity = push_velocity(physics.velocity, p);
            physics.grounded = p == Push::Up;
            proof {
                assert forall|w2: int, h2: int|
                    #[trigger] is_first_contact(moved_pos, physics.hitboxes@, walls@, w2, h2) implies w2
                    == w && h2 == h by {
                    if w2 < w || (w2 == w && h2 < h) {
                        assert(!hits(moved_pos, physics.hitboxes@, walls@, w2, h2));
                    } else if w < w2 || (w2 == w && h < h2) {
                        assert(!hits(moved_pos, physics.hitboxes@, walls@, w as int, h as int));
                    }
                }
            }
        },
    }
}

/// One push-out leaves no overlap along the direction it was made in: the
/// moved hitbox's face meets the wall's opposite face exactly.
pub proof fn lemma_push_clears_axis(pos: Vec3, hitbox: Aabb, wall: Aabb)
    requires
        pos.bounded(),
        hitbox.wf(),
        wall.wf(),
    ensures
        ({
            let hb = placed(pos, hitbox);
            let p = best_push(hb, wall);
            push_depth(placed(pushed_pos(pos, p, push_depth(hb, wall, p)), hitbox), wall, p) == 0
        }),
{
}

/// Unit direction of a push, as (x, y, z).
pub open spec fn push_dir(p: Push) -> (int, int, int) {
    match p {
        Push::Up => (0, 1, 0),
        Push::Down => (0, -1, 0),
        Push::Left => (1, 0, 0),
        Push::Right => (-1, 0, 0),
        Push::Forward => (0, 0, 1),
        Push::Back => (0, 0, -1),
    }
}

/// On a tick that resolves its first contact `(w, h)`, every candidate depth
/// is non-negative, the chosen one is the least (the earliest in rank order
/// among equals), and the entity moves by exactly that depth along the
/// chosen direction from where its velocity took it.
pub proof fn lemma_tick_push_is_shallowest(
    pos: Vec3,
    vel: Vec3,
    hitboxes: Seq<Aabb>,
    walls: Seq<Aabb>,
    dt: int,
    w: int,
    h: int,
)
    requires
        pos.bounded(),
        vel.bounded(),
        all_wf(hitboxes),
        all_wf(walls),
        move_fits(pos, vel, dt),
        is_first_contact(moved(pos, vel, dt), hitboxes, walls, w, h),
    ensures
        ({
            let m = moved(pos, vel, dt);
            let hb = placed(m, hitboxes[h]);
            let p = best_push(hb, walls[w]);
            let d = push_depth(hb, walls[w], p);
            let after = pushed_pos(m, p, d);
            &&& forall|q: Push| 0 <= #[trigger] push_depth(hb, walls[w], q)
            &&& forall|q: Push| d <= #[trigger] push_depth(hb, walls[w], q)
            &&& forall|q: Push| push_rank(q) < push_rank(p) ==> d < #[trigger] push_depth(hb, walls[w], q)
            &&& after.x == m.x + push_dir(p).0 * d
            &&& after.y == m.y + push_dir(p).1 * d
            &&& after.z == m.z + push_dir(p).2 * d
        }),
{
    let m = moved(pos, vel, dt);
    let hb = placed(m, hitboxes[h]);
    assert(hitboxes[h].wf());
    assert(walls[w].wf());
    lemma_best_push_is_shallowest(hb, walls[w]);
}

/// On a tick that resolves its first contact `(w, h)`, the resolved hitbox
/// ends with no overlap along the direction of the push: its face meets the
/// wall's opposite face exactly.
pub proof fn lemma_tick_clears_resolved_axis(
    pos: Vec3,
    vel: Vec3,
    hitboxes: Seq<Aabb>,
    walls: Seq<Aabb>,
    dt: int,
    w: int,
    h: int,
)
    requires
        pos.bounded(),
        vel.bounded(),
        all_wf(hitboxes),
        all_wf(walls),
        move_fits(pos, vel, dt),
        is_first_contact(moved(pos, vel, dt), hitboxes, walls, w, h),
    ensures
        ({
            let m = moved(pos, vel, dt);
            let hb = placed(m, hitboxes[h]);
            let p = best_push(hb, walls[w]);
            let after = placed(pushed_pos(m, p, push_depth(hb, walls[w], p)), hitboxes[h]);
            &&& push_depth(after, walls[w], p) == 0
            &&& p == Push::Up ==> after.center.y - after.half.y == walls[w].center.y + walls[w].half.y
            &&& p == Push::Down ==> after.center.y + after.half.y == walls[w].center.y - walls[w].half.y
            &&& p == Push::Left ==> after.center.x - after.half.x == walls[w].center.x + walls[w].half.x
            &&& p == Push::Right ==> after.center.x + after.half.x == walls[w].center.x - walls[w].half.x
            &&& p == Push::Forward ==> after.center.z - after.half.z == walls[w].center.z + walls[w].half.z
            &&& p == Push::Back ==> after.center.z + after.half.z == walls[w].center.z - walls[w].half.z
        }),
{
    let m = moved(pos, vel, dt);
    assert(hitboxes[h].wf());
    assert(walls[w].wf());
    lemma_push_clears_axis(m, hitboxes[h], walls[w]);
}

/// A tick whose first contact is shallowest from above lands the entity:
/// it ends grounded, resting with the hitbox's bottom on the wall's top,
/// unmoved horizontally from where its velocity took it, and no longer
/// falling.
pub proof fn lemma_tick_landing(
    pos: Vec3,
    vel: Vec3,
    hitboxes: Seq<Aabb>,
    walls: Seq<Aabb>,
    dt: int,
    w: int,
    h: int,
)
    requires
        pos.bounded(),
        vel.bounded(),
        all_wf(hitboxes),
        all_wf(walls),
        move_fits(pos, vel, dt),
        is_first_contact(moved(pos, vel, dt), hitboxes, walls, w, h),
        best_push(placed(moved(pos, vel, dt), hitboxes[h]), walls[w]) == Push::Up,
    ensures
        ({
            let m = moved(pos, vel, dt);
            let hb = placed(m, hitboxes[h]);
            let after = pushed_pos(m, Push::Up, push_depth(hb, walls[w], Push::Up));
            &&& after.y + hitboxes[h].center.y - hitboxes[h].half.y == walls[w].center.y + walls[w].half.y
            &&& after.x == m.x
            &&& after.z == m.z
            &&& pushed_vel(vel, Push::Up).y >= 0
        }),
{
    assert(hitboxes[h].wf());
    assert(walls[w].wf());
}

} // verus!
