//! Keyframed limb animation: movement states, their keyframe tables, and the
//! per-limb interpolation segments.
use vstd::prelude::*;
use crate::geom::{Vec3, coord_ok};
use crate::physics::Physics;

verus! {

/// Number of animated limbs per skeleton.
pub const NUM_LIMBS: usize = 4;

/// Numbers per keyframe: three coordinates for each limb.
pub const FRAME_STRIDE: usize = 12;

/// Which side of the body a limb is on.
#[derive(Clone, Copy, Debug, PartialEq, Eq, Structural)]
pub enum Pos {
    Left,
    Right,
}

/// One of the four animated limbs.
#[derive(Clone, Copy, Debug, PartialEq, Eq, Structural)]
pub enum Limb {
    Arm(Pos),
    Leg(Pos),
}

/// Slot of a limb within a keyframe: left arm, right arm, left leg, right leg.
pub open spec fn limb_slot(limb: Limb) -> int {
    match limb {
        Limb::Arm(Pos::Left) => 0,
        Limb::Arm(Pos::Right) => 1,
        Limb::Leg(Pos::Left) => 2,
        Limb::Leg(Pos::Right) => 3,
    }
}

/// Slot of a limb within a keyframe.
pub fn limb_index(limb: Limb) -> (r: usize)
    ensures
        r == limb_slot(limb),
        r < NUM_LIMBS,
{
    match limb {
        Limb::Arm(Pos::Left) => 0,
        Limb::Arm(Pos::Right) => 1,
        Limb::Leg(Pos::Left) => 2,
        Limb::Leg(Pos::Right) => 3,
    }
}

/// Discrete movement state of a skeleton.
#[derive(Clone, Copy, Debug, PartialEq, Eq, Structural)]
pub enum PlayerState {
    Idle,
    Walking,
    Running,
    Jumping,
    Spin,
}

/// The keyframe table of a state, in steps: `frame_count` frames, each
/// holding the x, y, z targets of the left arm, right arm, left leg and
/// right leg in that order.
pub open spec fn anim_table(state: PlayerState) -> Seq<int> {
    match state {
        PlayerState::Idle => seq![
            -900, -3100, 100,
            700, -3200, -400,
            -500, -5900, -100,
            500, -5900, 0,
        ],
        PlayerState::Walking => seq![
            -600, -3100, -600,
            1200, -2900, 500,
            -700, -5800, 400,
            900, -5700, -400,

            -700, -2900, 900,
            1100, -2900, -700,
            -700, -5800, -500,
            900, -5600, 600,
        ],
        PlayerState::Running => seq![
            -1100, -2900, -600,
            1100, -2900, 400,
            -900, -5700, -400,
            1000, -5700, 400,

            -900, -2900, 900,
            900, -2900, -800,
            -800, -5700, 500,
            600, -5700, -900,

            -1600, -2400, -700,
            1400, -2300, 900,
            -500, -5500, -1100,
            600, -5500, 1100,

            -1200, -2500, 900,
            1200, -2800, -700,
            -800, -5400, 1100,
            700, -5300, -1300,
        ],
        PlayerState::Jumping => seq![
            -1800, -2100, 400,
            1900, -1300, 400,
            -600, -5500, -1100,
            1000, -5400, 1000,
        ],
        PlayerState::Spin => seq![
            -1800, -1600, -600,
            1900, -1200, 500,
            0, -5900, 300,
            1800, -4500, -400,
        ],
    }
}

/// Number of keyframes of a state.
pub open spec fn frame_count(state: PlayerState) -> nat {
    match state {
        PlayerState::Idle => 1,
        PlayerState::Walking => 2,
        PlayerState::Running => 4,
        PlayerState::Jumping => 1,
        PlayerState::Spin => 1,
    }
}

/// Microseconds that one frame-to-frame transition of a state takes.
pub open spec fn anim_duration(state: PlayerState) -> u64 {
    match state {
        PlayerState::Idle => 1_000_000,
        PlayerState::Walking => 300_000,
        PlayerState::Running => 1_000_000,
        PlayerState::Jumping => 800_000,
        PlayerState::Spin => 1_000_000,
    }
}

/// The authored target of `limb` in frame `frame` of `state`.
pub open spec fn target_pos(state: PlayerState, limb: Limb, frame: int) -> Vec3 {
    let t = anim_table(state);
    let base = frame * FRAME_STRIDE + limb_slot(limb) * 3;
    Vec3 { x: t[base] as i64, y: t[base + 1] as i64, z: t[base + 2] as i64 }
}

/// Every table holds exactly one entry per limb coordinate of each frame,
/// and each entry is a small coordinate.
pub proof fn lemma_table_shape(state: PlayerState)
    ensures
        anim_table(state).len() == frame_count(state) * FRAME_STRIDE,
        frame_count(state) >= 1,
        anim_duration(state) > 0,
        forall|i: int|
            0 <= i < anim_table(state).len() ==> -10_000 <= #[trigger] anim_table(state)[i]
                <= 10_000,
{
}

/// `target_pos` reads the flat table at `frame * 12 + slot * 3`, then the
/// next two entries, for every frame of the state and every limb.
pub proof fn lemma_target_pos_layout(state: PlayerState, limb: Limb, frame: int)
    requires
        0 <= frame < frame_count(state),
    ensures
        0 <= frame * 12 + limb_slot(limb) * 3,
        frame * 12 + limb_slot(limb) * 3 + 2 < anim_table(state).len(),
        target_pos(state, limb, frame).x == anim_table(state)[frame * 12 + limb_slot(limb) * 3],
        target_pos(state, limb, frame).y == anim_table(state)[frame * 12 + limb_slot(limb) * 3 + 1],
        target_pos(state, limb, frame).z == anim_table(state)[frame * 12 + limb_slot(limb) * 3 + 2],
{
    lemma_table_shape(state);
    let base = frame * 12 + limb_slot(limb) * 3;
    assert(0 <= base && base + 2 < anim_table(state).len()) by (nonlinear_arith)
        requires
            0 <= frame < frame_count(state),
            0 <= limb_slot(limb) < 4,
            base == frame * 12 + limb_slot(limb) * 3,
            anim_table(state).len() == frame_count(state) * 12,
    ;
}

/// Every authored target is a bounded point.
pub proof fn lemma_target_bounded(state: PlayerState, limb: Limb, frame: int)
    requires
        0 <= frame < frame_count(state),
    ensures
        target_pos(state, limb, frame).bounded(),
{
    lemma_table_shape(state);
    lemma_target_pos_layout(state, limb, frame);
}

impl Default for PlayerState {
    fn default() -> (r: PlayerState)
        ensures
            r == PlayerState::Idle,
    {
        PlayerState::Idle
    }
}

impl PlayerState {
    /// The keyframe table of this state.
    pub fn get_anim_slice(&self) -> (r: Vec<i64>)
        ensures
            r@.len() == anim_table(*self).len(),
            forall|i: int| 0 <= i < r@.len() ==> r@[i] as int == #[trigger] anim_table(*self)[i],
    {
        let r: Vec<i64> = match self {
            PlayerState::Idle => vec![
                -900, -3100, 100,
                700, -3200, -400,
                -500, -5900, -100,
                500, -5900, 0,
            ],
            PlayerState::Walking => vec![
                -600, -3100, -600,
                1200, -2900, 500,
                -700, -5800, 400,
                900, -5700, -400,

                -700, -2900, 900,
                1100, -2900, -700,
                -700, -5800, -500,
                900, -5600, 600,
            ],
            PlayerState::Running => vec![
                -1100, -2900, -600,
                1100, -2900, 400,
                -900, -5700, -400,
                1000, -5700, 400,

                -900, -2900, 900,
                900, -2900, -800,
                -800, -5700, 500,
                600, -5700, -900,

                -1600, -2400, -700,
                1400, -2300, 900,
                -500, -5500, -1100,
                600, -5500, 1100,

                -1200, -2500, 900,
                1200, -2800, -700,
                -800, -5400, 1100,
                700, -5300, -1300,
            ],
            PlayerState::Jumping => vec![
                -1800, -2100, 400,
                1900, -1300, 400,
                -600, -5500, -1100,
                1000, -5400, 1000,
            ],
            PlayerState::Spin => vec![
                -1800, -1600, -600,
                1900, -1200, 500,
                0, -5900, 300,
                1800, -4500, -400,
            ],
        };
        assert(r@.map_values(|v: i64| v as int) =~= anim_table(*self));
        r
    }

    pub fn get_anim_num_frames(&self) -> (r: usize)
        ensures
            r == frame_count(*self),
    {
        match self {
            PlayerState::Idle => 1,
            PlayerState::Walking => 2,
            PlayerState::Running => 4,
            PlayerState::Jumping => 1,
            PlayerState::Spin => 1,
        }
    }

    /// Duration of one frame-to-frame transition, in microseconds.
    pub fn get_anim_time(&self) -> (r: u64)
        ensures
            r == anim_duration(*self),
            r > 0,
    {
        match self {
            PlayerState::Idle => 1_000_000,
            PlayerState::Walking => 300_000,
            PlayerState::Running => 1_000_000,
            PlayerState::Jumping => 800_000,
            PlayerState::Spin => 1_000_000,
        }
    }
}

/// Target position of `limb` in keyframe `index` of `anim`, read from the
/// flat table at `index * 12 + slot * 3`.
pub fn get_target_pos(anim: PlayerState, limb: Limb, index: usize) -> (r: Vec3)
    requires
        index < frame_count(anim),
    ensures
        r == target_pos(anim, limb, index as int),
{
    let table = anim.get_anim_slice();
    proof {
        lemma_table_shape(anim);
        lemma_target_pos_layout(anim, limb, index as int);
    }
    let base = index * FRAME_STRIDE + limb_index(limb) * 3;
    Vec3 { x: table[base], y: table[base + 1], z: table[base + 2] }
}

/// Fixed-point representation of the fraction 1.0 of an interpolation segment.
pub const FRACTION_ONE: u64 = 1_000_000;

/// Linear interpolation of one coordinate from `s` (at `t == 0`) to `e`
/// (at `t == FRACTION_ONE`), rounding towards `s`.
pub open spec fn lerp_coord(s: int, e: int, t: int) -> int {
    if s <= e {
        s + (e - s) * t / (FRACTION_ONE as int)
    } else {
        s - (s - e) * t / (FRACTION_ONE as int)
    }
}

/// Component-wise linear interpolation between two points.
pub open spec fn lerp(s: Vec3, e: Vec3, t: int) -> Vec3 {
    Vec3 {
        x: lerp_coord(s.x as int, e.x as int, t) as i64,
        y: lerp_coord(s.y as int, e.y as int, t) as i64,
        z: lerp_coord(s.z as int, e.z as int, t) as i64,
    }
}

/// Interpolating (or, past fraction 1, extrapolating) from `s` towards `e`
/// at fraction `t` gives coordinates within `COORD_LIMIT`.
pub open spec fn lerp_fits(s: Vec3, e: Vec3, t: int) -> bool {
    &&& coord_ok(lerp_coord(s.x as int, e.x as int, t))
    &&& coord_ok(lerp_coord(s.y as int, e.y as int, t))
    &&& coord_ok(lerp_coord(s.z as int, e.z as int, t))
}

/// For a fraction in `[0, 1]` the interpolated coordinate lies between the
/// two ends.
pub proof fn lemma_lerp_coord_between(s: int, e: int, t: int)
    requires
        0 <= t <= FRACTION_ONE,
    ensures
        s <= e ==> s <= lerp_coord(s, e, t) <= e,
        e < s ==> e <= lerp_coord(s, e, t) <= s,
{
    let one = FRACTION_ONE as int;
    let d = if s <= e { e - s } else { s - e };
    assert(0 <= d * t / one <= d) by (nonlinear_arith)
        requires
            0 <= d,
            0 <= t <= one,
            one == 1_000_000,
    {
        assert(d * t <= d * one);
        assert(d * one / one == d);
    }
}

/// Interpolating between bounded points with a fraction in `[0, 1]` gives a
/// bounded point.
pub proof fn lemma_lerp_bounded(s: Vec3, e: Vec3, t: int)
    requires
        s.bounded(),
        e.bounded(),
        0 <= t <= FRACTION_ONE,
    ensures
        lerp_fits(s, e, t),
        lerp(s, e, t).bounded(),
        lerp(s, e, t).x == lerp_coord(s.x as int, e.x as int, t),
        lerp(s, e, t).y == lerp_coord(s.y as int, e.y as int, t),
        lerp(s, e, t).z == lerp_coord(s.z as int, e.z as int, t),
{
    lemma_lerp_coord_between(s.x as int, e.x as int, t);
    lemma_lerp_coord_between(s.y as int, e.y as int, t);
    lemma_lerp_coord_between(s.z as int, e.z as int, t);
}

/// Interpolation reproduces its start at fraction 0 and its end at
/// fraction 1.
pub proof fn lemma_lerp_endpoints(s: Vec3, e: Vec3)
    ensures
        lerp(s, e, 0) == s,
        lerp(s, e, FRACTION_ONE as int) == e,
{
    let one = FRACTION_ONE as int;
    assert forall|a: int| #![trigger a * one / one] a * one / one == a by {
        assert(a * one / one == a) by (nonlinear_arith)
            requires
                one == 1_000_000,
        ;
    }
    assert((e.x - s.x) * one / one == e.x - s.x);
    assert((s.x - e.x) * one / one == s.x - e.x);
    assert((e.y - s.y) * one / one == e.y - s.y);
    assert((s.y - e.y) * one / one == s.y - e.y);
    assert((e.z - s.z) * one / one == e.z - s.z);
    assert((s.z - e.z) * one / one == s.z - e.z);
}

fn lerp_i128(s: i64, e: i64, t: u64) -> (r: i128)
    requires
        coord_ok(s as int),
        coord_ok(e as int),
    ensures
        r == lerp_coord(s as int, e as int, t as int),
{
    let tt = t as i128;
    let one = FRACTION_ONE as i128;
    if s <= e {
        let d = (e as i128) - (s as i128);
        assert(0 <= d * tt <= 2_000_000_000_000 * 0x1_0000_0000_0000_0000) by (nonlinear_arith)
            requires
                0 <= d <= 2_000_000_000_000,
                0 <= tt < 0x1_0000_0000_0000_0000,
        ;
        (s as i128) + d * tt / one
    } else {
        let d = (s as i128) - (e as i128);
        assert(0 <= d * tt <= 2_000_000_000_000 * 0x1_0000_0000_0000_0000) by (nonlinear_arith)
            requires
                0 <= d <= 2_000_000_000_000,
                0 <= tt < 0x1_0000_0000_0000_0000,
        ;
        (s as i128) - d * tt / one
    }
}

fn lerp_i64(s: i64, e: i64, t: u64) -> (r: i64)
    requires
        coord_ok(s as int),
        coord_ok(e as int),
        coord_ok(lerp_coord(s as int, e as int, t as int)),
    ensures
        r == lerp_coord(s as int, e as int, t as int),
{
    lerp_i128(s, e, t) as i64
}

fn lerp_coord_fits(s: i64, e: i64, t: u64) -> (r: bool)
    requires
        coord_ok(s as int),
        coord_ok(e as int),
    ensures
        r == coord_ok(lerp_coord(s as int, e as int, t as int)),
{
    let v = lerp_i128(s, e, t);
    -1_000_000_000_000 <= v && v <= 1_000_000_000_000
}

/// Component-wise interpolation of two bounded points; past fraction 1 it
/// extrapolates beyond `e`.
pub fn lerp_vec(s: Vec3, e: Vec3, t: u64) -> (r: Vec3)
    requires
        s.bounded(),
        e.bounded(),
        lerp_fits(s, e, t as int),
    ensures
        r == lerp(s, e, t as int),
        r.bounded(),
{
    Vec3 { x: lerp_i64(s.x, e.x, t), y: lerp_i64(s.y, e.y, t), z: lerp_i64(s.z, e.z, t) }
}

/// Whether `lerp_vec(s, e, t)` stays within `COORD_LIMIT`.
pub fn lerp_vec_fits(s: Vec3, e: Vec3, t: u64) -> (r: bool)
    requires
        s.bounded(),
        e.bounded(),
    ensures
        r == lerp_fits(s, e, t as int),
{
    lerp_coord_fits(s.x, e.x, t) && lerp_coord_fits(s.y, e.y, t) && lerp_coord_fits(s.z, e.z, t)
}

/// The interpolation segment a limb is currently on.
#[derive(Clone, Copy, Debug, PartialEq, Eq, Structural)]
pub struct AnimPos {
    pub start_pos: Vec3,
    pub end_pos: Vec3,
}

impl AnimPos {
    pub open spec fn wf(self) -> bool {
        self.start_pos.bounded() && self.end_pos.bounded()
    }

    /// The segment that starts where this one is at fraction `t` and ends at
    /// the target of `limb` in frame `index` of `anim`.
    pub open spec fn retargeted(self, anim: PlayerState, limb: Limb, t: int, index: int) -> AnimPos {
        AnimPos {
            start_pos: lerp(self.start_pos, self.end_pos, t),
            end_pos: target_pos(anim, limb, index),
        }
    }

    /// Position on the segment at fraction `amount_through`.
    pub fn calc_curr_pos(&self, amount_through: u64) -> (r: Vec3)
        requires
            self.wf(),
            lerp_fits(self.start_pos, self.end_pos, amount_through as int),
        ensures
            r == lerp(self.start_pos, self.end_pos, amount_through as int),
            r.bounded(),
    {
        lerp_vec(self.start_pos, self.end_pos, amount_through)
    }

    /// Whether the position at fraction `amount_through` is within
    /// `COORD_LIMIT`.
    pub fn fits_at(&self, amount_through: u64) -> (r: bool)
        requires
            self.wf(),
        ensures
            r == lerp_fits(self.start_pos, self.end_pos, amount_through as int),
    {
        lerp_vec_fits(self.start_pos, self.end_pos, amount_through)
    }

    /// Starts a new segment at the current position (fraction
    /// `amount_through`) towards the target of `limb` in frame `index` of
    /// `anim`.
    pub fn change_pos(&mut self, anim: PlayerState, limb: Limb, amount_through: u64, index: usize)
        requires
            old(self).wf(),
            lerp_fits(old(self).start_pos, old(self).end_pos, amount_through as int),
            index < frame_count(anim),
        ensures
            *final(self) == old(self).retargeted(anim, limb, amount_through as int, index as int),
            final(self).wf(),
    {
        let start = self.calc_curr_pos(amount_through);
        let end = get_target_pos(anim, limb, index);
        proof { lemma_target_bounded(anim, limb, index as int); }
        self.start_pos = start;
        self.end_pos = end;
    }

    /// A segment resting on the first keyframe of `anim`.
    pub fn default_from_limb(limb: Limb, anim: PlayerState) -> (r: AnimPos)
        ensures
            r.start_pos == target_pos(anim, limb, 0),
            r.end_pos == target_pos(anim, limb, 0),
            r.wf(),
    {
        proof { lemma_table_shape(anim); lemma_target_bounded(anim, limb, 0); }
        let pos = get_target_pos(anim, limb, 0);
        AnimPos { start_pos: pos, end_pos: pos }
    }
}

/// The frame that follows `index` in `state`, wrapping to 0 after the last.
pub open spec fn next_frame(state: PlayerState, index: int) -> int {
    if index + 1 >= frame_count(state) {
        0
    } else {
        index + 1
    }
}

/// Fraction of a segment that `delta_time` microseconds cover when a
/// segment takes `time_takes`, out of `FRACTION_ONE`.
pub open spec fn time_fraction(delta_time: int, time_takes: int) -> int {
    delta_time * FRACTION_ONE / time_takes
}

/// Animation driver of one skeleton.
#[derive(Clone, Copy, Debug, PartialEq, Eq, Structural)]
pub struct AnimInfo {
    /// Microseconds per frame-to-frame transition.
    pub time_takes: u64,
    /// Fraction through the current segment, out of `FRACTION_ONE`; after a
    /// tick longer than a segment it may exceed one.
    pub amount_through: u64,
    /// Current keyframe.
    pub index: usize,
    pub anim: PlayerState,
}

impl AnimInfo {
    pub open spec fn wf(self) -> bool {
        &&& self.time_takes > 0
        &&& self.index < frame_count(self.anim)
    }

    /// Adding `delta_time` keeps the fraction within `u64`.
    pub open spec fn time_fits(self, delta_time: int) -> bool {
        self.amount_through + time_fraction(delta_time, self.time_takes as int) <= u64::MAX
    }

    /// Whether adding `delta_time` ends the current segment.
    pub open spec fn wraps(self, delta_time: int) -> bool {
        self.amount_through + time_fraction(delta_time, self.time_takes as int) > FRACTION_ONE
    }

    /// The driver after `delta_time` microseconds.
    pub open spec fn advanced(self, delta_time: int) -> AnimInfo {
        let a = self.amount_through + time_fraction(delta_time, self.time_takes as int);
        if a > FRACTION_ONE {
            AnimInfo {
                amount_through: (a - FRACTION_ONE) as u64,
                index: next_frame(self.anim, self.index as int) as usize,
                ..self
            }
        } else {
            AnimInfo { amount_through: a as u64, ..self }
        }
    }

    /// The driver just after switching to `new_anim`: on the last frame, at
    /// the start of the segment, timed by the new state.
    pub open spec fn switched(new_anim: PlayerState) -> AnimInfo {
        AnimInfo {
            time_takes: anim_duration(new_anim),
            amount_through: 0,
            index: (frame_count(new_anim) - 1) as usize,
            anim: new_anim,
        }
    }

    /// A driver for `anim` at the end of a segment on frame 0, so that the
    /// first tick moves on to the next frame.
    pub fn starting(anim: PlayerState) -> (r: AnimInfo)
        ensures
            r == (AnimInfo {
                time_takes: anim_duration(anim),
                amount_through: FRACTION_ONE,
                index: 0,
                anim,
            }),
            r.wf(),
    {
        AnimInfo { time_takes: anim.get_anim_time(), amount_through: FRACTION_ONE, index: 0, anim }
    }

    fn fraction_after(&self, delta_time: u64) -> (r: u128)
        requires
            self.wf(),
        ensures
            r == self.amount_through + time_fraction(delta_time as int, self.time_takes as int),
    {
        let p = (delta_time as u128) * (FRACTION_ONE as u128);
        let q = p / (self.time_takes as u128);
        assert(q <= p) by (nonlinear_arith)
            requires
                q as int == (p as int) / (self.time_takes as int),
                self.time_takes >= 1,
                p >= 0,
        ;
        (self.amount_through as u128) + q
    }

    /// Whether `add_time(delta_time)` keeps the fraction within `u64`.
    pub fn can_add_time(&self, delta_time: u64) -> (r: bool)
        requires
            self.wf(),
        ensures
            r == self.time_fits(delta_time as int),
    {
        self.fraction_after(delta_time) <= u64::MAX as u128
    }

    /// Adds `delta_time / time_takes` of a segment; if the fraction then
    /// exceeds one, it drops by one and the frame advances (cyclically), and
    /// the result is true.
    pub fn add_time(&mut self, delta_time: u64) -> (r: bool)
        requires
            old(self).wf(),
            old(self).time_fits(delta_time as int),
        ensures
            r == old(self).wraps(delta_time as int),
            *final(self) == old(self).advanced(delta_time as int),
            final(self).wf(),
    {
        let a = self.fraction_after(delta_time) as u64;
        if a > FRACTION_ONE {
            self.amount_through = a - FRACTION_ONE;
            self.index = if self.index + 1 >= self.anim.get_anim_num_frames() {
                0
            } else {
                self.index + 1
            };
            true
        } else {
            self.amount_through = a;
            false
        }
    }

    /// Switches to `new_anim`.
    pub fn change_anim(&mut self, new_anim: PlayerState)
        ensures
            *final(self) == AnimInfo::switched(new_anim),
            final(self).wf(),
    {
        proof { lemma_table_shape(new_anim); }
        self.index = new_anim.get_anim_num_frames() - 1;
        self.amount_through = 0;
        self.time_takes = new_anim.get_anim_time();
        self.anim = new_anim;
    }
}

/// Squared speed above which a grounded skeleton runs, in steps squared
/// per second squared (3.0 units squared).
pub const RUN_SPEED_SQ: i128 = 3_000_000;

/// Squared speed above which a grounded skeleton walks (0.5 units squared).
pub const WALK_SPEED_SQ: i128 = 500_000;

pub open spec fn speed_sq(v: Vec3) -> int {
    v.x * v.x + v.y * v.y + v.z * v.z
}

/// The movement state that velocity `v` and the grounded flag call for.
pub open spec fn select_state(v: Vec3, grounded: bool) -> PlayerState {
    if !grounded {
        PlayerState::Jumping
    } else if speed_sq(v) > RUN_SPEED_SQ {
        PlayerState::Running
    } else if speed_sq(v) > WALK_SPEED_SQ {
        PlayerState::Walking
    } else {
        PlayerState::Idle
    }
}

/// The movement state for a velocity and grounded flag: airborne is
/// jumping; on the ground, running above `RUN_SPEED_SQ`, walking above
/// `WALK_SPEED_SQ`, idle otherwise.
pub fn choose_state(velocity: Vec3, grounded: bool) -> (r: PlayerState)
    requires
        velocity.bounded(),
    ensures
        r == select_state(velocity, grounded),
{
    if !grounded {
        return PlayerState::Jumping;
    }
    let x = velocity.x as i128;
    let y = velocity.y as i128;
    let z = velocity.z as i128;
    assert(x * x <= 1_000_000_000_000_000_000_000_000) by (nonlinear_arith)
        requires
            -1_000_000_000_000 <= x <= 1_000_000_000_000,
    ;
    assert(y * y <= 1_000_000_000_000_000_000_000_000) by (nonlinear_arith)
        requires
            -1_000_000_000_000 <= y <= 1_000_000_000_000,
    ;
    assert(z * z <= 1_000_000_000_000_000_000_000_000) by (nonlinear_arith)
        requires
            -1_000_000_000_000 <= z <= 1_000_000_000_000,
    ;
    assert(0 <= x * x && 0 <= y * y && 0 <= z * z) by (nonlinear_arith);
    let speed = x * x + y * y + z * z;
    if speed > RUN_SPEED_SQ {
        PlayerState::Running
    } else if speed > WALK_SPEED_SQ {
        PlayerState::Walking
    } else {
        PlayerState::Idle
    }
}

/// Positions of the four limbs, in the skeleton's local space.
#[derive(Clone, Copy, Debug, PartialEq, Eq, Structural)]
pub struct Pose {
    pub left_arm: Vec3,
    pub right_arm: Vec3,
    pub left_leg: Vec3,
    pub right_leg: Vec3,
}

/// One animated character: its animation driver and the segment of each
/// limb.
#[derive(Clone, Copy, Debug, PartialEq, Eq, Structural)]
pub struct Skeleton {
    pub info: AnimInfo,
    pub left_arm: AnimPos,
    pub right_arm: AnimPos,
    pub left_leg: AnimPos,
    pub right_leg: AnimPos,
}

impl Skeleton {
    pub open spec fn wf(self) -> bool {
        &&& self.info.wf()
        &&& self.left_arm.wf()
        &&& self.right_arm.wf()
        &&& self.left_leg.wf()
        &&& self.right_leg.wf()
    }

    /// The segment of `limb`.
    pub open spec fn limb(self, limb: Limb) -> AnimPos {
        match limb {
            Limb::Arm(Pos::Left) => self.left_arm,
            Limb::Arm(Pos::Right) => self.right_arm,
            Limb::Leg(Pos::Left) => self.left_leg,
            Limb::Leg(Pos::Right) => self.right_leg,
        }
    }

    /// Where `limb` is drawn now.
    pub open spec fn rendered(self, limb: Limb) -> Vec3 {
        lerp(self.limb(limb).start_pos, self.limb(limb).end_pos, self.info.amount_through as int)
    }

    /// Every limb is drawn within `COORD_LIMIT`.
    pub open spec fn pose_fits(self) -> bool {
        forall|limb: Limb|
            lerp_fits(
                #[trigger] self.limb(limb).start_pos,
                self.limb(limb).end_pos,
                self.info.amount_through as int,
            )
    }

    pub open spec fn pose(self) -> Pose {
        Pose {
            left_arm: self.rendered(Limb::Arm(Pos::Left)),
            right_arm: self.rendered(Limb::Arm(Pos::Right)),
            left_leg: self.rendered(Limb::Leg(Pos::Left)),
            right_leg: self.rendered(Limb::Leg(Pos::Right)),
        }
    }

    /// Every limb starts a new segment at fraction `t` of its current one,
    /// towards its target in frame `index` of `anim`.
    pub open spec fn retarget_all(self, anim: PlayerState, t: int, index: int) -> Skeleton {
        Skeleton {
            info: self.info,
            left_arm: self.left_arm.retargeted(anim, Limb::Arm(Pos::Left), t, index),
            right_arm: self.right_arm.retargeted(anim, Limb::Arm(Pos::Right), t, index),
            left_leg: self.left_leg.retargeted(anim, Limb::Leg(Pos::Left), t, index),
            right_leg: self.right_leg.retargeted(anim, Limb::Leg(Pos::Right), t, index),
        }
    }

    /// The skeleton after state selection for velocity `v` and flag
    /// `grounded`: unchanged if the state stays; otherwise every limb starts
    /// from where it is drawn towards frame 0 of the new state, and the
    /// driver restarts for the new state.
    pub open spec fn after_choose(self, v: Vec3, grounded: bool) -> Skeleton {
        let s = select_state(v, grounded);
        if s == self.info.anim {
            self
        } else {
            Skeleton {
                info: AnimInfo::switched(s),
                ..self.retarget_all(s, self.info.amount_through as int, 0)
            }
        }
    }

    /// The skeleton after `dt` microseconds: the driver advances; when its
    /// segment ends every limb goes on from the end of its segment towards
    /// the new frame.
    pub open spec fn after_update(self, dt: int) -> Skeleton {
        let info = self.info.advanced(dt);
        if self.info.wraps(dt) {
            Skeleton { info, ..self.retarget_all(self.info.anim, FRACTION_ONE as int, info.index as int) }
        } else {
            Skeleton { info, ..self }
        }
    }

    /// A skeleton driven by `anim` whose limbs rest on the first idle
    /// keyframe.
    pub fn new(anim: PlayerState) -> (r: Skeleton)
        ensures
            r.info == (AnimInfo {
                time_takes: anim_duration(anim),
                amount_through: FRACTION_ONE,
                index: 0,
                anim,
            }),
            forall|limb: Limb|
                #[trigger] r.limb(limb) == (AnimPos {
                    start_pos: target_pos(PlayerState::Idle, limb, 0),
                    end_pos: target_pos(PlayerState::Idle, limb, 0),
                }),
            r.wf(),
    {
        Skeleton {
            info: AnimInfo::starting(anim),
            left_arm: AnimPos::default_from_limb(Limb::Arm(Pos::Left), PlayerState::Idle),
            right_arm: AnimPos::default_from_limb(Limb::Arm(Pos::Right), PlayerState::Idle),
            left_leg: AnimPos::default_from_limb(Limb::Leg(Pos::Left), PlayerState::Idle),
            right_leg: AnimPos::default_from_limb(Limb::Leg(Pos::Right), PlayerState::Idle),
        }
    }

    fn retarget_limbs(&mut self, anim: PlayerState, amount_through: u64, index: usize)
        requires
            old(self).wf(),
            forall|limb: Limb|
                lerp_fits(
                    #[trigger] old(self).limb(limb).start_pos,
                    old(self).limb(limb).end_pos,
                    amount_through as int,
                ),
            index < frame_count(anim),
        ensures
            *final(self) == old(self).retarget_all(anim, amount_through as int, index as int),
            final(self).wf(),
    {
        assert(lerp_fits(self.limb(Limb::Arm(Pos::Left)).start_pos, self.left_arm.end_pos, amount_through as int));
        assert(lerp_fits(self.limb(Limb::Arm(Pos::Right)).start_pos, self.right_arm.end_pos, amount_through as int));
        assert(lerp_fits(self.limb(Limb::Leg(Pos::Left)).start_pos, self.left_leg.end_pos, amount_through as int));
        assert(lerp_fits(self.limb(Limb::Leg(Pos::Right)).start_pos, self.right_leg.end_pos, amount_through as int));
        self.left_arm.change_pos(anim, Limb::Arm(Pos::Left), amount_through, index);
        self.right_arm.change_pos(anim, Limb::Arm(Pos::Right), amount_through, index);
        self.left_leg.change_pos(anim, Limb::Leg(Pos::Left), amount_through, index);
        self.right_leg.change_pos(anim, Limb::Leg(Pos::Right), amount_through, index);
    }

    /// The drawn positions of the four limbs.
    pub fn current_pose(&self) -> (r: Pose)
        requires
            self.wf(),
            self.pose_fits(),
        ensures
            r == self.pose(),
    {
        let t = self.info.amount_through;
        assert(lerp_fits(self.limb(Limb::Arm(Pos::Left)).start_pos, self.left_arm.end_pos, t as int));
        assert(lerp_fits(self.limb(Limb::Arm(Pos::Right)).start_pos, self.right_arm.end_pos, t as int));
        assert(lerp_fits(self.limb(Limb::Leg(Pos::Left)).start_pos, self.left_leg.end_pos, t as int));
        assert(lerp_fits(self.limb(Limb::Leg(Pos::Right)).start_pos, self.right_leg.end_pos, t as int));
        Pose {
            left_arm: self.left_arm.calc_curr_pos(t),
            right_arm: self.right_arm.calc_curr_pos(t),
            left_leg: self.left_leg.calc_curr_pos(t),
            right_leg: self.right_leg.calc_curr_pos(t),
        }
    }
}

impl Skeleton {
    /// Whether every limb is drawn within `COORD_LIMIT`.
    pub fn check_pose(&self) -> (r: bool)
        requires
            self.wf(),
        ensures
            r == self.pose_fits(),
    {
        let t = self.info.amount_through;
        let r = self.left_arm.fits_at(t) && self.right_arm.fits_at(t) && self.left_leg.fits_at(t)
            && self.right_leg.fits_at(t);
        proof {
            if r {
                assert forall|limb: Limb|
                    lerp_fits(
                        #[trigger] self.limb(limb).start_pos,
                        self.limb(limb).end_pos,
                        t as int,
                    ) by {
                    match limb {
                        Limb::Arm(Pos::Left) => {},
                        Limb::Arm(Pos::Right) => {},
                        Limb::Leg(Pos::Left) => {},
                        Limb::Leg(Pos::Right) => {},
                    }
                }
            } else {
                assert(!lerp_fits(self.limb(Limb::Arm(Pos::Left)).start_pos, self.left_arm.end_pos, t as int)
                    || !lerp_fits(self.limb(Limb::Arm(Pos::Right)).start_pos, self.right_arm.end_pos, t as int)
                    || !lerp_fits(self.limb(Limb::Leg(Pos::Left)).start_pos, self.left_leg.end_pos, t as int)
                    || !lerp_fits(self.limb(Limb::Leg(Pos::Right)).start_pos, self.right_leg.end_pos, t as int));
            }
        }
        r
    }

    /// Whether `update_anims(self, delta_time)` may run: the fraction stays
    /// within `u64` and every limb is then drawn within `COORD_LIMIT`.
    pub fn can_update(&self, delta_time: u64) -> (r: bool)
        requires
            self.wf(),
        ensures
            r == (self.info.time_fits(delta_time as int) && self.after_update(
                delta_time as int,
            ).pose_fits()),
    {
        if !self.info.can_add_time(delta_time) {
            return false;
        }
        let mut next = *self;
        advance_segment(&mut next, delta_time);
        next.check_pose()
    }
}

/// Advances the driver and, when its segment ends, retargets every limb.
fn advance_segment(skel: &mut Skeleton, delta_time: u64)
    requires
        old(skel).wf(),
        old(skel).info.time_fits(delta_time as int),
    ensures
        *final(skel) == old(skel).after_update(delta_time as int),
        final(skel).wf(),
{
    let change = skel.info.add_time(delta_time);
    if change {
        let anim = skel.info.anim;
        let index = skel.info.index;
        proof {
            assert forall|limb: Limb|
                lerp_fits(
                    #[trigger] skel.limb(limb).start_pos,
                    skel.limb(limb).end_pos,
                    FRACTION_ONE as int,
                ) by {
                lemma_lerp_bounded(skel.limb(limb).start_pos, skel.limb(limb).end_pos, FRACTION_ONE as int);
            }
        }
        skel.retarget_limbs(anim, FRACTION_ONE, index);
    }
}

/// Selects the movement state of `skel` from the entity's velocity and
/// grounded flag; on a change, restarts the driver and retargets every limb
/// from where it is drawn.
pub fn anim_choose_system(skel: &mut Skeleton, physics: &Physics)
    requires
        old(skel).wf(),
        old(skel).pose_fits(),
        physics.velocity.bounded(),
    ensures
        *final(skel) == old(skel).after_choose(physics.velocity, physics.grounded),
        final(skel).wf(),
{
    let s = choose_state(physics.velocity, physics.grounded);
    if s != skel.info.anim {
        proof { lemma_table_shape(s); }
        let t = skel.info.amount_through;
        skel.retarget_limbs(s, t, 0);
        skel.info.change_anim(s);
    }
}

/// Advances the animation of `skel` by `delta_time` microseconds and
/// returns the drawn limb positions.
pub fn update_anims(skel: &mut Skeleton, delta_time: u64) -> (r: Pose)
    requires
        old(skel).wf(),
        old(skel).info.time_fits(delta_time as int),
        old(skel).after_update(delta_time as int).pose_fits(),
    ensures
        *final(skel) == old(skel).after_update(delta_time as int),
        final(skel).wf(),
        r == final(skel).pose(),
{
    advance_segment(skel, delta_time);
    skel.current_pose()
}

/// The frame reached from `index` after `n` frame advances.
pub open spec fn advance_frames(state: PlayerState, index: int, n: nat) -> int
    decreases n,
{
    if n == 0 {
        index
    } else {
        next_frame(state, advance_frames(state, index, (n - 1) as nat))
    }
}

/// Frame advance is cyclic: from any frame, advancing `frame_count` times
/// returns to that frame, with the same target for every limb.
pub proof fn lemma_frame_cycle(state: PlayerState, index: int, limb: Limb)
    requires
        0 <= index < frame_count(state),
    ensures
        advance_frames(state, index, frame_count(state)) == index,
        target_pos(state, limb, advance_frames(state, index, frame_count(state))) == target_pos(
            state,
            limb,
            index,
        ),
        advance_frames(state, 0, frame_count(state)) == 0,
{
    reveal_with_fuel(advance_frames, 5);
}

/// When a tick ends the current segment, every limb's new segment starts at
/// the end of the old one and heads for its target in the new frame.
pub proof fn lemma_frame_change_continues(skel: Skeleton, dt: int, limb: Limb)
    requires
        skel.wf(),
        skel.info.wraps(dt),
    ensures
        skel.after_update(dt).limb(limb).start_pos == skel.limb(limb).end_pos,
        skel.after_update(dt).limb(limb).end_pos == target_pos(
            skel.info.anim,
            limb,
            next_frame(skel.info.anim, skel.info.index as int),
        ),
{
    lemma_lerp_endpoints(skel.limb(limb).start_pos, skel.limb(limb).end_pos);
}

/// Selecting a movement state never moves a drawn limb: after the choice
/// every limb is drawn where it was, and on a change of state each new
/// segment starts at the position drawn just before.
pub proof fn lemma_choose_keeps_rendered(skel: Skeleton, v: Vec3, grounded: bool, limb: Limb)
    requires
        skel.wf(),
    ensures
        skel.after_choose(v, grounded).rendered(limb) == skel.rendered(limb),
        select_state(v, grounded) != skel.info.anim ==> skel.after_choose(v, grounded).limb(
            limb,
        ).start_pos == skel.rendered(limb),
{
    let after = skel.after_choose(v, grounded);
    lemma_lerp_endpoints(after.limb(limb).start_pos, after.limb(limb).end_pos);
}

/// Height of the torso stick, in steps.
pub const MAJOR_HEIGHT: i64 = 3000;
/// Length of a limb stick, in steps.
pub const MINOR_HEIGHT: i64 = 2000;
/// Height of the shoulders above the torso's center, in steps.
pub const ARM_POS: i64 = 1100;
/// Thickness of every stick, in steps.
pub const STICK_SIZE: i64 = 200;

/// Rest position of an arm's center: hanging half a limb above the shoulder.
pub fn get_default_arm_pos() -> (r: Vec3)
    ensures
        r == (Vec3 { x: 0, y: (ARM_POS + MINOR_HEIGHT / 2) as i64, z: 0 }),
{
    Vec3 { x: 0, y: ARM_POS + MINOR_HEIGHT / 2, z: 0 }
}

/// The shoulder joint arms swing about.
pub fn get_arm_pivot() -> (r: Vec3)
    ensures
        r == (Vec3 { x: 0, y: ARM_POS, z: 0 }),
{
    Vec3 { x: 0, y: ARM_POS, z: 0 }
}

/// Rest position of a leg's center: half a limb above the hip.
pub fn get_default_leg_pos() -> (r: Vec3)
    ensures
        r == (Vec3 { x: 0, y: (-MAJOR_HEIGHT / 2 + MINOR_HEIGHT / 2) as i64, z: 0 }),
{
    Vec3 { x: 0, y: -MAJOR_HEIGHT / 2 + MINOR_HEIGHT / 2, z: 0 }
}

/// The hip joint legs swing about.
pub fn get_leg_pivot() -> (r: Vec3)
    ensures
        r == (Vec3 { x: 0, y: (-MAJOR_HEIGHT / 2) as i64, z: 0 }),
{
    Vec3 { x: 0, y: -MAJOR_HEIGHT / 2, z: 0 }
}

/// Rest position and pivot of a limb.
pub open spec fn limb_joint(limb: Limb) -> (Vec3, Vec3) {
    match limb {
        Limb::Arm(_) => (Vec3 { x: 0, y: 2100, z: 0 }, Vec3 { x: 0, y: 1100, z: 0 }),
        Limb::Leg(_) => (Vec3 { x: 0, y: (-500) as i64, z: 0 }, Vec3 { x: 0, y: (-1500) as i64, z: 0 }),
    }
}

/// Rest position and pivot of a limb: arms hang from the shoulder, legs
/// from the hip.
pub fn get_limb_joint(limb: Limb) -> (r: (Vec3, Vec3))
    ensures
        r == limb_joint(limb),
{
    match limb {
        Limb::Arm(_) => (get_default_arm_pos(), get_arm_pivot()),
        Limb::Leg(_) => (get_default_leg_pos(), get_leg_pivot()),
    }
}

/// Direction a limb points when it is drawn at `pos`: from its rest
/// position to `pos`. The limb is turned about its pivot by the shortest
/// rotation from straight up onto this direction.
pub fn swing_direction(limb: Limb, pos: Vec3) -> (r: Vec3)
    requires
        pos.bounded(),
    ensures
        r == (Vec3 {
            x: (pos.x - limb_joint(limb).0.x) as i64,
            y: (pos.y - limb_joint(limb).0.y) as i64,
            z: (pos.z - limb_joint(limb).0.z) as i64,
        }),
{
    let (rest, _pivot) = get_limb_joint(limb);
    Vec3 { x: pos.x - rest.x, y: pos.y - rest.y, z: pos.z - rest.z }
}

} // verus!
