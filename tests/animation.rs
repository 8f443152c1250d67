use stickman::anim::{
    anim_choose_system, choose_state, get_target_pos, swing_direction, update_anims, AnimInfo,
    AnimPos, Limb, PlayerState, Pos, Skeleton, FRACTION_ONE,
};
use stickman::geom::Vec3;
use stickman::physics::Physics;

const STATES: [PlayerState; 5] = [
    PlayerState::Idle,
    PlayerState::Walking,
    PlayerState::Running,
    PlayerState::Jumping,
    PlayerState::Spin,
];

const LIMBS: [Limb; 4] = [
    Limb::Arm(Pos::Left),
    Limb::Arm(Pos::Right),
    Limb::Leg(Pos::Left),
    Limb::Leg(Pos::Right),
];

fn v(x: i64, y: i64, z: i64) -> Vec3 {
    Vec3 { x, y, z }
}

fn moving(velocity: Vec3, grounded: bool) -> Physics {
    Physics { hitboxes: Vec::new(), velocity, grounded }
}

#[test]
fn idle_first_frame_left_arm() {
    let p = get_target_pos(PlayerState::Idle, Limb::Arm(Pos::Left), 0);
    assert_eq!(p, v(-900, -3100, 100));
}

#[test]
fn target_positions_match_literal_tables() {
    assert_eq!(get_target_pos(PlayerState::Idle, Limb::Leg(Pos::Right), 0), v(500, -5900, 0));
    assert_eq!(get_target_pos(PlayerState::Walking, Limb::Arm(Pos::Right), 1), v(1100, -2900, -700));
    assert_eq!(get_target_pos(PlayerState::Running, Limb::Leg(Pos::Left), 2), v(-500, -5500, -1100));
    assert_eq!(get_target_pos(PlayerState::Running, Limb::Leg(Pos::Right), 3), v(700, -5300, -1300));
    assert_eq!(get_target_pos(PlayerState::Jumping, Limb::Arm(Pos::Right), 0), v(1900, -1300, 400));
    assert_eq!(get_target_pos(PlayerState::Spin, Limb::Leg(Pos::Left), 0), v(0, -5900, 300));
}

#[test]
fn target_positions_follow_flat_layout() {
    for state in STATES {
        let table = state.get_anim_slice();
        let frames = state.get_anim_num_frames();
        assert_eq!(table.len(), frames * 12);
        for frame in 0..frames {
            for (slot, limb) in LIMBS.iter().enumerate() {
                let base = frame * 12 + slot * 3;
                let p = get_target_pos(state, *limb, frame);
                assert_eq!(p, v(table[base], table[base + 1], table[base + 2]));
            }
        }
    }
}

#[test]
fn frame_counts_and_durations() {
    let frames: Vec<usize> = STATES.iter().map(|s| s.get_anim_num_frames()).collect();
    assert_eq!(frames, vec![1, 2, 4, 1, 1]);
    let times: Vec<u64> = STATES.iter().map(|s| s.get_anim_time()).collect();
    assert_eq!(times, vec![1_000_000, 300_000, 1_000_000, 800_000, 1_000_000]);
}

#[test]
fn frame_advance_is_cyclic() {
    for state in STATES {
        let mut info = AnimInfo::starting(state);
        let first: Vec<Vec3> = LIMBS.iter().map(|l| get_target_pos(state, *l, info.index)).collect();
        let n = state.get_anim_num_frames();
        for step in 0..n {
            assert!(info.add_time(info.time_takes));
            if step + 1 < n {
                assert_eq!(info.index, step + 1);
            }
        }
        assert_eq!(info.index, 0);
        let again: Vec<Vec3> = LIMBS.iter().map(|l| get_target_pos(state, *l, info.index)).collect();
        assert_eq!(first, again);
    }
}

#[test]
fn lerp_endpoints_are_exact() {
    let seg = AnimPos { start_pos: v(-900, -3100, 100), end_pos: v(1200, -2900, -777) };
    assert_eq!(seg.calc_curr_pos(0), seg.start_pos);
    assert_eq!(seg.calc_curr_pos(FRACTION_ONE), seg.end_pos);
}

#[test]
fn lerp_midpoint_rounds_towards_start() {
    let seg = AnimPos { start_pos: v(0, 0, 0), end_pos: v(1001, -1001, 10) };
    assert_eq!(seg.calc_curr_pos(FRACTION_ONE / 2), v(500, -500, 5));
    let quarter = AnimPos { start_pos: v(100, 100, 100), end_pos: v(-300, 500, 100) };
    assert_eq!(quarter.calc_curr_pos(250_000), v(0, 200, 100));
}

#[test]
fn change_pos_starts_from_current_position() {
    let mut seg = AnimPos { start_pos: v(0, 0, 0), end_pos: v(1000, 2000, -4000) };
    seg.change_pos(PlayerState::Running, Limb::Arm(Pos::Right), 250_000, 1);
    assert_eq!(seg.start_pos, v(250, 500, -1000));
    assert_eq!(seg.end_pos, v(900, -2900, -800));
}

#[test]
fn default_from_limb_rests_on_first_frame() {
    let seg = AnimPos::default_from_limb(Limb::Leg(Pos::Left), PlayerState::Jumping);
    assert_eq!(seg.start_pos, v(-600, -5500, -1100));
    assert_eq!(seg.end_pos, v(-600, -5500, -1100));
}

#[test]
fn add_time_accumulates_fraction() {
    let mut info = AnimInfo { time_takes: 300_000, amount_through: 0, index: 0, anim: PlayerState::Walking };
    assert!(!info.add_time(16_667));
    assert_eq!(info.amount_through, 55_556);
    assert_eq!(info.index, 0);
}

#[test]
fn add_time_wraps_past_one() {
    let mut info = AnimInfo { time_takes: 300_000, amount_through: 900_000, index: 1, anim: PlayerState::Walking };
    assert!(info.add_time(60_000));
    assert_eq!(info.amount_through, 100_000);
    assert_eq!(info.index, 0);
}

#[test]
fn add_time_reaching_exactly_one_does_not_wrap() {
    let mut info = AnimInfo { time_takes: 1_000_000, amount_through: 400_000, index: 0, anim: PlayerState::Idle };
    assert!(!info.add_time(600_000));
    assert_eq!(info.amount_through, FRACTION_ONE);
}

#[test]
fn add_time_long_tick_advances_one_frame() {
    let mut info = AnimInfo { time_takes: 300_000, amount_through: 200_000, index: 0, anim: PlayerState::Walking };
    assert!(info.add_time(10_000_000));
    // 10 s / 0.3 s = 33.333333 segments; one is subtracted
    assert_eq!(info.amount_through, 32_533_333);
    assert_eq!(info.index, 1);
}

#[test]
fn add_time_long_tick_from_zero_advances() {
    let mut info = AnimInfo { time_takes: 1_000_000, amount_through: 0, index: 0, anim: PlayerState::Idle };
    assert!(info.add_time(2_000_000));
    assert_eq!(info.amount_through, FRACTION_ONE);
    assert_eq!(info.index, 0);
}

#[test]
fn add_time_long_tick_wraps_last_frame() {
    let mut info = AnimInfo { time_takes: 300_000, amount_through: 0, index: 1, anim: PlayerState::Walking };
    assert!(info.add_time(600_001));
    assert_eq!(info.index, 0);
    assert_eq!(info.amount_through, 1_000_003);
}

#[test]
fn long_tick_retargets_limbs_from_old_end() {
    let mut skel = Skeleton::new(PlayerState::Walking);
    skel.info.amount_through = 0;
    skel.info.index = 0;
    skel.left_arm.end_pos = v(0, -3000, 0);
    let old_end = skel.left_arm.end_pos;
    assert!(skel.can_update(700_000));
    update_anims(&mut skel, 700_000);
    assert_eq!(skel.info.index, 1);
    assert_eq!(skel.left_arm.start_pos, old_end);
    assert_eq!(skel.left_arm.end_pos, get_target_pos(PlayerState::Walking, Limb::Arm(Pos::Left), 1));
}

#[test]
fn fraction_past_one_extrapolates() {
    let seg = AnimPos { start_pos: v(0, 100, -100), end_pos: v(1000, 100, -300) };
    assert_eq!(seg.calc_curr_pos(1_500_000), v(1500, 100, -400));
    assert!(seg.fits_at(1_500_000));
    assert!(!seg.fits_at(u64::MAX));
}

#[test]
fn fraction_overflow_is_reported() {
    let info = AnimInfo { time_takes: 1, amount_through: 0, index: 0, anim: PlayerState::Idle };
    assert!(info.can_add_time(1_000));
    assert!(!info.can_add_time(u64::MAX));
    let skel = Skeleton::new(PlayerState::Idle);
    assert!(skel.check_pose());
    assert!(skel.can_update(16_000));
}

#[test]
fn zero_delta_changes_nothing() {
    let mut info = AnimInfo { time_takes: 800_000, amount_through: 123_456, index: 0, anim: PlayerState::Jumping };
    assert!(!info.add_time(0));
    assert_eq!(info.amount_through, 123_456);
}

#[test]
fn change_anim_resets_driver() {
    let mut info = AnimInfo::starting(PlayerState::Idle);
    info.change_anim(PlayerState::Running);
    assert_eq!(info, AnimInfo { time_takes: 1_000_000, amount_through: 0, index: 3, anim: PlayerState::Running });
}

#[test]
fn state_selection_thresholds() {
    assert_eq!(choose_state(v(0, 0, 0), false), PlayerState::Jumping);
    assert_eq!(choose_state(v(5000, 0, 0), false), PlayerState::Jumping);
    assert_eq!(choose_state(v(0, 0, 0), true), PlayerState::Idle);
    // 0.5 exactly is still idle, just above walks
    assert_eq!(choose_state(v(500, 500, 0), true), PlayerState::Idle);
    assert_eq!(choose_state(v(500, 500, 1), true), PlayerState::Walking);
    // 3.0 exactly still walks, just above runs
    assert_eq!(choose_state(v(1000, 1000, 1000), true), PlayerState::Walking);
    assert_eq!(choose_state(v(1000, 1000, 1001), true), PlayerState::Running);
}

#[test]
fn state_switch_keeps_rendered_position() {
    let mut skel = Skeleton::new(PlayerState::Idle);
    skel.info.amount_through = 0;
    skel.left_arm.end_pos = v(1000, 1000, 1000);
    skel.info.amount_through = 300_000;
    let before = skel.current_pose();
    anim_choose_system(&mut skel, &moving(v(3000, 0, 0), true));
    assert_eq!(skel.info.anim, PlayerState::Running);
    assert_eq!(skel.info.amount_through, 0);
    assert_eq!(skel.info.index, 3);
    assert_eq!(skel.left_arm.start_pos, before.left_arm);
    assert_eq!(skel.right_leg.start_pos, before.right_leg);
    assert_eq!(skel.left_arm.end_pos, get_target_pos(PlayerState::Running, Limb::Arm(Pos::Left), 0));
    assert_eq!(skel.current_pose(), before);
}

#[test]
fn same_state_leaves_skeleton_alone() {
    let mut skel = Skeleton::new(PlayerState::Idle);
    skel.info.amount_through = 400_000;
    let before = skel;
    anim_choose_system(&mut skel, &moving(v(100, 0, 0), true));
    assert_eq!(skel, before);
}

#[test]
fn update_moves_to_next_frame_without_pop() {
    let mut skel = Skeleton::new(PlayerState::Walking);
    let pose = update_anims(&mut skel, 30_000);
    // the segment ended at spawn: the new one runs from the idle rest pose
    // towards walking frame 1
    assert_eq!(skel.info.index, 1);
    assert_eq!(skel.info.amount_through, 100_000);
    let rest = get_target_pos(PlayerState::Idle, Limb::Arm(Pos::Left), 0);
    assert_eq!(skel.left_arm.start_pos, rest);
    assert_eq!(skel.left_arm.end_pos, get_target_pos(PlayerState::Walking, Limb::Arm(Pos::Left), 1));
    assert_eq!(pose.left_arm, skel.left_arm.calc_curr_pos(100_000));
    assert_eq!(pose.left_arm, v(-880, -3080, 180));
}

#[test]
fn update_within_segment_only_moves_time() {
    let mut skel = Skeleton::new(PlayerState::Idle);
    skel.info.amount_through = 0;
    let before = skel;
    let pose = update_anims(&mut skel, 500_000);
    assert_eq!(skel.info.amount_through, 500_000);
    assert_eq!(skel.left_leg, before.left_leg);
    assert_eq!(pose.left_leg, get_target_pos(PlayerState::Idle, Limb::Leg(Pos::Left), 0));
}

#[test]
fn swing_direction_is_relative_to_rest() {
    assert_eq!(swing_direction(Limb::Arm(Pos::Left), v(-900, -3100, 100)), v(-900, -5200, 100));
    assert_eq!(swing_direction(Limb::Leg(Pos::Right), v(500, -5900, 0)), v(500, -5400, 0));
}
