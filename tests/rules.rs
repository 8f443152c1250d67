use stickman::anim::{Limb, Pos};
use stickman::game::{
    add_clamp_around, check_lose, enemy_fires, fires_on, enemy_hit, enemy_spawn_position, knockback,
    map_walls, movement_impulse, player_physics, respawn, shot_expired, shot_hits,
    shot_physics_system, EnemyHit, EnemyNum, Health, MoveInput, ShotCooldown, ShotPhysics,
    ENEMY_HEALTH, ENEMY_NUM, ENEMY_SPAWN_Y, NUM_WALLS,
};
use stickman::geom::Vec3;
use stickman::physics::{gravity_system, physics_system, Aabb};

fn v(x: i64, y: i64, z: i64) -> Vec3 {
    Vec3 { x, y, z }
}

fn keys(forward: bool, left: bool, right: bool, back: bool, jump: bool) -> MoveInput {
    MoveInput { forward, left, right, back, jump }
}

#[test]
fn level_walls_from_table() {
    let walls = map_walls();
    assert_eq!(walls.len(), NUM_WALLS);
    assert_eq!(walls[0], Aabb { center: v(0, -250, 0), half: v(10_500, 250, 10_500) });
    assert_eq!(walls[1], Aabb { center: v(13_200, -250, -20_400), half: v(5_500, 250, 5_500) });
    assert_eq!(walls[17], Aabb { center: v(-16_800, 1_200, -30_100), half: v(2_100, 250, 2_100) });
}

#[test]
fn player_stands_on_spawn_floor() {
    let walls = map_walls();
    let mut physics = player_physics();
    let mut pos = v(0, 5_000, 0);
    for _ in 0..200 {
        gravity_system(&mut physics);
        physics_system(&mut pos, &mut physics, &walls, 16_000);
    }
    assert!(physics.grounded);
    assert_eq!(pos.y, 6_500);
    let _ = Limb::Arm(Pos::Left);
}

#[test]
fn impulses_on_ground_and_in_air() {
    assert_eq!(movement_impulse(keys(true, false, false, false, false), true), v(0, 0, 800));
    assert_eq!(movement_impulse(keys(true, true, false, false, false), false), v(160, 0, 160));
    assert_eq!(movement_impulse(keys(false, true, true, true, false), true), v(0, 0, -800));
    assert_eq!(movement_impulse(keys(false, false, false, false, true), true), v(0, 4_000, 0));
    assert_eq!(movement_impulse(keys(false, false, false, false, true), false), v(0, 0, 0));
}

#[test]
fn shot_cooldown_limits_rate() {
    let mut cd = ShotCooldown::new();
    assert!(!cd.try_fire(16_000, false));
    assert!(cd.try_fire(16_000, true));
    assert_eq!(cd.cooldown, 500_000);
    assert!(!cd.try_fire(400_000, true));
    assert_eq!(cd.cooldown, 100_000);
    assert!(cd.try_fire(100_000, true));
}

#[test]
fn shot_flies_and_falls() {
    let mut pos = v(0, 1_000, 0);
    let mut shot = ShotPhysics { velocity: v(0, 0, -20_000) };
    shot_physics_system(&mut pos, &mut shot, 100_000);
    assert_eq!(pos, v(0, 1_000, -2_000));
    assert_eq!(shot.velocity, v(0, -100, -20_000));
}

#[test]
fn shot_and_lose_limits() {
    assert!(shot_expired(v(0, -20_000, 0)));
    assert!(!shot_expired(v(0, -19_999, 0)));
    assert!(check_lose(v(0, -50_001, 0)));
    assert!(!check_lose(v(0, -50_000, 0)));
}

#[test]
fn shot_hit_box_is_generous() {
    let head = v(0, 6_000, 0);
    assert!(shot_hits(head, v(540, 3_000, 0)));
    assert!(!shot_hits(head, v(551, 3_000, 0)));
    // the body box spans y from -500 to 5_500; a shot's half size is 150
    assert!(shot_hits(head, v(0, -650, 0)));
    assert!(!shot_hits(head, v(0, -651, 0)));
}

#[test]
fn enemy_hits_until_won() {
    let mut enemies = EnemyNum { number: 2 };
    let mut health = Health { amount: ENEMY_HEALTH };
    assert_eq!(enemy_hit(&mut health, &mut enemies), EnemyHit::Respawn);
    assert_eq!(enemy_hit(&mut health, &mut enemies), EnemyHit::Respawn);
    assert_eq!(enemy_hit(&mut health, &mut enemies), EnemyHit::Killed);
    assert_eq!(enemies.number, 1);
    let mut last = Health { amount: 1 };
    assert_eq!(enemy_hit(&mut last, &mut enemies), EnemyHit::Won);
    assert_eq!(enemies.number, 0);
    assert_eq!(ENEMY_NUM, 3);
}

#[test]
fn random_placements_stay_in_arena() {
    let mut xs = Vec::new();
    for _ in 0..200 {
        let p = enemy_spawn_position();
        assert!(-50_000 <= p.x && p.x < 50_000);
        assert!(-50_000 <= p.z && p.z < 50_000);
        assert_eq!(p.y, ENEMY_SPAWN_Y);
        xs.push(p.x);
    }
    // the draws are spread out, not pinned to an end of the range
    assert!(xs.iter().any(|x| *x != xs[0]));
    assert!(xs.iter().any(|x| *x > 0));
    assert!(xs.iter().any(|x| *x < 0));
    let mut pos = v(70_000, 6_000, -70_000);
    respawn(&mut pos);
    assert!(-50_000 <= pos.x && pos.x < 50_000);
    assert!(-50_000 <= pos.z && pos.z < 50_000);
    assert_eq!(pos.y, 6_000);
}

#[test]
fn knockback_throws_player_up() {
    let mut physics = player_physics();
    knockback(&mut physics);
    assert_eq!(physics.velocity.y, 30_000);
    assert!(-5_000 <= physics.velocity.x && physics.velocity.x < 5_000);
    assert!(-5_000 <= physics.velocity.z && physics.velocity.z < 5_000);
}

#[test]
fn fires_only_on_zero_draw() {
    assert!(fires_on(0));
    assert!(!fires_on(1));
    assert!(!fires_on(499));
}

#[test]
fn enemies_fire_rarely() {
    let fired = (0..20_000).filter(|_| enemy_fires()).count();
    assert!(fired > 0 && fired < 200);
}

#[test]
fn pitch_clamp_keeps_off_the_poles() {
    let half_pi = 1_570_796;
    let margin = 100_000;
    assert_eq!(add_clamp_around(0, 200_000, half_pi, margin), 200_000);
    assert_eq!(add_clamp_around(1_400_000, 200_000, half_pi, margin), half_pi - margin);
    assert_eq!(add_clamp_around(-1_400_000, -200_000, half_pi, margin), -half_pi + margin);
    assert_eq!(add_clamp_around(2_000_000, -500_000, half_pi, margin), half_pi + margin);
    assert_eq!(add_clamp_around(-2_000_000, 500_000, half_pi, margin), -half_pi - margin);
    assert_eq!(add_clamp_around(2_000_000, 100_000, half_pi, margin), 2_100_000);
}
