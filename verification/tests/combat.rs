use neon_duel::combat::{
    normalize_aim, spawn_bullet, update_bullets, update_melee_hits, Bullet, BULLET_LIFETIME,
    MAX_BULLETS,
};
use neon_duel::game_state::{GamePhase, TransitionPhase};
use neon_duel::player::kill_player;
use neon_duel::stage::setup_current_stage;
use neon_duel::{init, Cue, Simulation};

/// A match in play on the first stage with `count` players standing apart on the ground.
fn playing(count: usize) -> Simulation {
    let mut sim = init();
    sim.cues.clear();
    sim.state.phase = GamePhase::Playing;
    sim.state.current_stage = 0;
    setup_current_stage(&mut sim);
    for i in 0..count {
        sim.players[i].active = true;
        sim.players[i].x = -800_000 + 400_000 * i as i64;
        sim.players[i].y = -150_000;
        sim.players[i].on_ground = true;
    }
    assert!(sim.is_valid());
    sim
}

fn bullet(x: i64, y: i64, vx: i64, vy: i64, owner: u32) -> Bullet {
    Bullet { x, y, vx, vy, owner, lifetime: 100, active: true }
}

#[test]
fn aim_snaps_to_eight_directions() {
    assert_eq!(normalize_aim(100_000, 0, false), (100_000, 0));
    assert_eq!(normalize_aim(-100_000, 0, true), (-100_000, 0));
    assert_eq!(normalize_aim(0, 100_000, true), (0, 100_000));
    assert_eq!(normalize_aim(0, -40_000, true), (0, -100_000));
    assert_eq!(normalize_aim(50_000, 50_000, true), (70_711, 70_711));
    assert_eq!(normalize_aim(-30_001, 50_000, true), (-70_711, 70_711));
    assert_eq!(normalize_aim(30_001, -30_001, false), (70_711, -70_711));
    assert_eq!(normalize_aim(-100_000, -100_000, false), (-70_711, -70_711));
}

#[test]
fn aim_inside_the_threshold_follows_the_facing() {
    assert_eq!(normalize_aim(0, 0, true), (100_000, 0));
    assert_eq!(normalize_aim(0, 0, false), (-100_000, 0));
    assert_eq!(normalize_aim(30_000, -30_000, true), (100_000, 0));
    assert_eq!(normalize_aim(30_000, 30_000, false), (-100_000, 0));
    assert_eq!(normalize_aim(30_001, 30_000, false), (100_000, 0));
    assert_eq!(normalize_aim(-30_000, 30_001, false), (0, 100_000));
}

#[test]
fn shot_leaves_from_the_centre_of_the_shooter() {
    let mut sim = playing(2);
    sim.players[1].facing_right = false;
    spawn_bullet(&mut sim, 1, 0, 0);
    let b = sim.bullets[0];
    assert!(b.active);
    assert_eq!((b.x, b.y), (-400_000 + 40_000, -150_000 + 60_000));
    assert_eq!((b.vx, b.vy), (-40_000, 0));
    assert_eq!(b.owner, 1);
    assert_eq!(b.lifetime, 120);
    assert_eq!(sim.cues, vec![Cue::MuzzleFlash { x: -360_000, y: -90_000 }]);
    assert!(sim.is_valid());
}

#[test]
fn diagonal_shot_is_as_fast_as_a_straight_one() {
    let mut sim = playing(1);
    spawn_bullet(&mut sim, 0, 100_000, -100_000);
    assert_eq!((sim.bullets[0].vx, sim.bullets[0].vy), (28_284, -28_284));
    spawn_bullet(&mut sim, 0, 0, 100_000);
    assert_eq!((sim.bullets[1].vx, sim.bullets[1].vy), (0, 40_000));
}

#[test]
fn shot_takes_the_first_free_slot() {
    let mut sim = playing(1);
    sim.bullets[0] = bullet(0, 0, 0, 40_000, 0);
    sim.bullets[1] = bullet(0, 0, 0, 40_000, 0);
    sim.bullets[3] = bullet(0, 0, 0, 40_000, 0);
    spawn_bullet(&mut sim, 0, 100_000, 0);
    assert_eq!(sim.bullets[2].vx, 40_000);
    assert!(sim.bullets[2].active);
    assert!(!sim.bullets[4].active);
    spawn_bullet(&mut sim, 0, -100_000, 0);
    assert_eq!(sim.bullets[4].vx, -40_000);
}

#[test]
fn shot_into_a_full_pool_is_dropped() {
    let mut sim = playing(2);
    for slot in 0..MAX_BULLETS {
        sim.bullets[slot] = bullet(0, 500_000, 0, 0, 1);
    }
    let before = sim.bullets;
    spawn_bullet(&mut sim, 0, 100_000, 0);
    assert_eq!(sim.bullets, before);
    assert!(sim.cues.is_empty());
}

#[test]
fn bullet_lives_its_lifetime_and_no_longer() {
    let mut sim = playing(1);
    sim.bullets[5] = bullet(0, 500_000, 0, 0, 0);
    sim.bullets[5].lifetime = BULLET_LIFETIME;
    for age in 1..120u32 {
        update_bullets(&mut sim);
        assert!(sim.bullets[5].active);
        assert_eq!(sim.bullets[5].lifetime, 120 - age);
    }
    update_bullets(&mut sim);
    assert!(!sim.bullets[5].active);
    assert_eq!(sim.bullets[5].lifetime, 0);
    let spent = sim.bullets[5];
    update_bullets(&mut sim);
    assert_eq!(sim.bullets[5], spent);
}

#[test]
fn bullet_moves_by_its_velocity() {
    let mut sim = playing(1);
    sim.bullets[0] = bullet(100_000, 500_000, 28_284, -28_284, 0);
    update_bullets(&mut sim);
    assert_eq!((sim.bullets[0].x, sim.bullets[0].y), (128_284, 471_716));
    assert_eq!((sim.bullets[0].vx, sim.bullets[0].vy), (28_284, -28_284));
    assert_eq!(sim.bullets[0].lifetime, 99);
}

#[test]
fn bullet_leaves_a_trail_every_third_tick() {
    let mut sim = playing(1);
    sim.bullets[0] = bullet(0, 500_000, 1_000, 0, 0);
    sim.bullets[0].lifetime = BULLET_LIFETIME;
    update_bullets(&mut sim);
    assert_eq!(sim.cues, vec![Cue::BulletTrail { x: 1_000, y: 500_000 }]);
    update_bullets(&mut sim);
    update_bullets(&mut sim);
    assert_eq!(sim.cues.len(), 1);
    update_bullets(&mut sim);
    assert_eq!(sim.cues.len(), 2);
    assert_eq!(sim.cues[1], Cue::BulletTrail { x: 4_000, y: 500_000 });
}

#[test]
fn bullet_is_removed_outside_the_field() {
    let mut sim = playing(1);
    sim.bullets[0] = bullet(1_190_000, 500_000, 40_000, 0, 0);
    sim.bullets[1] = bullet(1_160_000, 500_000, 40_000, 0, 0);
    sim.bullets[2] = bullet(0, 990_000, 0, 40_000, 0);
    sim.bullets[3] = bullet(-1_190_000, 500_000, -40_000, 0, 0);
    sim.bullets[4] = bullet(0, -990_000, 0, -40_000, 0);
    update_bullets(&mut sim);
    assert!(!sim.bullets[0].active);
    assert_eq!(sim.bullets[0].x, 1_230_000);
    assert!(sim.bullets[1].active);
    assert_eq!(sim.bullets[1].x, 1_200_000);
    assert!(!sim.bullets[2].active);
    assert!(!sim.bullets[3].active);
    assert!(!sim.bullets[4].active);
    assert!(sim.is_valid());
}

#[test]
fn bullet_stops_in_a_platform() {
    let mut sim = playing(1);
    sim.bullets[0] = bullet(0, -140_000, 0, -40_000, 0);
    sim.bullets[1] = bullet(500_000, -140_000, 40_000, 0, 0);
    update_bullets(&mut sim);
    assert!(!sim.bullets[0].active);
    assert_eq!(sim.bullets[0].y, -180_000);
    assert!(sim.bullets[1].active);
}

#[test]
fn bullet_passes_its_owner_and_the_dead() {
    let mut sim = playing(3);
    sim.players[1].dead = true;
    sim.players[2].active = false;
    sim.bullets[0] = bullet(-760_000, -90_000, 0, 0, 0);
    sim.bullets[1] = bullet(-360_000, -90_000, 0, 0, 0);
    sim.bullets[2] = bullet(40_000, -90_000, 0, 0, 0);
    update_bullets(&mut sim);
    assert!(sim.bullets[0].active && sim.bullets[1].active && sim.bullets[2].active);
    assert!(!sim.players[0].dead);
    assert_eq!(sim.players[0].kills, 0);
}

#[test]
fn bullet_kills_the_player_it_enters() {
    let mut sim = playing(2);
    sim.bullets[0] = bullet(-440_000, -90_000, 40_000, 0, 0);
    update_bullets(&mut sim);
    assert!(sim.players[1].dead);
    assert_eq!(sim.players[1].respawn_timer, 90);
    assert_eq!(sim.players[0].kills, 1);
    assert!(!sim.bullets[0].active);
    assert_eq!(sim.hit_freeze, 5);
    assert_eq!(sim.impact_flash, 3);
    assert_eq!(sim.state.round_end_timer, 30);
    assert!(sim.transition_phase == TransitionPhase::FadeOut);
    assert!(sim.state.phase == GamePhase::Playing);
    assert_eq!(
        sim.cues,
        vec![
            Cue::BulletHit { victim: 1, x: -360_000, y: -90_000 },
            Cue::Death { victim: 1, x: -360_000, y: -90_000 },
        ]
    );
    assert!(sim.is_valid());
}

#[test]
fn impact_flash_can_be_switched_off() {
    let mut sim = playing(2);
    sim.options.screen_flash = false;
    sim.bullets[0] = bullet(-440_000, -90_000, 40_000, 0, 0);
    update_bullets(&mut sim);
    assert!(sim.players[1].dead);
    assert_eq!(sim.impact_flash, 0);
}

#[test]
fn bullet_kills_one_player_at_most() {
    let mut sim = playing(3);
    sim.players[2].x = sim.players[1].x;
    sim.bullets[0] = bullet(-440_000, -90_000, 40_000, 0, 0);
    update_bullets(&mut sim);
    assert!(sim.players[1].dead);
    assert!(!sim.players[2].dead);
    assert!(!sim.bullets[0].active);
    assert_eq!(sim.players[0].kills, 1);
    update_bullets(&mut sim);
    assert!(!sim.players[2].dead);
}

#[test]
fn deflection_turns_the_bullet_round() {
    let mut sim = playing(2);
    sim.players[1].x = 0;
    sim.players[1].y = 0;
    sim.players[1].facing_right = false;
    sim.players[1].melee_timer = 1;
    sim.bullets[0] = Bullet {
        x: -100_000,
        y: 200_000,
        vx: 28_284,
        vy: -28_284,
        owner: 0,
        lifetime: 7,
        active: true,
    };
    update_bullets(&mut sim);
    let b = sim.bullets[0];
    assert!(b.active);
    assert_eq!((b.vx, b.vy), (-28_284, 28_284));
    assert_eq!((b.x, b.y), (-71_716, 171_716));
    assert_eq!(b.owner, 1);
    assert_eq!(b.lifetime, 120);
    assert!(!sim.players[1].dead);
    assert_eq!(sim.hit_freeze, 3);
    assert_eq!(sim.cues, vec![Cue::Deflect { player: 1, x: -71_716, y: 171_716 }]);
}

#[test]
fn melee_out_of_reach_does_not_deflect() {
    let mut sim = playing(2);
    sim.players[1].x = 0;
    sim.players[1].y = 0;
    sim.players[1].facing_right = true;
    sim.players[1].melee_timer = 5;
    sim.bullets[0] = bullet(-100_000, 60_000, 40_000, 0, 0);
    update_bullets(&mut sim);
    assert_eq!(sim.bullets[0].owner, 0);
    assert_eq!(sim.bullets[0].vx, 40_000);
    assert_eq!(sim.bullets[0].x, -60_000);
    update_bullets(&mut sim);
    assert_eq!(sim.bullets[0].owner, 1);
    assert_eq!(sim.bullets[0].vx, -40_000);
    assert_eq!(sim.bullets[0].x, -20_000);
}

#[test]
fn windup_does_not_deflect() {
    let mut sim = playing(2);
    sim.players[1].x = 0;
    sim.players[1].y = 0;
    sim.players[1].melee_windup = 2;
    sim.bullets[0] = bullet(-40_000, 60_000, 40_000, 0, 0);
    update_bullets(&mut sim);
    assert!(sim.players[1].dead);
    assert_eq!(sim.players[0].kills, 1);
}

#[test]
fn deflected_bullet_can_kill_in_the_same_tick() {
    let mut sim = playing(3);
    sim.players[0].x = 800_000;
    sim.players[1].x = 100_000;
    sim.players[1].y = 0;
    sim.players[1].facing_right = false;
    sim.players[1].melee_timer = 4;
    sim.players[2].x = -40_000;
    sim.players[2].y = 0;
    sim.bullets[0] = bullet(40_000, 60_000, -40_000, 0, 0);
    update_bullets(&mut sim);
    let b = sim.bullets[0];
    assert_eq!(b.owner, 1);
    assert!(!b.active);
    assert_eq!(b.vx, 40_000);
    assert!(sim.players[2].dead);
    assert!(!sim.players[1].dead);
    assert_eq!(sim.players[1].kills, 1);
    assert_eq!(sim.players[0].kills, 0);
    assert_eq!(sim.hit_freeze, 5);
}

#[test]
fn melee_kills_everyone_in_the_swing() {
    let mut sim = playing(4);
    sim.players[0].x = 0;
    sim.players[0].facing_right = true;
    sim.players[0].melee_timer = 3;
    sim.players[1].x = 100_000;
    sim.players[2].x = 250_000;
    sim.players[3].x = -100_000;
    update_melee_hits(&mut sim);
    assert!(sim.players[1].dead);
    assert!(sim.players[2].dead);
    assert!(!sim.players[3].dead);
    assert!(!sim.players[0].dead);
    assert_eq!(sim.players[0].kills, 2);
    assert_eq!(sim.hit_freeze, 6);
    assert_eq!(sim.cues.len(), 4);
    assert_eq!(sim.cues[0], Cue::MeleeHit { victim: 1, x: 140_000, y: -90_000 });
    assert_eq!(sim.cues[1], Cue::Death { victim: 1, x: 140_000, y: -90_000 });
    assert!(sim.is_valid());
}

#[test]
fn melee_reaches_as_far_as_its_range() {
    let mut sim = playing(2);
    sim.players[0].x = 0;
    sim.players[0].facing_right = false;
    sim.players[0].melee_timer = 3;
    sim.players[1].x = -260_000;
    update_melee_hits(&mut sim);
    assert!(!sim.players[1].dead);
    sim.players[1].x = -259_999;
    update_melee_hits(&mut sim);
    assert!(sim.players[1].dead);
}

#[test]
fn melee_needs_an_active_swing() {
    let mut sim = playing(2);
    sim.players[0].x = 0;
    sim.players[0].facing_right = true;
    sim.players[1].x = 100_000;
    sim.players[0].melee_windup = 2;
    update_melee_hits(&mut sim);
    assert!(!sim.players[1].dead);
    sim.players[0].melee_windup = 0;
    sim.players[0].melee_timer = 1;
    sim.players[0].dead = true;
    update_melee_hits(&mut sim);
    assert!(!sim.players[1].dead);
}

#[test]
fn two_swings_can_kill_each_other_only_one_way() {
    let mut sim = playing(2);
    sim.players[0].x = 0;
    sim.players[0].facing_right = true;
    sim.players[0].melee_timer = 3;
    sim.players[1].x = 100_000;
    sim.players[1].facing_right = false;
    sim.players[1].melee_timer = 3;
    update_melee_hits(&mut sim);
    assert!(sim.players[1].dead);
    assert!(!sim.players[0].dead);
    assert_eq!(sim.players[0].kills, 1);
    assert_eq!(sim.players[1].kills, 0);
}

#[test]
fn killing_the_dead_changes_nothing() {
    let mut sim = playing(3);
    kill_player(&mut sim, 1, 0);
    assert!(sim.players[1].dead);
    assert_eq!(sim.players[0].kills, 1);
    let players = sim.players;
    let state = sim.state;
    let cues = sim.cues.clone();
    kill_player(&mut sim, 1, 0);
    kill_player(&mut sim, 1, 2);
    kill_player(&mut sim, 1, 1);
    assert_eq!(sim.players, players);
    assert!(sim.state == state);
    assert_eq!(sim.cues, cues);
    assert_eq!(sim.players[2].kills, 0);
}

#[test]
fn killing_oneself_scores_nothing() {
    let mut sim = playing(2);
    kill_player(&mut sim, 1, 1);
    assert!(sim.players[1].dead);
    assert_eq!(sim.players[1].respawn_timer, 90);
    assert_eq!(sim.players[1].invuln_timer, 0);
    assert_eq!(sim.players[1].kills, 0);
    assert_eq!(sim.players[0].kills, 0);
    assert_eq!(sim.state.round_end_timer, 30);
    assert_eq!(sim.cues, vec![Cue::Death { victim: 1, x: -360_000, y: -90_000 }]);
}

#[test]
fn reaching_the_kill_target_enters_the_final_ko() {
    let mut sim = playing(2);
    sim.config.kills_to_win = 3;
    sim.players[1].kills = 2;
    sim.state.round_end_timer = 12;
    kill_player(&mut sim, 0, 1);
    assert_eq!(sim.players[1].kills, 3);
    assert!(sim.state.phase == GamePhase::FinalKo);
    assert_eq!(sim.state.winner_idx, 1);
    assert_eq!(sim.state.final_ko_timer, 75);
    assert_eq!(sim.state.round_end_timer, 0);
    assert_eq!(sim.hit_freeze, 12);
    assert!(sim.transition_phase == TransitionPhase::Idle);
    assert_eq!(
        sim.cues,
        vec![Cue::Death { victim: 0, x: -760_000, y: -90_000 }, Cue::FinalKo { winner: 1 }]
    );
}

#[test]
fn a_kill_target_of_zero_counts_as_one() {
    let mut sim = playing(2);
    sim.config.kills_to_win = 0;
    kill_player(&mut sim, 0, 1);
    assert!(sim.state.phase == GamePhase::FinalKo);
}

#[test]
fn a_kill_short_of_the_target_pauses_the_round() {
    let mut sim = playing(2);
    sim.config.kills_to_win = 3;
    sim.players[1].kills = 1;
    kill_player(&mut sim, 0, 1);
    assert_eq!(sim.players[1].kills, 2);
    assert!(sim.state.phase == GamePhase::Playing);
    assert_eq!(sim.state.round_end_timer, 30);
    assert!(sim.transition_phase == TransitionPhase::FadeOut);
    assert_eq!(sim.transition_progress, 0);
    assert_eq!(sim.hit_freeze, 0);
}

#[test]
fn a_score_at_the_top_of_its_range_stays_there() {
    let mut sim = playing(2);
    sim.players[1].kills = u32::MAX;
    kill_player(&mut sim, 0, 1);
    assert_eq!(sim.players[1].kills, u32::MAX);
}

#[test]
fn only_the_first_winning_kill_enters_the_final_ko() {
    let mut sim = playing(4);
    sim.config.kills_to_win = 1;
    sim.bullets[0] = bullet(-40_000, -90_000, 40_000, 0, 0);
    sim.bullets[1] = bullet(360_000, -90_000, 40_000, 0, 1);
    update_bullets(&mut sim);
    assert!(sim.players[2].dead && sim.players[3].dead);
    assert_eq!((sim.players[0].kills, sim.players[1].kills), (1, 1));
    assert!(sim.state.phase == GamePhase::FinalKo);
    assert_eq!(sim.state.winner_idx, 0);
    assert_eq!(sim.state.final_ko_timer, 75);
    assert_eq!(sim.hit_freeze, 12);
    let holds = sim.cues.iter().filter(|c| matches!(c, Cue::FinalKo { .. })).count();
    assert_eq!(holds, 1);
    assert_eq!(sim.cues.iter().filter(|c| matches!(c, Cue::Death { .. })).count(), 2);
    assert!(sim.is_valid());
}

#[test]
fn a_kill_during_the_final_ko_is_counted_and_changes_nothing_else() {
    let mut sim = playing(3);
    sim.config.kills_to_win = 2;
    sim.state.phase = GamePhase::FinalKo;
    sim.state.winner_idx = 2;
    sim.state.final_ko_timer = 40;
    sim.hit_freeze = 3;
    sim.players[0].kills = 1;
    sim.players[2].kills = 2;
    let state = sim.state;
    kill_player(&mut sim, 1, 0);
    assert!(sim.players[1].dead);
    assert_eq!(sim.players[1].respawn_timer, 90);
    assert_eq!(sim.players[0].kills, 2);
    assert!(sim.state == state);
    assert_eq!(sim.hit_freeze, 3);
    assert_eq!(sim.cues, vec![Cue::Death { victim: 1, x: -360_000, y: -90_000 }]);
}

#[test]
fn a_swing_that_wins_twice_wins_once() {
    let mut sim = playing(3);
    sim.config.kills_to_win = 1;
    sim.players[0].x = 0;
    sim.players[0].facing_right = true;
    sim.players[0].melee_timer = 3;
    sim.players[1].x = 100_000;
    sim.players[2].x = 200_000;
    update_melee_hits(&mut sim);
    assert!(sim.players[1].dead && sim.players[2].dead);
    assert_eq!(sim.players[0].kills, 2);
    assert!(sim.state.phase == GamePhase::FinalKo);
    assert_eq!(sim.state.winner_idx, 0);
    assert_eq!(sim.cues.iter().filter(|c| matches!(c, Cue::FinalKo { .. })).count(), 1);
}
