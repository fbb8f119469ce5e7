use neon_duel::combat::Bullet;
use neon_duel::game_state::GamePhase;
use neon_duel::player::{
    check_wall_collision, choose_safe_respawn_position, find_nearest_rival, overtime_killer_for,
    spawn_players, update_player, Player,
};
use neon_duel::stage::setup_current_stage;
use neon_duel::{init, Cue, Pad, Simulation};

/// A match in play on the first stage with `count` players standing apart on the ground.
fn playing(count: usize) -> Simulation {
    let mut sim = init();
    sim.cues.clear();
    sim.state.phase = GamePhase::Playing;
    sim.state.current_stage = 0;
    setup_current_stage(&mut sim);
    for i in 0..count {
        sim.players[i].active = true;
        sim.players[i].x = -800_000 + 400_000 * i as i64;
        sim.players[i].y = -150_000;
        sim.players[i].on_ground = true;
    }
    assert!(sim.is_valid());
    sim
}

#[test]
fn new_player_is_an_unused_slot() {
    let p = Player::new();
    assert!(!p.active && !p.dead && !p.is_bot && !p.ready);
    assert!(p.facing_right);
    assert_eq!(p.ammo, 3);
    assert_eq!((p.x, p.y, p.vx, p.vy), (0, 0, 0, 0));
    assert_eq!(p.kills, 0);
    assert!(p.is_valid());
}

#[test]
fn a_slot_out_of_the_match_rests() {
    let mut sim = playing(1);
    let before = sim.players[2];
    let mut pad = Pad::new();
    pad.right = true;
    pad.a_pressed = true;
    update_player(&mut sim, 2, &pad);
    assert_eq!(sim.players[2], before);
    assert!(sim.cues.is_empty());
}

#[test]
fn standing_player_stays_on_the_ground() {
    let mut sim = playing(1);
    for _ in 0..5 {
        update_player(&mut sim, 0, &Pad::new());
        let p = sim.players[0];
        assert_eq!((p.x, p.y, p.vx, p.vy), (-800_000, -150_000, 0, 0));
        assert!(p.on_ground);
        assert_eq!(p.coyote_timer, 6);
    }
    assert!(sim.cues.is_empty());
}

#[test]
fn running_speeds_up_against_friction() {
    let mut sim = playing(1);
    sim.players[0].facing_right = false;
    let mut pad = Pad::new();
    pad.right = true;
    update_player(&mut sim, 0, &pad);
    assert_eq!(sim.players[0].vx, 1_912);
    assert_eq!(sim.players[0].x, -800_000 + 1_912);
    assert!(sim.players[0].facing_right);
    update_player(&mut sim, 0, &pad);
    assert_eq!(sim.players[0].vx, 3_537);
    assert_eq!(sim.players[0].x, -800_000 + 1_912 + 3_537);
    pad.right = false;
    pad.left = true;
    update_player(&mut sim, 0, &pad);
    assert_eq!(sim.players[0].vx, 1_093);
    assert!(!sim.players[0].facing_right);
}

#[test]
fn running_speed_has_a_limit() {
    let mut sim = playing(1);
    sim.players[0].vx = 100_000;
    let mut pad = Pad::new();
    pad.right = true;
    update_player(&mut sim, 0, &pad);
    assert_eq!(sim.players[0].vx, 15_000);
    sim.players[0].vx = -100_000;
    update_player(&mut sim, 0, &Pad::new());
    assert_eq!(sim.players[0].vx, -15_000);
}

#[test]
fn a_weak_stick_moves_without_turning() {
    let mut sim = playing(1);
    sim.players[0].facing_right = false;
    let mut pad = Pad::new();
    pad.stick_x = 40_000;
    update_player(&mut sim, 0, &pad);
    assert_eq!(sim.players[0].vx, 477);
    assert!(!sim.players[0].facing_right);
}

#[test]
fn air_control_is_weaker_and_air_friction_lighter() {
    let mut sim = playing(1);
    sim.players[0].y = 600_000;
    sim.players[0].on_ground = false;
    let mut pad = Pad::new();
    pad.left = true;
    update_player(&mut sim, 0, &pad);
    assert_eq!(sim.players[0].vx, -1_140);
    assert_eq!(sim.players[0].vy, -2_500);
    assert_eq!(sim.players[0].y, 597_500);
    assert!(!sim.players[0].on_ground);
}

#[test]
fn jump_pressed_on_the_ground_also_kicks_off_the_floor() {
    let mut sim = playing(1);
    sim.players[0].facing_right = false;
    let mut pad = Pad::new();
    pad.a_pressed = true;
    pad.a = true;
    update_player(&mut sim, 0, &pad);
    let p = sim.players[0];
    assert_eq!(p.vy, 42_500);
    assert_eq!(p.y, -107_500);
    assert_eq!(p.vx, 12_000);
    assert_eq!(p.x, -788_000);
    assert!(p.facing_right);
    assert!(!p.on_ground);
    assert_eq!(p.jump_buffer, 0);
    assert_eq!(p.coyote_timer, 0);
    assert_eq!(
        sim.cues,
        vec![Cue::Jump { player: 0, x: -800_000 }, Cue::Jump { player: 0, x: -800_000 }]
    );
    pad.a_pressed = false;
    update_player(&mut sim, 0, &pad);
    assert_eq!(sim.players[0].vy, 40_000);
    assert_eq!(sim.players[0].y, -67_500);
    assert_eq!(sim.players[0].vx, 11_400);
}

#[test]
fn released_jump_is_cut_short() {
    let mut sim = playing(1);
    let mut pad = Pad::new();
    pad.a_pressed = true;
    update_player(&mut sim, 0, &pad);
    assert_eq!(sim.players[0].vy, 20_000);
    assert_eq!(sim.players[0].y, -130_000);
    update_player(&mut sim, 0, &Pad::new());
    assert_eq!(sim.players[0].vy, 7_500);
}

#[test]
fn early_jump_press_is_remembered_until_landing() {
    let mut sim = playing(1);
    sim.players[0].y = -140_000;
    sim.players[0].on_ground = false;
    sim.players[0].coyote_timer = 0;
    let mut pad = Pad::new();
    pad.a_pressed = true;
    pad.a = true;
    update_player(&mut sim, 0, &pad);
    assert_eq!(sim.players[0].jump_buffer, 6);
    assert_eq!(sim.players[0].y, -142_500);
    pad.a_pressed = false;
    update_player(&mut sim, 0, &pad);
    assert_eq!(sim.players[0].jump_buffer, 5);
    assert_eq!(sim.players[0].y, -147_500);
    update_player(&mut sim, 0, &pad);
    assert!(sim.players[0].on_ground);
    assert_eq!(sim.players[0].y, -150_000);
    assert_eq!(sim.players[0].jump_buffer, 4);
    update_player(&mut sim, 0, &pad);
    assert!(!sim.players[0].on_ground);
    assert_eq!(sim.players[0].vy, 47_500);
    assert_eq!(sim.players[0].jump_buffer, 0);
}

#[test]
fn coyote_time_allows_a_late_jump() {
    let mut sim = playing(1);
    sim.players[0].y = 600_000;
    sim.players[0].on_ground = false;
    sim.players[0].coyote_timer = 2;
    let mut pad = Pad::new();
    pad.a_pressed = true;
    pad.a = true;
    update_player(&mut sim, 0, &pad);
    assert_eq!(sim.players[0].vy, 47_500);
    assert_eq!(sim.players[0].coyote_timer, 0);
    sim.players[0].vy = 0;
    update_player(&mut sim, 0, &pad);
    assert_eq!(sim.players[0].vy, -2_500);
    assert_eq!(sim.players[0].jump_buffer, 6);
}

#[test]
fn coyote_time_runs_out() {
    let mut sim = playing(1);
    sim.players[0].y = 600_000;
    sim.players[0].on_ground = false;
    sim.players[0].coyote_timer = 1;
    let mut pad = Pad::new();
    pad.a_pressed = true;
    pad.a = true;
    update_player(&mut sim, 0, &pad);
    assert_eq!(sim.players[0].coyote_timer, 0);
    assert_eq!(sim.players[0].vy, -2_500);
}

#[test]
fn down_and_jump_drops_through_the_floor() {
    let mut sim = playing(1);
    sim.players[0].x = -500_000;
    sim.players[0].y = 140_000;
    let mut pad = Pad::new();
    pad.down = true;
    pad.a_pressed = true;
    pad.a = true;
    update_player(&mut sim, 0, &pad);
    let p = sim.players[0];
    assert_eq!(p.drop_timer, 9);
    assert!(!p.on_ground);
    assert_eq!(p.vy, -9_375);
    assert_eq!(p.y, 130_625);
    assert_eq!(p.jump_buffer, 0);
    assert!(sim.cues.is_empty());
}

#[test]
fn holding_down_in_the_air_falls_fast() {
    let mut sim = playing(1);
    sim.players[0].y = 600_000;
    sim.players[0].on_ground = false;
    let mut pad = Pad::new();
    pad.stick_y = -80_000;
    update_player(&mut sim, 0, &pad);
    assert_eq!(sim.players[0].vy, -2_500);
    pad.stick_y = -81_000;
    sim.players[0].vy = 0;
    update_player(&mut sim, 0, &pad);
    assert_eq!(sim.players[0].vy, -4_375);
}

#[test]
fn falling_speed_has_a_limit() {
    let mut sim = playing(1);
    sim.players[0].x = 0;
    sim.players[0].y = 90_000_000;
    sim.players[0].vy = -999_000;
    sim.players[0].on_ground = false;
    update_player(&mut sim, 0, &Pad::new());
    assert_eq!(sim.players[0].vy, -1_000_000);
    assert_eq!(sim.players[0].y, 89_000_000);
    assert!(sim.is_valid());
}

#[test]
fn falling_player_lands_on_a_platform() {
    let mut sim = playing(1);
    sim.players[0].x = -500_000;
    sim.players[0].y = 145_000;
    sim.players[0].vy = -10_000;
    sim.players[0].on_ground = false;
    update_player(&mut sim, 0, &Pad::new());
    let p = sim.players[0];
    assert!(p.on_ground);
    assert_eq!(p.y, 140_000);
    assert_eq!(p.vy, 0);
    assert_eq!(sim.cues, vec![Cue::Land { player: 0, x: -460_000, y: 140_000 }]);
}

#[test]
fn rising_player_passes_through_a_platform() {
    let mut sim = playing(1);
    sim.players[0].x = -500_000;
    sim.players[0].y = 0;
    sim.players[0].vy = 40_000;
    sim.players[0].on_ground = false;
    let mut pad = Pad::new();
    pad.a = true;
    update_player(&mut sim, 0, &pad);
    assert!(!sim.players[0].on_ground);
    assert_eq!(sim.players[0].y, 37_500);
    assert_eq!(sim.players[0].vy, 37_500);
}

#[test]
fn player_too_deep_in_a_platform_does_not_land() {
    let mut sim = playing(1);
    sim.players[0].x = -500_000;
    sim.players[0].y = 119_999;
    sim.players[0].vy = -1_000;
    sim.players[0].on_ground = false;
    update_player(&mut sim, 0, &Pad::new());
    assert!(!sim.players[0].on_ground);
    assert_eq!(sim.players[0].y, 116_499);
    sim.players[0].y = 120_000;
    sim.players[0].vy = -1_000;
    update_player(&mut sim, 0, &Pad::new());
    assert!(sim.players[0].on_ground);
    assert_eq!(sim.players[0].y, 140_000);
}

#[test]
fn moving_platform_carries_the_player() {
    let mut sim = playing(1);
    sim.state.current_stage = 2;
    setup_current_stage(&mut sim);
    sim.players[0].x = -100_000;
    sim.players[0].y = 140_000;
    update_player(&mut sim, 0, &Pad::new());
    assert!(sim.players[0].on_ground);
    assert_eq!(sim.players[0].x, -98_000);
    assert_eq!(sim.players[0].y, 140_000);
}

#[test]
fn jump_beside_a_wall_kicks_away_from_it() {
    let mut sim = playing(1);
    sim.players[0].x = -290_000;
    sim.players[0].y = 50_000;
    sim.players[0].on_ground = false;
    sim.players[0].coyote_timer = 0;
    let mut pad = Pad::new();
    pad.a_pressed = true;
    pad.a = true;
    update_player(&mut sim, 0, &pad);
    let p = sim.players[0];
    assert_eq!(p.vy, 42_500);
    assert_eq!(p.vx, 12_000);
    assert!(p.facing_right);
    assert_eq!(p.x, -278_000);
    assert_eq!(sim.cues, vec![Cue::Jump { player: 0, x: -290_000 }]);
}

#[test]
fn wall_on_the_right_kicks_to_the_left() {
    let mut sim = playing(1);
    sim.players[0].x = 210_000;
    sim.players[0].y = 50_000;
    sim.players[0].on_ground = false;
    sim.players[0].coyote_timer = 0;
    let mut pad = Pad::new();
    pad.a_pressed = true;
    pad.a = true;
    update_player(&mut sim, 0, &pad);
    assert_eq!(sim.players[0].vx, -12_000);
    assert!(!sim.players[0].facing_right);
    assert_eq!(sim.players[0].vy, 42_500);
}

#[test]
fn sliding_down_a_wall_raises_a_cue() {
    let mut sim = playing(1);
    sim.players[0].x = 210_000;
    sim.players[0].y = 50_000;
    sim.players[0].vy = -6_000;
    sim.players[0].on_ground = false;
    update_player(&mut sim, 0, &Pad::new());
    assert_eq!(
        sim.cues,
        vec![Cue::WallSlide { player: 0, x: 290_000, y: 110_000, wall_on_right: true }]
    );
    sim.cues.clear();
    sim.players[0].vy = -5_000;
    sim.players[0].y = 50_000;
    update_player(&mut sim, 0, &Pad::new());
    assert!(sim.cues.is_empty());
}

#[test]
fn walls_are_felt_a_little_beside_the_player() {
    let sim = playing(1);
    assert!(check_wall_collision(&sim, -300_000, 100_000, 220_000));
    assert!(check_wall_collision(&sim, -700_000, 140_000, 150_000));
    assert!(!check_wall_collision(&sim, -299_999, 100_000, 220_000));
    assert!(!check_wall_collision(&sim, -500_000, 140_001, 300_000));
    assert!(!check_wall_collision(&sim, -500_000, 0, 99_999));
    assert!(check_wall_collision(&sim, 0, -500_000, -200_000));
}

#[test]
fn shooting_costs_ammo_and_needs_some() {
    let mut sim = playing(1);
    let mut pad = Pad::new();
    pad.b_pressed = true;
    pad.up = true;
    for shot in 0..3u32 {
        update_player(&mut sim, 0, &pad);
        assert_eq!(sim.players[0].ammo, 2 - shot);
        assert_eq!(sim.players[0].shoot_flash, 5);
        assert!(sim.bullets[shot as usize].active);
        assert_eq!(sim.bullets[shot as usize].vy, 40_000);
    }
    update_player(&mut sim, 0, &pad);
    assert_eq!(sim.players[0].ammo, 0);
    assert!(!sim.bullets[3].active);
    assert_eq!(sim.players[0].shoot_flash, 4);
}

#[test]
fn shot_raises_its_cues_in_order() {
    let mut sim = playing(1);
    let mut pad = Pad::new();
    pad.b_pressed = true;
    update_player(&mut sim, 0, &pad);
    assert_eq!(
        sim.cues,
        vec![Cue::MuzzleFlash { x: -760_000, y: -90_000 }, Cue::Shoot { player: 0, x: -800_000 }]
    );
}

#[test]
fn shot_with_a_full_pool_still_costs_ammo() {
    let mut sim = playing(1);
    for slot in 0..32 {
        sim.bullets[slot] =
            Bullet { x: 0, y: 500_000, vx: 0, vy: 0, owner: 0, lifetime: 50, active: true };
    }
    let mut pad = Pad::new();
    pad.b_pressed = true;
    update_player(&mut sim, 0, &pad);
    assert_eq!(sim.players[0].ammo, 2);
    assert_eq!(sim.cues, vec![Cue::Shoot { player: 0, x: -800_000 }]);
}

#[test]
fn melee_winds_up_then_swings_and_dashes() {
    let mut sim = playing(1);
    let mut pad = Pad::new();
    pad.x_pressed = true;
    update_player(&mut sim, 0, &pad);
    assert_eq!((sim.players[0].melee_windup, sim.players[0].melee_timer), (2, 0));
    update_player(&mut sim, 0, &pad);
    assert_eq!((sim.players[0].melee_windup, sim.players[0].melee_timer), (1, 0));
    assert_eq!(sim.players[0].vx, 0);
    update_player(&mut sim, 0, &Pad::new());
    assert_eq!((sim.players[0].melee_windup, sim.players[0].melee_timer), (0, 11));
    assert_eq!(sim.players[0].vx, 15_000);
    assert_eq!(sim.players[0].x, -785_000);
    update_player(&mut sim, 0, &pad);
    assert_eq!((sim.players[0].melee_windup, sim.players[0].melee_timer), (0, 10));
    assert_eq!(sim.players[0].vx, 12_750);
    for left in (0..10).rev() {
        update_player(&mut sim, 0, &Pad::new());
        assert_eq!(sim.players[0].melee_timer, left);
        assert_eq!(sim.players[0].melee_windup, 0);
    }
    update_player(&mut sim, 0, &pad);
    assert_eq!((sim.players[0].melee_windup, sim.players[0].melee_timer), (2, 0));
}

#[test]
fn melee_dash_goes_where_the_player_faces() {
    let mut sim = playing(1);
    sim.players[0].facing_right = false;
    sim.players[0].melee_windup = 1;
    update_player(&mut sim, 0, &Pad::new());
    assert_eq!(sim.players[0].vx, -15_000);
    assert_eq!(sim.players[0].melee_timer, 11);
}

#[test]
fn melee_blocks_shooting() {
    let mut sim = playing(1);
    let mut pad = Pad::new();
    pad.b_pressed = true;
    sim.players[0].melee_windup = 2;
    update_player(&mut sim, 0, &pad);
    assert_eq!(sim.players[0].ammo, 3);
    sim.players[0].melee_windup = 0;
    sim.players[0].melee_timer = 5;
    update_player(&mut sim, 0, &pad);
    assert_eq!(sim.players[0].ammo, 3);
    assert!(!sim.bullets[0].active);
}

#[test]
fn arena_bounds_hold_the_player() {
    let mut sim = playing(1);
    sim.players[0].x = -1_000_000;
    let mut pad = Pad::new();
    pad.left = true;
    update_player(&mut sim, 0, &pad);
    assert_eq!(sim.players[0].x, -1_000_000);
    assert!(!sim.players[0].dead);
    sim.players[0].x = 1_000_000 - 80_000;
    pad.left = false;
    pad.right = true;
    sim.players[0].vx = 0;
    update_player(&mut sim, 0, &pad);
    assert_eq!(sim.players[0].x, 920_000);
    assert!(!sim.players[0].dead);
}

#[test]
fn overtime_wall_spares_a_player_that_only_touches_it() {
    let mut sim = playing(2);
    sim.state.overtime = true;
    sim.players[0].x = -1_000_000;
    update_player(&mut sim, 0, &Pad::new());
    assert!(!sim.players[0].dead);
}

#[test]
fn falling_off_the_stage_is_a_death_without_a_score() {
    let mut sim = playing(2);
    sim.state.current_stage = 1;
    setup_current_stage(&mut sim);
    sim.players[0].x = 0;
    sim.players[0].y = -795_000;
    sim.players[0].vy = -10_000;
    sim.players[0].on_ground = false;
    update_player(&mut sim, 0, &Pad::new());
    assert_eq!(sim.players[0].y, -807_500);
    assert!(sim.players[0].dead);
    assert_eq!(sim.players[0].kills, 0);
    assert_eq!(sim.players[1].kills, 0);
    assert_eq!(sim.players[0].respawn_timer, 90);
    assert_eq!(sim.cues, vec![Cue::Death { victim: 0, x: 40_000, y: -747_500 }]);
}

#[test]
fn player_exactly_at_the_death_line_lives() {
    let mut sim = playing(1);
    sim.state.current_stage = 1;
    setup_current_stage(&mut sim);
    sim.players[0].x = 0;
    sim.players[0].y = -797_500;
    sim.players[0].vy = 0;
    sim.players[0].on_ground = false;
    update_player(&mut sim, 0, &Pad::new());
    assert_eq!(sim.players[0].y, -800_000);
    assert!(!sim.players[0].dead);
}

#[test]
fn dead_player_is_frozen_until_it_respawns() {
    let mut sim = playing(2);
    sim.players[0].dead = true;
    sim.players[0].respawn_timer = 2;
    sim.players[0].vx = 7_000;
    sim.players[0].vy = -9_000;
    sim.players[0].ammo = 1;
    sim.players[0].kills = 2;
    let mut pad = Pad::new();
    pad.right = true;
    pad.b_pressed = true;
    let mut expected = sim.players[0];
    for timer in (0..2).rev() {
        update_player(&mut sim, 0, &pad);
        expected.respawn_timer = timer;
        assert_eq!(sim.players[0], expected);
    }
    assert!(sim.cues.is_empty());
    update_player(&mut sim, 0, &pad);
    let p = sim.players[0];
    assert!(!p.dead);
    assert_eq!(p.ammo, 3);
    assert_eq!(p.invuln_timer, 60);
    assert_eq!(p.spawn_flash, 30);
    assert_eq!((p.vx, p.vy), (0, 0));
    assert_eq!(p.kills, 2);
    assert_eq!((p.x, p.y), (500_000, 150_000));
    assert_eq!(sim.cues, vec![Cue::Spawn { player: 0, x: 500_000, y: 150_000 }]);
}

#[test]
fn invulnerability_runs_down() {
    let mut sim = playing(1);
    sim.players[0].invuln_timer = 2;
    update_player(&mut sim, 0, &Pad::new());
    assert_eq!(sim.players[0].invuln_timer, 1);
    update_player(&mut sim, 0, &Pad::new());
    update_player(&mut sim, 0, &Pad::new());
    assert_eq!(sim.players[0].invuln_timer, 0);
}

#[test]
fn respawn_avoids_the_nearest_threat() {
    let mut sim = playing(2);
    sim.players[1].x = -500_000;
    sim.players[1].y = 150_000;
    assert_eq!(choose_safe_respawn_position(&sim, 0), (500_000, 150_000));
    sim.bullets[9] =
        Bullet { x: 540_000, y: 210_000, vx: 0, vy: 0, owner: 1, lifetime: 50, active: true };
    assert_eq!(choose_safe_respawn_position(&sim, 0), (-200_000, 450_000));
    sim.bullets[9].active = false;
    assert_eq!(choose_safe_respawn_position(&sim, 0), (500_000, 150_000));
    sim.players[1].dead = true;
    assert_eq!(choose_safe_respawn_position(&sim, 0), (-500_000, 150_000));
}

#[test]
fn respawn_preference_rotates_with_time_and_slot() {
    let mut sim = playing(1);
    sim.players[0].dead = true;
    assert_eq!(choose_safe_respawn_position(&sim, 0), (-500_000, 150_000));
    assert_eq!(choose_safe_respawn_position(&sim, 3), (200_000, 450_000));
    sim.tick = 29;
    assert_eq!(choose_safe_respawn_position(&sim, 0), (-500_000, 150_000));
    sim.tick = 30;
    assert_eq!(choose_safe_respawn_position(&sim, 0), (500_000, 150_000));
    sim.tick = 60;
    assert_eq!(choose_safe_respawn_position(&sim, 1), (200_000, 450_000));
    sim.tick = 90;
    assert_eq!(choose_safe_respawn_position(&sim, 1), (-500_000, 150_000));
}

#[test]
fn respawn_ignores_the_own_position() {
    let mut sim = playing(1);
    sim.players[0].x = -500_000;
    sim.players[0].y = 150_000;
    sim.players[0].dead = true;
    assert_eq!(choose_safe_respawn_position(&sim, 0), (-500_000, 150_000));
}

#[test]
fn nearest_rival_is_the_closest_living_opponent() {
    let mut sim = playing(4);
    assert_eq!(find_nearest_rival(&sim, 0), 1);
    assert_eq!(find_nearest_rival(&sim, 3), 2);
    assert_eq!(find_nearest_rival(&sim, 1), 0);
    sim.players[0].dead = true;
    assert_eq!(find_nearest_rival(&sim, 1), 2);
    sim.players[2].active = false;
    assert_eq!(find_nearest_rival(&sim, 1), 3);
    assert_eq!(overtime_killer_for(&sim, 1), 3);
    sim.players[3].dead = true;
    assert_eq!(find_nearest_rival(&sim, 1), 1);
    assert_eq!(overtime_killer_for(&sim, 1), 1);
}

#[test]
fn players_spawn_on_their_points_with_fresh_state() {
    let mut sim = playing(3);
    sim.tick = 5;
    sim.players[1].active = false;
    sim.players[0].kills = 4;
    sim.players[0].ammo = 0;
    sim.players[0].dead = true;
    sim.players[0].ready = true;
    sim.players[2].is_bot = true;
    sim.players[2].melee_timer = 7;
    sim.players[2].vx = 9_000;
    let idle = sim.players[1];
    spawn_players(&mut sim);
    let p = sim.players[0];
    assert_eq!((p.x, p.y, p.vx, p.vy), (-500_000, 150_000, 0, 0));
    assert!(p.active && !p.dead && p.ready && !p.is_bot && p.facing_right && !p.on_ground);
    assert_eq!(p.kills, 4);
    assert_eq!(p.ammo, 3);
    assert_eq!(p.invuln_timer, 60);
    assert_eq!(p.spawn_flash, 30);
    assert_eq!(p.ai_seed, 1_103_515_245 ^ 5);
    assert_eq!(sim.players[1], idle);
    let q = sim.players[2];
    assert_eq!((q.x, q.y, q.vx), (-200_000, 450_000, 0));
    assert!(q.is_bot && q.facing_right);
    assert_eq!(q.melee_timer, 0);
    assert_eq!(q.ai_seed, 3_310_545_735 ^ 5);
    assert_eq!(
        sim.cues,
        vec![
            Cue::Spawn { player: 0, x: -500_000, y: 150_000 },
            Cue::Spawn { player: 2, x: -200_000, y: 450_000 },
        ]
    );
    assert!(sim.is_valid());
}

#[test]
fn a_seed_is_kept_once_a_bot_has_one() {
    let mut sim = playing(2);
    sim.players[1].ai_seed = 77;
    sim.tick = 1_000;
    spawn_players(&mut sim);
    assert_eq!(sim.players[1].ai_seed, 77);
    assert!(!sim.players[1].facing_right);
    assert_eq!(sim.players[0].ai_seed, 1_103_515_245 ^ 1_000);
}
