use neon_duel::bot::ai_controls;
use neon_duel::combat::Bullet;
use neon_duel::game_state::GamePhase;
use neon_duel::player::{update_player, Controls};
use neon_duel::stage::setup_current_stage;
use neon_duel::{init, Pad, Simulation};

/// A bot in slot 0 on the ground and a human `dx` to its right, `dy` above it.
fn duel(dx: i64, dy: i64) -> Simulation {
    let mut sim = init();
    sim.cues.clear();
    sim.state.phase = GamePhase::Playing;
    sim.state.current_stage = 0;
    setup_current_stage(&mut sim);
    sim.players[0].active = true;
    sim.players[0].is_bot = true;
    sim.players[0].x = 0;
    sim.players[0].y = -150_000;
    sim.players[0].on_ground = true;
    sim.players[1].active = true;
    sim.players[1].x = dx;
    sim.players[1].y = -150_000 + dy;
    assert!(sim.is_valid());
    sim
}

fn controls(x: i64, y: i64) -> Controls {
    Controls {
        x,
        y,
        jump_pressed: false,
        jump_held: false,
        shoot_pressed: false,
        melee_pressed: false,
    }
}

#[test]
fn bot_without_a_target_stands_idle() {
    let mut sim = duel(400_000, 0);
    sim.players[1].dead = true;
    sim.players[0].ai_shoot_cooldown = 3;
    sim.players[0].ai_melee_cooldown = 1;
    sim.players[0].ai_jump_hold = 2;
    let c = ai_controls(&mut sim, 0);
    assert_eq!(c, Controls { jump_held: true, ..controls(0, 0) });
    assert_eq!(sim.players[0].ai_shoot_cooldown, 2);
    assert_eq!(sim.players[0].ai_melee_cooldown, 0);
    assert_eq!(sim.players[0].ai_jump_hold, 1);
    let c = ai_controls(&mut sim, 0);
    assert_eq!(c, controls(0, 0));
    assert_eq!(sim.players[0].ai_jump_hold, 0);
}

#[test]
fn bot_walks_toward_and_shoots_at_a_distant_target() {
    let mut sim = duel(400_000, 0);
    let c = ai_controls(&mut sim, 0);
    assert_eq!(c, Controls { shoot_pressed: true, ..controls(100_000, 0) });
    assert_eq!(sim.players[0].ai_shoot_cooldown, 25);
    assert_eq!(sim.players[0].ai_melee_cooldown, 0);
    let c = ai_controls(&mut sim, 0);
    assert_eq!(c, controls(100_000, 0));
    assert_eq!(sim.players[0].ai_shoot_cooldown, 24);
}

#[test]
fn bot_aims_at_a_target_to_the_left_and_below() {
    let mut sim = duel(-400_000, 0);
    sim.players[0].y = 400_000;
    sim.players[0].on_ground = false;
    let c = ai_controls(&mut sim, 0);
    assert_eq!(c, Controls { shoot_pressed: true, ..controls(-100_000, -100_000) });
}

#[test]
fn shot_cooldown_depends_on_the_difficulty() {
    for (difficulty, cooldown) in [(0u32, 40u32), (1, 25), (2, 15), (9, 15)] {
        let mut sim = duel(400_000, 0);
        sim.config.bot_difficulty = difficulty;
        let c = ai_controls(&mut sim, 0);
        assert!(c.shoot_pressed);
        assert_eq!(sim.players[0].ai_shoot_cooldown, cooldown);
    }
}

#[test]
fn bot_without_ammo_or_in_melee_does_not_shoot() {
    let mut sim = duel(400_000, 0);
    sim.players[0].ammo = 0;
    assert!(!ai_controls(&mut sim, 0).shoot_pressed);
    sim.players[0].ammo = 3;
    sim.players[0].melee_windup = 1;
    assert!(!ai_controls(&mut sim, 0).shoot_pressed);
    sim.players[0].melee_windup = 0;
    sim.players[0].melee_timer = 1;
    assert!(!ai_controls(&mut sim, 0).shoot_pressed);
    sim.players[0].melee_timer = 0;
    assert!(ai_controls(&mut sim, 0).shoot_pressed);
}

#[test]
fn bot_does_not_shoot_at_a_target_out_of_reach() {
    let mut sim = duel(1_000_000, 0);
    sim.players[0].x = -1_000_000;
    sim.players[1].x = 0;
    assert!(!ai_controls(&mut sim, 0).shoot_pressed);
    sim.players[1].x = -1;
    assert!(ai_controls(&mut sim, 0).shoot_pressed);
}

#[test]
fn bot_swings_at_a_target_in_reach() {
    let mut sim = duel(169_999, 0);
    let c = ai_controls(&mut sim, 0);
    assert_eq!(c, Controls { melee_pressed: true, ..controls(100_000, 0) });
    assert_eq!(sim.players[0].ai_melee_cooldown, 20);
    assert_eq!(sim.players[0].ai_shoot_cooldown, 0);
    let c = ai_controls(&mut sim, 0);
    assert_eq!(c, Controls { shoot_pressed: true, ..controls(100_000, 0) });
    assert_eq!(sim.players[0].ai_melee_cooldown, 19);
}

#[test]
fn swing_cooldown_depends_on_the_difficulty() {
    for (difficulty, cooldown) in [(0u32, 30u32), (1, 20), (2, 12)] {
        let mut sim = duel(100_000, 0);
        sim.config.bot_difficulty = difficulty;
        assert!(ai_controls(&mut sim, 0).melee_pressed);
        assert_eq!(sim.players[0].ai_melee_cooldown, cooldown);
    }
}

#[test]
fn easier_bots_want_a_clearer_shot() {
    let mut sim = duel(170_000, 0);
    sim.players[0].ai_melee_cooldown = 50;
    sim.config.bot_difficulty = 0;
    sim.players[1].x = 150_000;
    assert!(!ai_controls(&mut sim, 0).shoot_pressed);
    sim.players[1].x = 150_001;
    assert!(ai_controls(&mut sim, 0).shoot_pressed);
    sim.players[0].ai_shoot_cooldown = 0;
    sim.config.bot_difficulty = 1;
    sim.players[1].x = 90_000;
    assert!(!ai_controls(&mut sim, 0).shoot_pressed);
    sim.players[1].x = 90_001;
    assert!(ai_controls(&mut sim, 0).shoot_pressed);
    sim.players[0].ai_shoot_cooldown = 0;
    sim.config.bot_difficulty = 2;
    sim.players[1].x = 0;
    assert!(ai_controls(&mut sim, 0).shoot_pressed);
}

#[test]
fn bot_parries_a_bullet_that_comes_close() {
    let mut sim = duel(800_000, 0);
    sim.bullets[4] =
        Bullet { x: 240_000, y: -90_000, vx: -40_000, vy: 0, owner: 1, lifetime: 50, active: true };
    let c = ai_controls(&mut sim, 0);
    assert!(c.melee_pressed);
    assert!(!c.shoot_pressed);
    assert_eq!(sim.players[0].ai_melee_cooldown, 20);
    sim.players[0].ai_melee_cooldown = 0;
    sim.bullets[4].x = 247_000;
    assert!(!ai_controls(&mut sim, 0).melee_pressed);
    sim.bullets[4].x = 246_999;
    sim.players[0].ai_melee_cooldown = 0;
    assert!(ai_controls(&mut sim, 0).melee_pressed);
}

#[test]
fn bot_ignores_its_own_bullets() {
    let mut sim = duel(800_000, 0);
    sim.bullets[0] =
        Bullet { x: 80_000, y: -90_000, vx: 40_000, vy: 0, owner: 0, lifetime: 50, active: true };
    assert!(!ai_controls(&mut sim, 0).melee_pressed);
}

#[test]
fn bot_jumps_toward_a_target_above() {
    let mut sim = duel(300_000, 100_001);
    let c = ai_controls(&mut sim, 0);
    assert!(c.jump_pressed);
    assert!(c.jump_held);
    assert_eq!(c.y, 100_000);
    assert_eq!(sim.players[0].ai_jump_hold, 8);
    sim.players[0].on_ground = false;
    let c = ai_controls(&mut sim, 0);
    assert!(!c.jump_pressed);
    assert!(c.jump_held);
    assert_eq!(sim.players[0].ai_jump_hold, 7);
    let mut low = duel(300_000, 100_000);
    assert!(!ai_controls(&mut low, 0).jump_pressed);
    let mut far = duel(500_000, 200_000);
    assert!(!ai_controls(&mut far, 0).jump_pressed);
}

#[test]
fn bot_strafes_away_in_its_strafing_modes() {
    let mut sim = duel(10_000, 0);
    sim.players[0].ai_melee_cooldown = 99;
    sim.players[0].ai_shoot_cooldown = 99;
    sim.tick = 0;
    assert_eq!(ai_controls(&mut sim, 0).x, 0);
    sim.tick = 45;
    assert_eq!(ai_controls(&mut sim, 0).x, -100_000);
    sim.tick = 90;
    assert_eq!(ai_controls(&mut sim, 0).x, -100_000);
    sim.tick = 135;
    assert_eq!(ai_controls(&mut sim, 0).x, 0);
    sim.tick = 0;
    sim.players[0].ai_seed = 1;
    assert_eq!(ai_controls(&mut sim, 0).x, -100_000);
    sim.players[1].x = -10_000;
    assert_eq!(ai_controls(&mut sim, 0).x, 100_000);
    sim.players[0].ai_seed = u32::MAX;
    sim.tick = 90;
    assert_eq!(ai_controls(&mut sim, 0).x, 100_000);
    sim.tick = 135;
    assert_eq!(ai_controls(&mut sim, 0).x, 100_000);
    sim.tick = 180;
    assert_eq!(ai_controls(&mut sim, 0).x, 0);
}

#[test]
fn bot_plays_through_the_player_update() {
    let mut sim = duel(400_000, 0);
    update_player(&mut sim, 0, &Pad::new());
    assert!(sim.bullets[0].active);
    assert_eq!(sim.bullets[0].owner, 0);
    assert_eq!((sim.bullets[0].vx, sim.bullets[0].vy), (40_000, 0));
    assert_eq!(sim.players[0].ammo, 2);
    assert_eq!(sim.players[0].vx, 1_912);
    assert_eq!(sim.players[0].ai_shoot_cooldown, 25);
    let mut pad = Pad::new();
    pad.left = true;
    pad.x_pressed = true;
    update_player(&mut sim, 0, &pad);
    assert_eq!(sim.players[0].vx, 3_537);
    assert_eq!(sim.players[0].melee_windup, 0);
}
