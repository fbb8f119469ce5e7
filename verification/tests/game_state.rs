use neon_duel::game_state::{
    is_frozen, is_transitioning, register_deflect, reset_match_end_tick, round_time_limit_ticks,
    start_transition_in, start_transition_out, trigger_hit_freeze, trigger_impact_flash,
    update_deflect_popup, update_hit_freeze, update_impact_flash, update_match_end_tick,
    update_transition, GameConfig, GamePhase, GameState, Options, TransitionPhase,
    STAGE_SELECT_ROTATE,
};
use neon_duel::{init, Cue};

#[test]
fn simulation_starts_on_the_title_screen() {
    let sim = init();
    assert!(sim.state.phase == GamePhase::Title);
    assert_eq!(sim.tick, 0);
    assert_eq!(sim.round_number, 1);
    assert!(sim.players.iter().all(|p| !p.active));
    assert!(sim.bullets.iter().all(|b| !b.active));
    assert!(sim.platforms.iter().all(|p| !p.active));
    assert_eq!(sim.cues, vec![Cue::MenuMusic]);
    assert!(sim.is_valid());
}

#[test]
fn rules_and_options_have_their_defaults() {
    let c = GameConfig::new();
    assert_eq!(c.stage_select, STAGE_SELECT_ROTATE);
    assert_eq!(c.kills_to_win, 5);
    assert_eq!(c.round_time_seconds, 45);
    assert!(c.fill_bots);
    assert_eq!(c.bot_difficulty, 1);
    let o = Options::new();
    assert_eq!((o.music_volume, o.sfx_volume), (60, 85));
    assert!(o.screen_shake && o.screen_flash);
    assert!(o.is_valid());
    let s = GameState::new();
    assert!(s.phase == GamePhase::Title);
    assert_eq!(s.countdown, 180);
    assert_eq!((s.arena_left, s.arena_right), (-1_000_000, 1_000_000));
    assert!(!s.overtime && !s.demo_mode);
    assert!(s.paused_from == GamePhase::Playing);
    assert!(s.is_valid());
}

#[test]
fn round_time_is_counted_in_ticks() {
    let mut sim = init();
    assert_eq!(round_time_limit_ticks(&sim), 2_700);
    sim.config.round_time_seconds = 0;
    assert_eq!(round_time_limit_ticks(&sim), 0);
    sim.config.round_time_seconds = 71_582_788;
    assert_eq!(round_time_limit_ticks(&sim), 4_294_967_280);
    sim.config.round_time_seconds = 71_582_789;
    assert_eq!(round_time_limit_ticks(&sim), u32::MAX);
    sim.config.round_time_seconds = u32::MAX;
    assert_eq!(round_time_limit_ticks(&sim), u32::MAX);
}

#[test]
fn a_longer_freeze_is_not_cut_short() {
    let mut sim = init();
    assert!(!is_frozen(&sim));
    trigger_hit_freeze(&mut sim, 5);
    assert_eq!(sim.hit_freeze, 5);
    trigger_hit_freeze(&mut sim, 3);
    assert_eq!(sim.hit_freeze, 5);
    trigger_hit_freeze(&mut sim, 12);
    assert_eq!(sim.hit_freeze, 12);
    assert!(is_frozen(&sim));
    for left in (0..12).rev() {
        update_hit_freeze(&mut sim);
        assert_eq!(sim.hit_freeze, left);
    }
    assert!(!is_frozen(&sim));
    update_hit_freeze(&mut sim);
    assert_eq!(sim.hit_freeze, 0);
}

#[test]
fn impact_flash_lasts_three_ticks() {
    let mut sim = init();
    trigger_impact_flash(&mut sim);
    assert_eq!(sim.impact_flash, 3);
    update_impact_flash(&mut sim);
    update_impact_flash(&mut sim);
    assert_eq!(sim.impact_flash, 1);
    sim.options.screen_flash = false;
    trigger_impact_flash(&mut sim);
    assert_eq!(sim.impact_flash, 1);
    update_impact_flash(&mut sim);
    update_impact_flash(&mut sim);
    assert_eq!(sim.impact_flash, 0);
}

#[test]
fn deflect_popup_names_the_player() {
    let mut sim = init();
    register_deflect(&mut sim, 2);
    assert_eq!((sim.deflect_player, sim.deflect_popup_ticks), (2, 45));
    update_deflect_popup(&mut sim);
    assert_eq!(sim.deflect_popup_ticks, 44);
    register_deflect(&mut sim, 9);
    assert_eq!((sim.deflect_player, sim.deflect_popup_ticks), (3, 45));
    for _ in 0..50 {
        update_deflect_popup(&mut sim);
    }
    assert_eq!(sim.deflect_popup_ticks, 0);
}

#[test]
fn match_end_clock_counts_and_wraps() {
    let mut sim = init();
    update_match_end_tick(&mut sim);
    update_match_end_tick(&mut sim);
    assert_eq!(sim.match_end_tick, 2);
    reset_match_end_tick(&mut sim);
    assert_eq!(sim.match_end_tick, 0);
    sim.match_end_tick = u32::MAX;
    update_match_end_tick(&mut sim);
    assert_eq!(sim.match_end_tick, 0);
}

#[test]
fn fade_out_takes_twenty_ticks() {
    let mut sim = init();
    assert!(!is_transitioning(&sim));
    assert!(!update_transition(&mut sim));
    start_transition_out(&mut sim);
    assert!(is_transitioning(&sim));
    assert_eq!(sim.transition_progress, 0);
    for step in 1..20 {
        assert!(!update_transition(&mut sim));
        assert_eq!(sim.transition_progress, step);
    }
    assert!(update_transition(&mut sim));
    assert_eq!(sim.transition_progress, 20);
    assert!(sim.transition_phase == TransitionPhase::Idle);
    assert!(!update_transition(&mut sim));
    assert_eq!(sim.transition_progress, 20);
}

#[test]
fn fade_in_takes_twenty_ticks() {
    let mut sim = init();
    start_transition_in(&mut sim);
    assert!(sim.transition_phase == TransitionPhase::FadeIn);
    assert_eq!(sim.transition_progress, 20);
    for step in (1..20).rev() {
        assert!(!update_transition(&mut sim));
        assert_eq!(sim.transition_progress, step);
    }
    assert!(update_transition(&mut sim));
    assert_eq!(sim.transition_progress, 0);
    assert!(!is_transitioning(&sim));
}
