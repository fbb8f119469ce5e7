use neon_duel::flow::{connected_count, read_menu_pad, reset_match, reset_round};
use neon_duel::game_state::{
    GamePhase, PausePage, TransitionPhase, STAGE_SELECT_RANDOM, STAGE_SELECT_ROTATE,
};
use neon_duel::{init, update, Cue, Pad, Simulation, TickInput};

fn idle(player_count: u32) -> TickInput {
    TickInput { pads: [Pad::new(); 4], player_count, random: 0 }
}

/// An input in which the controller `who` alone does `press`.
fn pressing(player_count: u32, who: usize, press: fn(&mut Pad)) -> TickInput {
    let mut input = idle(player_count);
    press(&mut input.pads[who]);
    input
}

fn a(pad: &mut Pad) {
    pad.a_pressed = true;
}

fn b(pad: &mut Pad) {
    pad.b_pressed = true;
}

fn start(pad: &mut Pad) {
    pad.start_pressed = true;
}

fn up(pad: &mut Pad) {
    pad.up_pressed = true;
}

fn down(pad: &mut Pad) {
    pad.down_pressed = true;
}

fn left(pad: &mut Pad) {
    pad.left_pressed = true;
}

fn right(pad: &mut Pad) {
    pad.right_pressed = true;
}

fn in_lobby(player_count: u32) -> Simulation {
    let mut sim = init();
    update(&mut sim, &pressing(player_count, 0, a));
    assert!(sim.state.phase == GamePhase::Lobby);
    sim
}

/// A match of one human and three bots in its first countdown.
fn in_countdown() -> Simulation {
    let mut sim = in_lobby(1);
    update(&mut sim, &pressing(1, 0, start));
    assert!(sim.state.phase == GamePhase::Countdown);
    sim
}

/// A match of one human and three bots in play.
fn in_play() -> Simulation {
    let mut sim = in_countdown();
    for _ in 0..181 {
        update(&mut sim, &idle(1));
    }
    assert!(sim.state.phase == GamePhase::Playing);
    sim
}

#[test]
fn only_connected_controllers_are_heard() {
    let mut input = idle(2);
    input.pads[2].start_pressed = true;
    input.pads[3].a_pressed = true;
    assert_eq!(read_menu_pad(&input), Pad::new());
    input.pads[1].b_pressed = true;
    input.pads[0].up = true;
    input.pads[0].stick_x = 70_000;
    let pad = read_menu_pad(&input);
    assert!(pad.b_pressed && pad.up && !pad.start_pressed && !pad.a_pressed);
    assert_eq!(pad.stick_x, 0);
    assert_eq!(connected_count(&input), 2);
    assert_eq!(connected_count(&idle(0)), 0);
    assert_eq!(connected_count(&idle(9)), 4);
    assert!(read_menu_pad(&pressing(9, 3, a)).a_pressed);
    assert!(!read_menu_pad(&pressing(0, 0, a)).a_pressed);
}

#[test]
fn confirm_on_the_title_screen_opens_the_lobby() {
    let mut sim = init();
    update(&mut sim, &pressing(1, 0, b));
    assert!(sim.state.phase == GamePhase::Title);
    update(&mut sim, &pressing(2, 1, start));
    assert!(sim.state.phase == GamePhase::Lobby);
    assert_eq!(sim.lobby_index, 0);
    assert!(sim.cues.is_empty());
    assert_eq!(sim.tick, 2);
    let mut other = init();
    update(&mut other, &pressing(1, 0, a));
    assert!(other.state.phase == GamePhase::Lobby);
    assert!(other.is_valid());
}

#[test]
fn idle_title_screen_starts_a_demo() {
    let mut sim = init();
    for _ in 0..300 {
        update(&mut sim, &idle(1));
    }
    update(&mut sim, &pressing(1, 0, b));
    assert_eq!(sim.title_idle_ticks, 0);
    for _ in 0..599 {
        update(&mut sim, &idle(1));
        assert!(sim.state.phase == GamePhase::Title);
    }
    assert_eq!(sim.title_idle_ticks, 599);
    update(&mut sim, &idle(1));
    assert!(sim.state.phase == GamePhase::Countdown);
    assert!(sim.state.demo_mode);
    assert!(sim.players.iter().all(|p| p.active && p.is_bot && !p.dead));
    assert_eq!(sim.state.current_stage, 0);
    assert_eq!(sim.state.countdown, 180);
    assert_eq!(sim.cues.len(), 6);
    assert_eq!(sim.cues[0], Cue::ClearParticles);
    assert_eq!(sim.cues[1], Cue::Spawn { player: 0, x: -500_000, y: 150_000 });
    assert_eq!(sim.cues[5], Cue::StageMusic { stage: 0 });
    assert!(sim.is_valid());
}

#[test]
fn any_button_ends_a_demo() {
    let mut sim = init();
    for _ in 0..600 {
        update(&mut sim, &idle(1));
    }
    assert!(sim.state.demo_mode);
    for _ in 0..200 {
        update(&mut sim, &idle(1));
    }
    assert!(sim.state.phase == GamePhase::Playing);
    update(&mut sim, &pressing(1, 0, left));
    assert!(sim.state.phase == GamePhase::Lobby);
    assert!(!sim.state.demo_mode);
    assert!(sim.players.iter().all(|p| !p.active && !p.is_bot && !p.ready));
    assert_eq!(sim.cues, vec![Cue::MenuMusic]);
}

#[test]
fn players_toggle_ready_in_the_lobby() {
    let mut sim = in_lobby(2);
    update(&mut sim, &pressing(2, 1, a));
    assert!(sim.players[1].ready && !sim.players[0].ready);
    update(&mut sim, &pressing(2, 1, a));
    assert!(!sim.players[1].ready);
    update(&mut sim, &pressing(2, 2, a));
    assert!(!sim.players[2].ready);
    let mut both = idle(2);
    both.pads[0].a_pressed = true;
    both.pads[1].a_pressed = true;
    update(&mut sim, &both);
    assert!(sim.players[0].ready && sim.players[1].ready);
    assert!(sim.state.phase == GamePhase::Lobby);
}

#[test]
fn first_player_moves_through_the_settings() {
    let mut sim = in_lobby(2);
    update(&mut sim, &pressing(2, 0, down));
    assert_eq!(sim.lobby_index, 1);
    update(&mut sim, &pressing(2, 1, down));
    assert_eq!(sim.lobby_index, 1);
    update(&mut sim, &pressing(2, 0, up));
    update(&mut sim, &pressing(2, 0, up));
    assert_eq!(sim.lobby_index, 4);
    update(&mut sim, &pressing(2, 0, down));
    assert_eq!(sim.lobby_index, 0);
}

#[test]
fn first_player_changes_the_rules() {
    let mut sim = in_lobby(2);
    update(&mut sim, &pressing(2, 0, right));
    assert_eq!(sim.config.stage_select, 0);
    update(&mut sim, &pressing(2, 0, left));
    assert_eq!(sim.config.stage_select, STAGE_SELECT_ROTATE);
    update(&mut sim, &pressing(2, 0, left));
    assert_eq!(sim.config.stage_select, STAGE_SELECT_RANDOM);
    update(&mut sim, &pressing(2, 1, left));
    assert_eq!(sim.config.stage_select, STAGE_SELECT_RANDOM);

    sim.lobby_index = 1;
    update(&mut sim, &pressing(2, 0, right));
    assert_eq!(sim.config.kills_to_win, 6);
    sim.config.kills_to_win = 10;
    update(&mut sim, &pressing(2, 0, right));
    assert_eq!(sim.config.kills_to_win, 1);
    update(&mut sim, &pressing(2, 0, left));
    assert_eq!(sim.config.kills_to_win, 10);

    sim.lobby_index = 2;
    let mut times = vec![];
    for _ in 0..6 {
        update(&mut sim, &pressing(2, 0, right));
        times.push(sim.config.round_time_seconds);
    }
    assert_eq!(times, vec![60, 90, 120, 0, 30, 45]);
    update(&mut sim, &pressing(2, 0, left));
    update(&mut sim, &pressing(2, 0, left));
    update(&mut sim, &pressing(2, 0, left));
    assert_eq!(sim.config.round_time_seconds, 120);

    sim.lobby_index = 3;
    update(&mut sim, &pressing(2, 0, left));
    assert!(!sim.config.fill_bots);
    update(&mut sim, &pressing(2, 0, right));
    assert!(sim.config.fill_bots);

    sim.lobby_index = 4;
    update(&mut sim, &pressing(2, 0, right));
    assert_eq!(sim.config.bot_difficulty, 2);
    update(&mut sim, &pressing(2, 0, right));
    assert_eq!(sim.config.bot_difficulty, 0);
    update(&mut sim, &pressing(2, 0, left));
    assert_eq!(sim.config.bot_difficulty, 2);
}

#[test]
fn cursor_moves_before_the_setting_changes() {
    let mut sim = in_lobby(1);
    let mut input = idle(1);
    input.pads[0].down_pressed = true;
    input.pads[0].right_pressed = true;
    update(&mut sim, &input);
    assert_eq!(sim.lobby_index, 1);
    assert_eq!(sim.config.kills_to_win, 6);
    assert_eq!(sim.config.stage_select, STAGE_SELECT_ROTATE);
}

#[test]
fn b_in_the_lobby_returns_to_the_title_screen() {
    let mut sim = in_lobby(1);
    update(&mut sim, &pressing(1, 0, b));
    assert!(sim.state.phase == GamePhase::Title);
    assert_eq!(sim.title_idle_ticks, 0);
}

#[test]
fn one_player_starts_a_match_with_bots() {
    let sim = in_countdown();
    assert!(sim.players[0].active && sim.players[0].ready && !sim.players[0].is_bot);
    for i in 1..4 {
        assert!(sim.players[i].active && sim.players[i].is_bot);
    }
    assert_eq!(sim.round_number, 1);
    assert_eq!(sim.state.countdown, 180);
    assert_eq!(sim.state.round_time_left, 2_700);
    assert_eq!(sim.state.current_stage, 0);
    assert!(!sim.state.demo_mode);
    assert!(sim.transition_phase == TransitionPhase::FadeIn);
    assert_eq!(sim.platforms.iter().filter(|p| p.active).count(), 4);
    assert_eq!(sim.players[3].x, 200_000);
    assert!(sim.is_valid());
}

#[test]
fn a_match_needs_two_participants() {
    let mut sim = in_lobby(1);
    sim.config.fill_bots = false;
    update(&mut sim, &pressing(1, 0, start));
    assert!(sim.state.phase == GamePhase::Lobby);
    assert!(sim.players[0].ready);
    assert!(!sim.players[0].active);

    let mut two = in_lobby(2);
    two.config.fill_bots = false;
    update(&mut two, &pressing(2, 1, a));
    update(&mut two, &pressing(2, 1, start));
    assert!(two.state.phase == GamePhase::Lobby);
    assert!(!two.players[0].ready);
    update(&mut two, &pressing(2, 0, a));
    update(&mut two, &pressing(2, 0, start));
    assert!(two.state.phase == GamePhase::Countdown);
    assert!(two.players[0].active && two.players[1].active);
    assert!(!two.players[2].active && !two.players[3].active);
    assert!(two.players.iter().all(|p| !p.is_bot));
}

#[test]
fn a_player_who_is_not_ready_sits_the_match_out() {
    let mut sim = in_lobby(3);
    update(&mut sim, &pressing(3, 2, a));
    update(&mut sim, &pressing(3, 0, start));
    assert!(sim.state.phase == GamePhase::Countdown);
    assert!(!sim.players[0].active);
    assert!(!sim.players[1].active);
    assert!(sim.players[2].active && !sim.players[2].is_bot);
    assert!(sim.players[3].active && sim.players[3].is_bot);
}

#[test]
fn random_policy_draws_the_stage() {
    let mut sim = in_lobby(1);
    sim.config.stage_select = STAGE_SELECT_RANDOM;
    let mut input = pressing(1, 0, start);
    input.random = 7;
    update(&mut sim, &input);
    assert_eq!(sim.state.current_stage, 1);
    assert_eq!(sim.cues[sim.cues.len() - 1], Cue::StageMusic { stage: 1 });
    assert_eq!(sim.platforms.iter().filter(|p| p.active).count(), 7);
    sim.state.phase = GamePhase::Playing;
    sim.state.round_end_timer = 1;
    let mut next = idle(1);
    next.random = 5;
    update(&mut sim, &next);
    assert_eq!(sim.state.current_stage, 2);
}

#[test]
fn fixed_and_unknown_policies_pick_their_stage() {
    let mut sim = init();
    sim.config.stage_select = 2;
    reset_match(&mut sim, 1);
    assert_eq!(sim.state.current_stage, 2);
    sim.state.phase = GamePhase::Playing;
    sim.state.round_end_timer = 1;
    update(&mut sim, &idle(1));
    assert_eq!(sim.state.current_stage, 2);
    assert_eq!(sim.round_number, 2);
    sim.config.stage_select = 9;
    sim.state.phase = GamePhase::Playing;
    sim.state.round_end_timer = 1;
    update(&mut sim, &idle(1));
    assert_eq!(sim.state.current_stage, 0);
    sim.state.current_stage = 2;
    reset_match(&mut sim, 1);
    assert_eq!(sim.state.current_stage, 0);
}

#[test]
fn countdown_beeps_each_second_and_then_goes() {
    let mut sim = in_countdown();
    let mut beeps = vec![];
    for n in 1..=180 {
        update(&mut sim, &idle(1));
        assert!(sim.state.phase == GamePhase::Countdown);
        assert_eq!(sim.state.countdown, 180 - n);
        if sim.cues.contains(&Cue::CountdownBeep) {
            beeps.push(n);
        }
    }
    assert_eq!(beeps, vec![1, 61, 121]);
    update(&mut sim, &idle(1));
    assert!(sim.state.phase == GamePhase::Playing);
    assert_eq!(sim.cues, vec![Cue::Go]);
    assert_eq!(sim.state.round_time_left, 2_700);
}

#[test]
fn players_stand_still_during_the_countdown() {
    let mut sim = in_countdown();
    let players = sim.players;
    let mut input = idle(1);
    input.pads[0].right = true;
    input.pads[0].b_pressed = true;
    for _ in 0..10 {
        update(&mut sim, &input);
    }
    assert_eq!(sim.players, players);
    assert!(sim.bullets.iter().all(|b| !b.active));
}

#[test]
fn start_pauses_and_b_resumes() {
    let mut sim = in_countdown();
    update(&mut sim, &idle(1));
    update(&mut sim, &pressing(1, 0, start));
    assert!(sim.state.phase == GamePhase::Paused);
    assert!(sim.state.paused_from == GamePhase::Countdown);
    assert_eq!(sim.state.countdown, 179);
    for _ in 0..5 {
        update(&mut sim, &idle(1));
    }
    assert_eq!(sim.state.countdown, 179);
    update(&mut sim, &pressing(1, 0, b));
    assert!(sim.state.phase == GamePhase::Countdown);

    let mut play = in_play();
    let players = play.players;
    update(&mut play, &pressing(1, 0, start));
    assert!(play.state.phase == GamePhase::Paused);
    assert!(play.state.paused_from == GamePhase::Playing);
    update(&mut play, &idle(1));
    assert_eq!(play.players, players);
    update(&mut play, &pressing(1, 0, start));
    assert!(play.state.phase == GamePhase::Playing);
    assert!(play.is_valid());
}

#[test]
fn pause_menu_offers_five_choices() {
    let mut sim = in_play();
    update(&mut sim, &pressing(1, 0, start));
    update(&mut sim, &pressing(1, 0, a));
    assert!(sim.state.phase == GamePhase::Playing);

    update(&mut sim, &pressing(1, 0, start));
    assert_eq!(sim.pause_index, 0);
    update(&mut sim, &pressing(1, 0, down));
    assert_eq!(sim.pause_index, 1);
    sim.players[0].kills = 2;
    sim.round_number = 3;
    update(&mut sim, &pressing(1, 0, a));
    assert!(sim.state.phase == GamePhase::Countdown);
    assert_eq!(sim.players[0].kills, 2);
    assert_eq!(sim.round_number, 3);
    assert_eq!(sim.state.countdown, 180);

    update(&mut sim, &pressing(1, 0, start));
    sim.pause_index = 2;
    update(&mut sim, &pressing(1, 0, a));
    assert!(sim.state.phase == GamePhase::Countdown);
    assert_eq!(sim.players[0].kills, 0);
    assert_eq!(sim.round_number, 1);

    update(&mut sim, &pressing(1, 0, start));
    sim.pause_index = 3;
    update(&mut sim, &pressing(1, 0, a));
    assert!(sim.state.phase == GamePhase::Lobby);
    assert_eq!(sim.cues, vec![Cue::MenuMusic]);
}

#[test]
fn options_page_changes_the_presentation() {
    let mut sim = in_play();
    update(&mut sim, &pressing(1, 0, start));
    update(&mut sim, &pressing(1, 0, up));
    assert_eq!(sim.pause_index, 4);
    update(&mut sim, &pressing(1, 0, a));
    assert!(sim.pause_page == PausePage::Options);
    assert_eq!(sim.pause_index, 0);

    update(&mut sim, &pressing(1, 0, left));
    assert_eq!(sim.options.music_volume, 55);
    assert_eq!(sim.cues, vec![Cue::MusicVolume { percent: 55 }]);
    sim.options.music_volume = 98;
    update(&mut sim, &pressing(1, 0, right));
    assert_eq!(sim.options.music_volume, 100);
    update(&mut sim, &pressing(1, 0, right));
    assert_eq!(sim.options.music_volume, 100);
    sim.options.music_volume = 3;
    update(&mut sim, &pressing(1, 0, left));
    assert_eq!(sim.options.music_volume, 0);

    update(&mut sim, &pressing(1, 0, down));
    update(&mut sim, &pressing(1, 0, right));
    assert_eq!(sim.options.sfx_volume, 90);
    assert_eq!(sim.cues, vec![Cue::SfxVolume { percent: 90 }]);

    update(&mut sim, &pressing(1, 0, down));
    update(&mut sim, &pressing(1, 0, a));
    assert!(!sim.options.screen_shake);
    update(&mut sim, &pressing(1, 0, left));
    assert!(sim.options.screen_shake);

    update(&mut sim, &pressing(1, 0, down));
    update(&mut sim, &pressing(1, 0, right));
    assert!(!sim.options.screen_flash);

    update(&mut sim, &pressing(1, 0, down));
    assert_eq!(sim.pause_index, 4);
    update(&mut sim, &pressing(1, 0, a));
    assert!(sim.pause_page == PausePage::Main);
    assert_eq!(sim.pause_index, 4);
    assert!(sim.state.phase == GamePhase::Paused);

    update(&mut sim, &pressing(1, 0, a));
    assert!(sim.pause_page == PausePage::Options);
    update(&mut sim, &pressing(1, 0, b));
    assert!(sim.pause_page == PausePage::Main);
    assert!(sim.state.phase == GamePhase::Paused);
    update(&mut sim, &pressing(1, 0, b));
    assert!(sim.state.phase == GamePhase::Playing);
    assert!(sim.is_valid());
}

#[test]
fn hit_freeze_holds_gameplay() {
    let mut sim = in_play();
    sim.hit_freeze = 2;
    let players = sim.players;
    let platforms = sim.platforms;
    let left_before = sim.state.round_time_left;
    let mut input = idle(1);
    input.pads[0].right = true;
    update(&mut sim, &input);
    update(&mut sim, &input);
    assert_eq!(sim.hit_freeze, 0);
    assert_eq!(sim.players, players);
    assert_eq!(sim.platforms, platforms);
    assert_eq!(sim.state.round_time_left, left_before);
    update(&mut sim, &input);
    assert!(sim.players != players);
    assert_eq!(sim.state.round_time_left, left_before - 1);
}

#[test]
fn round_clock_runs_into_overtime() {
    let mut sim = in_play();
    for p in sim.players.iter_mut() {
        p.active = false;
    }
    sim.state.round_time_left = 2;
    update(&mut sim, &idle(1));
    assert_eq!(sim.state.round_time_left, 1);
    assert!(!sim.state.overtime);
    update(&mut sim, &idle(1));
    assert_eq!(sim.state.round_time_left, 0);
    assert!(sim.state.overtime);
    assert_eq!((sim.state.arena_left, sim.state.arena_right), (-1_000_000, 1_000_000));
    update(&mut sim, &idle(1));
    assert_eq!((sim.state.arena_left, sim.state.arena_right), (-999_000, 999_000));
    for _ in 0..873 {
        update(&mut sim, &idle(1));
    }
    assert_eq!((sim.state.arena_left, sim.state.arena_right), (-126_000, 126_000));
    update(&mut sim, &idle(1));
    assert_eq!((sim.state.arena_left, sim.state.arena_right), (-125_000, 125_000));
    for _ in 0..100 {
        update(&mut sim, &idle(1));
    }
    assert_eq!((sim.state.arena_left, sim.state.arena_right), (-125_000, 125_000));
    assert!(sim.is_valid());
}

#[test]
fn a_round_without_a_time_limit_has_no_overtime() {
    let mut sim = in_lobby(1);
    sim.config.round_time_seconds = 0;
    update(&mut sim, &pressing(1, 0, start));
    assert_eq!(sim.state.round_time_left, 0);
    for p in sim.players.iter_mut() {
        p.active = false;
    }
    for _ in 0..400 {
        update(&mut sim, &idle(1));
    }
    assert!(sim.state.phase == GamePhase::Playing);
    assert!(!sim.state.overtime);
    assert_eq!((sim.state.arena_left, sim.state.arena_right), (-1_000_000, 1_000_000));
}

#[test]
fn round_end_pause_leads_to_the_next_round() {
    let mut sim = in_play();
    for p in sim.players.iter_mut() {
        p.is_bot = false;
    }
    sim.players[1].kills = 1;
    sim.state.round_end_timer = 3;
    sim.state.overtime = true;
    update(&mut sim, &idle(1));
    assert_eq!(sim.state.round_end_timer, 2);
    update(&mut sim, &idle(1));
    assert_eq!(sim.state.round_end_timer, 1);
    assert!(sim.state.phase == GamePhase::Playing);
    update(&mut sim, &idle(1));
    assert!(sim.state.phase == GamePhase::Countdown);
    assert_eq!(sim.state.round_end_timer, 0);
    assert_eq!(sim.round_number, 2);
    assert_eq!(sim.state.current_stage, 1);
    assert_eq!(sim.players[1].kills, 1);
    assert!(!sim.state.overtime);
    assert_eq!(sim.state.arena_left, -1_000_000);
    assert_eq!(sim.state.countdown, 180);
    assert_eq!(sim.players[0].x, -700_000);
    assert!(sim.cues.contains(&Cue::ClearParticles));
    assert_eq!(sim.cues[sim.cues.len() - 1], Cue::StageMusic { stage: 1 });
}

#[test]
fn round_reset_clears_the_field() {
    let mut sim = in_play();
    sim.bullets[3].active = true;
    sim.bullets[3].lifetime = 10;
    sim.players[2].dead = true;
    sim.hit_freeze = 4;
    reset_round(&mut sim);
    assert!(sim.bullets.iter().all(|b| !b.active));
    assert!(sim.players.iter().all(|p| p.active && !p.dead && p.invuln_timer == 60));
    assert_eq!(sim.hit_freeze, 0);
    assert!(sim.state.phase == GamePhase::Countdown);
    assert_eq!(sim.transition_progress, 20);
}

#[test]
fn final_ko_holds_and_then_ends_the_match() {
    let mut sim = in_play();
    sim.state.phase = GamePhase::FinalKo;
    sim.state.final_ko_timer = 75;
    sim.state.winner_idx = 1;
    sim.hit_freeze = 12;
    let players = sim.players;
    for n in 1..=75 {
        update(&mut sim, &idle(1));
        assert!(sim.state.phase == GamePhase::FinalKo);
        assert_eq!(sim.state.final_ko_timer, 75 - n);
    }
    assert_eq!(sim.hit_freeze, 0);
    sim.match_end_tick = 9;
    update(&mut sim, &idle(1));
    assert!(sim.state.phase == GamePhase::MatchEnd);
    assert_eq!(sim.cues, vec![Cue::Victory { winner: 1 }]);
    assert_eq!(sim.match_end_tick, 0);
    assert_eq!(sim.players, players);
    update(&mut sim, &idle(1));
    assert!(sim.state.phase == GamePhase::MatchEnd);
    assert_eq!(sim.match_end_tick, 1);
    assert!(sim.cues.is_empty());
}

#[test]
fn match_end_offers_a_rematch_or_the_lobby() {
    let mut sim = in_play();
    sim.state.phase = GamePhase::MatchEnd;
    sim.players[1].kills = 5;
    sim.round_number = 8;
    for _ in 0..1_000 {
        update(&mut sim, &idle(1));
    }
    assert!(sim.state.phase == GamePhase::MatchEnd);
    let mut again = sim.snapshot();
    update(&mut again, &pressing(1, 0, start));
    assert!(again.state.phase == GamePhase::Countdown);
    assert_eq!(again.players[1].kills, 0);
    assert_eq!(again.round_number, 1);
    assert!(again.players.iter().all(|p| p.active));
    update(&mut sim, &pressing(1, 0, b));
    assert!(sim.state.phase == GamePhase::Lobby);
    assert!(sim.players.iter().all(|p| !p.active));
}

#[test]
fn finished_demo_returns_to_the_title_screen() {
    let mut sim = in_play();
    sim.state.phase = GamePhase::MatchEnd;
    sim.state.demo_mode = true;
    sim.match_end_tick = 0;
    for _ in 0..359 {
        update(&mut sim, &idle(1));
        assert!(sim.state.phase == GamePhase::MatchEnd);
    }
    update(&mut sim, &idle(1));
    assert!(sim.state.phase == GamePhase::Title);
    assert!(!sim.state.demo_mode);
    assert_eq!(sim.cues, vec![Cue::MenuMusic]);
    sim.state.phase = GamePhase::MatchEnd;
    sim.state.demo_mode = true;
    update(&mut sim, &pressing(1, 0, start));
    assert!(sim.state.phase == GamePhase::Lobby);
}

#[test]
fn reserved_phase_does_nothing() {
    let mut sim = in_play();
    sim.state.phase = GamePhase::RoundEnd;
    let players = sim.players;
    update(&mut sim, &pressing(1, 0, start));
    assert!(sim.state.phase == GamePhase::RoundEnd);
    assert_eq!(sim.players, players);
}

#[test]
fn tick_counter_wraps_round() {
    let mut sim = init();
    sim.tick = u32::MAX;
    update(&mut sim, &pressing(1, 0, b));
    assert_eq!(sim.tick, 0);
}

#[test]
fn presentation_timers_run_in_every_phase() {
    let mut sim = in_lobby(1);
    sim.impact_flash = 3;
    sim.deflect_popup_ticks = 2;
    sim.transition_phase = TransitionPhase::FadeIn;
    sim.transition_progress = 2;
    update(&mut sim, &idle(1));
    assert_eq!((sim.impact_flash, sim.deflect_popup_ticks, sim.transition_progress), (2, 1, 1));
    update(&mut sim, &idle(1));
    assert_eq!((sim.impact_flash, sim.deflect_popup_ticks, sim.transition_progress), (1, 0, 0));
    assert!(sim.transition_phase == TransitionPhase::Idle);
}

#[test]
fn cues_last_for_one_tick() {
    let mut sim = init();
    assert_eq!(sim.cues, vec![Cue::MenuMusic]);
    update(&mut sim, &idle(1));
    assert!(sim.cues.is_empty());
}
