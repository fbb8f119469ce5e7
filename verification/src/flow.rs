//! Match flow: what one tick does in each phase, from the title screen
//! through lobby, countdown and play to the end of the match.

use vstd::prelude::*;
use crate::combat::{
    bullets_updated, melee_hits_updated, update_bullets, update_melee_hits, Bullet, MAX_BULLETS,
};
use crate::game_state::{
    next_count, reset_match_end_tick, round_ticks, round_time_limit_ticks, run_down,
    start_transition_in, transition_advanced, update_deflect_popup, update_hit_freeze,
    update_impact_flash, update_match_end_tick, update_transition, GameConfig, GamePhase,
    GameState, Options, PausePage, TransitionPhase, ARENA_LEFT, ARENA_MIN_WIDTH, ARENA_RIGHT,
    ARENA_SHRINK_RATE, COUNTDOWN_TICKS, DEMO_END_LIMIT, NUM_STAGES, STAGE_SELECT_RANDOM,
    STAGE_SELECT_ROTATE, TICKS_PER_SECOND, TITLE_IDLE_LIMIT, TRANSITION_FULL, VOLUME_MAX,
    VOLUME_STEP,
};
use crate::player::{
    player_updated, players_spawned, spawn_players, update_player, Player, MAX_PLAYERS,
};
use crate::stage::{
    platforms_advanced, setup_current_stage, stage_set_up, update_platforms, DEFAULT_STAGE,
};
use crate::world::{Cue, Pad, Simulation, TickInput, World};

verus! {

/// Rows of the lobby settings.
pub const LOBBY_ROWS: u32 = 5;

/// Rows of either page of the pause menu.
pub const PAUSE_ROWS: u32 = 5;

/// Largest kill target the lobby offers.
pub const KILLS_TO_WIN_MAX: u32 = 10;

/// Two pads as one: a button counts as pressed or held where it is on
/// either.  The sticks take no part in menus.
pub open spec fn pads_joined(a: Pad, b: Pad) -> Pad {
    Pad {
        stick_x: 0,
        stick_y: 0,
        up: a.up || b.up,
        down: a.down || b.down,
        left: a.left || b.left,
        right: a.right || b.right,
        a: a.a || b.a,
        up_pressed: a.up_pressed || b.up_pressed,
        down_pressed: a.down_pressed || b.down_pressed,
        left_pressed: a.left_pressed || b.left_pressed,
        right_pressed: a.right_pressed || b.right_pressed,
        a_pressed: a.a_pressed || b.a_pressed,
        b_pressed: a.b_pressed || b.b_pressed,
        x_pressed: a.x_pressed || b.x_pressed,
        start_pressed: a.start_pressed || b.start_pressed,
    }
}

/// The first `upto` pads as one.
pub open spec fn pads_merged(pads: Seq<Pad>, upto: int) -> Pad
    decreases upto,
{
    if upto <= 0 {
        Pad::idle()
    } else {
        pads_joined(pads_merged(pads, upto - 1), pads[upto - 1])
    }
}

/// Number of connected controllers that the simulation listens to.
pub open spec fn connected(input: TickInput) -> int {
    if input.player_count > MAX_PLAYERS {
        MAX_PLAYERS as int
    } else {
        input.player_count as int
    }
}

/// All connected pads as one: what the menus listen to.
pub open spec fn menu_pad(input: TickInput) -> Pad {
    pads_merged(input.pads@, connected(input))
}

/// The pad of the first player, or an idle pad where nobody is connected.
pub open spec fn first_pad(input: TickInput) -> Pad {
    if connected(input) >= 1 {
        input.pads@[0]
    } else {
        Pad::idle()
    }
}

/// A menu cursor after up or down: it moves by one row and wraps round.
pub open spec fn cursor_moved(index: u32, rows: u32, pad: Pad) -> u32 {
    if pad.up_pressed {
        ((index % rows + rows - 1) % (rows as int)) as u32
    } else if pad.down_pressed {
        ((index % rows + 1) % (rows as int)) as u32
    } else {
        index
    }
}

/// The stage-select setting one step on: the stages, then random, then
/// rotate, then the first stage again.
pub open spec fn stage_select_stepped(v: u32, forward: bool) -> u32 {
    if forward {
        if v >= STAGE_SELECT_ROTATE {
            0
        } else {
            (v + 1) as u32
        }
    } else {
        if v == 0 || v > STAGE_SELECT_ROTATE {
            STAGE_SELECT_ROTATE
        } else {
            (v - 1) as u32
        }
    }
}

/// The kill target one step on, from 1 to `KILLS_TO_WIN_MAX` and round.
pub open spec fn kills_to_win_stepped(v: u32, forward: bool) -> u32 {
    if forward {
        if v >= KILLS_TO_WIN_MAX {
            1
        } else {
            (v + 1) as u32
        }
    } else {
        if v <= 1 || v > KILLS_TO_WIN_MAX {
            KILLS_TO_WIN_MAX
        } else {
            (v - 1) as u32
        }
    }
}

/// The round time one step on: no limit, 30, 45, 60, 90, 120 seconds and round.
pub open spec fn round_time_stepped(v: u32, forward: bool) -> u32 {
    if forward {
        if v < 30 {
            30
        } else if v < 45 {
            45
        } else if v < 60 {
            60
        } else if v < 90 {
            90
        } else if v < 120 {
            120
        } else {
            0
        }
    } else {
        if v == 0 || v > 120 {
            120
        } else if v > 90 {
            90
        } else if v > 60 {
            60
        } else if v > 45 {
            45
        } else if v > 30 {
            30
        } else {
            0
        }
    }
}

/// The bot difficulty one step on: easy, normal, hard and round.
pub open spec fn difficulty_stepped(v: u32, forward: bool) -> u32 {
    if forward {
        if v >= 2 {
            0
        } else {
            (v + 1) as u32
        }
    } else {
        if v == 0 || v > 2 {
            2
        } else {
            (v - 1) as u32
        }
    }
}

/// The rules after the setting in `row` was stepped.
pub open spec fn setting_stepped(c: GameConfig, row: u32, forward: bool) -> GameConfig {
    if row == 0 {
        GameConfig { stage_select: stage_select_stepped(c.stage_select, forward), ..c }
    } else if row == 1 {
        GameConfig { kills_to_win: kills_to_win_stepped(c.kills_to_win, forward), ..c }
    } else if row == 2 {
        GameConfig { round_time_seconds: round_time_stepped(c.round_time_seconds, forward), ..c }
    } else if row == 3 {
        GameConfig { fill_bots: !c.fill_bots, ..c }
    } else if row == 4 {
        GameConfig { bot_difficulty: difficulty_stepped(c.bot_difficulty, forward), ..c }
    } else {
        c
    }
}

/// The rules after the first player's pad acted on the setting in `row`:
/// right steps it forward, left back.
pub open spec fn setting_changed(c: GameConfig, row: u32, pad: Pad) -> GameConfig {
    if pad.right_pressed {
        setting_stepped(c, row, true)
    } else if pad.left_pressed {
        setting_stepped(c, row, false)
    } else {
        c
    }
}

fn join_pads(a: &Pad, b: &Pad) -> (r: Pad)
    ensures
        r == pads_joined(*a, *b),
{
    Pad {
        stick_x: 0,
        stick_y: 0,
        up: a.up || b.up,
        down: a.down || b.down,
        left: a.left || b.left,
        right: a.right || b.right,
        a: a.a || b.a,
        up_pressed: a.up_pressed || b.up_pressed,
        down_pressed: a.down_pressed || b.down_pressed,
        left_pressed: a.left_pressed || b.left_pressed,
        right_pressed: a.right_pressed || b.right_pressed,
        a_pressed: a.a_pressed || b.a_pressed,
        b_pressed: a.b_pressed || b.b_pressed,
        x_pressed: a.x_pressed || b.x_pressed,
        start_pressed: a.start_pressed || b.start_pressed,
    }
}

/// Number of connected controllers, at most four.
pub fn connected_count(input: &TickInput) -> (n: usize)
    ensures
        n == connected(*input),
        n <= MAX_PLAYERS,
{
    if input.player_count > 4 {
        4
    } else {
        input.player_count as usize
    }
}

/// All connected pads as one.
pub fn read_menu_pad(input: &TickInput) -> (pad: Pad)
    ensures
        pad == menu_pad(*input),
{
    let n = connected_count(input);
    let mut pad = Pad::new();
    let mut i: usize = 0;
    while i < n
        invariant
            i <= n <= MAX_PLAYERS,
            pad == pads_merged(input.pads@, i as int),
        decreases n - i,
    {
        pad = join_pads(&pad, &input.pads[i]);
        i = i + 1;
    }
    pad
}

fn read_first_pad(input: &TickInput) -> (pad: Pad)
    ensures
        pad == first_pad(*input),
{
    if connected_count(input) >= 1 {
        input.pads[0]
    } else {
        Pad::new()
    }
}

fn any_pressed(pad: &Pad) -> (any: bool)
    ensures
        any == pad.any_pressed(),
{
    pad.up_pressed || pad.down_pressed || pad.left_pressed || pad.right_pressed || pad.a_pressed
        || pad.b_pressed || pad.x_pressed || pad.start_pressed
}

fn move_cursor(index: u32, rows: u32, pad: &Pad) -> (r: u32)
    requires
        0 < rows <= 16,
    ensures
        r == cursor_moved(index, rows, *pad),
        index < rows ==> r < rows,
{
    if pad.up_pressed {
        (index % rows + rows - 1) % rows
    } else if pad.down_pressed {
        (index % rows + 1) % rows
    } else {
        index
    }
}

fn step_stage_select(v: u32, forward: bool) -> (r: u32)
    ensures
        r == stage_select_stepped(v, forward),
{
    if forward {
        if v >= STAGE_SELECT_ROTATE {
            0
        } else {
            v + 1
        }
    } else {
        if v == 0 || v > STAGE_SELECT_ROTATE {
            STAGE_SELECT_ROTATE
        } else {
            v - 1
        }
    }
}

fn step_kills_to_win(v: u32, forward: bool) -> (r: u32)
    ensures
        r == kills_to_win_stepped(v, forward),
{
    if forward {
        if v >= KILLS_TO_WIN_MAX {
            1
        } else {
            v + 1
        }
    } else {
        if v <= 1 || v > KILLS_TO_WIN_MAX {
            KILLS_TO_WIN_MAX
        } else {
            v - 1
        }
    }
}

fn step_round_time(v: u32, forward: bool) -> (r: u32)
    ensures
        r == round_time_stepped(v, forward),
{
    if forward {
        if v < 30 {
            30
        } else if v < 45 {
            45
        } else if v < 60 {
            60
        } else if v < 90 {
            90
        } else if v < 120 {
            120
        } else {
            0
        }
    } else {
        if v == 0 || v > 120 {
            120
        } else if v > 90 {
            90
        } else if v > 60 {
            60
        } else if v > 45 {
            45
        } else if v > 30 {
            30
        } else {
            0
        }
    }
}

fn step_difficulty(v: u32, forward: bool) -> (r: u32)
    ensures
        r == difficulty_stepped(v, forward),
{
    if forward {
        if v >= 2 {
            0
        } else {
            v + 1
        }
    } else {
        if v == 0 || v > 2 {
            2
        } else {
            v - 1
        }
    }
}

fn step_setting(c: GameConfig, row: u32, forward: bool) -> (r: GameConfig)
    ensures
        r == setting_stepped(c, row, forward),
{
    let mut r = c;
    if row == 0 {
        r.stage_select = step_stage_select(c.stage_select, forward);
    } else if row == 1 {
        r.kills_to_win = step_kills_to_win(c.kills_to_win, forward);
    } else if row == 2 {
        r.round_time_seconds = step_round_time(c.round_time_seconds, forward);
    } else if row == 3 {
        r.fill_bots = !c.fill_bots;
    } else if row == 4 {
        r.bot_difficulty = step_difficulty(c.bot_difficulty, forward);
    }
    r
}

fn change_setting(c: GameConfig, row: u32, pad: &Pad) -> (r: GameConfig)
    ensures
        r == setting_changed(c, row, *pad),
{
    if pad.right_pressed {
        step_setting(c, row, true)
    } else if pad.left_pressed {
        step_setting(c, row, false)
    } else {
        c
    }
}

/// The stage of the first round of a match: the stage the rules fix, a
/// random stage, or the default stage.
pub open spec fn first_stage(select: u32, random: u32) -> u32 {
    if select < NUM_STAGES {
        select
    } else if select == STAGE_SELECT_RANDOM {
        random % NUM_STAGES
    } else {
        DEFAULT_STAGE
    }
}

/// The stage of the round after one on `current`: the stage the rules fix,
/// a random stage, the next stage in turn, or, where the setting names no
/// policy, the default stage.
pub open spec fn next_stage(select: u32, current: u32, random: u32) -> u32 {
    if select < NUM_STAGES {
        select
    } else if select == STAGE_SELECT_RANDOM {
        random % NUM_STAGES
    } else if select == STAGE_SELECT_ROTATE {
        ((current % NUM_STAGES + 1) % (NUM_STAGES as int)) as u32
    } else {
        DEFAULT_STAGE
    }
}

/// The bullet pool with every bullet out of play.
pub open spec fn bullets_cleared(bullets: Seq<Bullet>) -> Seq<Bullet> {
    Seq::new(bullets.len(), |i: int| crate::combat::spent(bullets[i]))
}

/// The state of the match at the start of a round's countdown.
pub open spec fn round_state(s: GameState, c: GameConfig) -> GameState {
    GameState {
        phase: GamePhase::Countdown,
        countdown: COUNTDOWN_TICKS,
        round_end_timer: 0,
        round_time_left: round_ticks(c),
        overtime: false,
        arena_left: ARENA_LEFT,
        arena_right: ARENA_RIGHT,
        ..s
    }
}

/// The world at the start of a round on the current stage: no bullets, the
/// stage set up, the players on their spawn points, the full arena, the
/// countdown running.
pub open spec fn round_reset(w: World) -> World {
    let w1 = (World { bullets: bullets_cleared(w.bullets), ..w }).cue(Cue::ClearParticles);
    let w2 = players_spawned(stage_set_up(w1));
    (World {
        state: round_state(w2.state, w2.config),
        hit_freeze: 0,
        transition_phase: TransitionPhase::FadeIn,
        transition_progress: TRANSITION_FULL,
        ..w2
    }).cue(Cue::StageMusic { stage: w2.state.current_stage })
}

/// The players with their scores wiped.
pub open spec fn scores_wiped(players: Seq<Player>) -> Seq<Player> {
    Seq::new(players.len(), |i: int| Player { kills: 0, ..players[i] })
}

/// The world at the start of a match: scores wiped, round one, on the
/// first stage under the rules.
pub open spec fn match_reset(w: World, random: u32) -> World {
    round_reset(
        World {
            players: scores_wiped(w.players),
            round_number: 1,
            state: GameState {
                current_stage: first_stage(w.config.stage_select, random),
                winner_idx: 0,
                final_ko_timer: 0,
                ..w.state
            },
            ..w
        },
    )
}

/// The world at the start of the next round, on the next stage under the rules.
pub open spec fn next_round(w: World, random: u32) -> World {
    round_reset(
        World {
            round_number: next_count(w.round_number),
            state: GameState {
                current_stage: next_stage(w.config.stage_select, w.state.current_stage, random),
                ..w.state
            },
            ..w
        },
    )
}

fn pick_first_stage(select: u32, random: u32) -> (stage: u32)
    ensures
        stage == first_stage(select, random),
{
    if select < NUM_STAGES {
        select
    } else if select == STAGE_SELECT_RANDOM {
        random % NUM_STAGES
    } else {
        DEFAULT_STAGE
    }
}

fn pick_next_stage(select: u32, current: u32, random: u32) -> (stage: u32)
    ensures
        stage == next_stage(select, current, random),
{
    if select < NUM_STAGES {
        select
    } else if select == STAGE_SELECT_RANDOM {
        random % NUM_STAGES
    } else if select == STAGE_SELECT_ROTATE {
        (current % NUM_STAGES + 1) % NUM_STAGES
    } else {
        DEFAULT_STAGE
    }
}

fn clear_bullets(sim: &mut Simulation)
    ensures
        final(sim)@ == (World { bullets: bullets_cleared(old(sim)@.bullets), ..old(sim)@ }),
        old(sim).wf() ==> final(sim).wf(),
{
    let mut i: usize = 0;
    while i < MAX_BULLETS
        invariant
            i <= MAX_BULLETS,
            forall|j: int| 0 <= j < i ==> sim.bullets@[j] == crate::combat::spent(old(sim).bullets@[j]),
            forall|j: int| i <= j < MAX_BULLETS ==> sim.bullets@[j] == old(sim).bullets@[j],
            (World { bullets: old(sim)@.bullets, ..sim@ }) == old(sim)@,
        decreases MAX_BULLETS - i,
    {
        let mut b = sim.bullets[i];
        b.active = false;
        sim.bullets[i] = b;
        i = i + 1;
    }
    proof {
        assert(sim@.bullets =~= bullets_cleared(old(sim)@.bullets));
    }
}

fn start_countdown(sim: &mut Simulation)
    requires
        old(sim).wf(),
    ensures
        final(sim)@ == (World {
            state: round_state(old(sim)@.state, old(sim)@.config),
            hit_freeze: 0,
            transition_phase: TransitionPhase::FadeIn,
            transition_progress: TRANSITION_FULL,
            ..old(sim)@
        }).cue(Cue::StageMusic { stage: old(sim)@.state.current_stage }),
        final(sim).wf(),
{
    sim.state.phase = GamePhase::Countdown;
    sim.state.countdown = COUNTDOWN_TICKS;
    sim.state.round_end_timer = 0;
    sim.state.round_time_left = round_time_limit_ticks(sim);
    sim.state.overtime = false;
    sim.state.arena_left = ARENA_LEFT;
    sim.state.arena_right = ARENA_RIGHT;
    sim.hit_freeze = 0;
    start_transition_in(sim);
    sim.emit(Cue::StageMusic { stage: sim.state.current_stage });
}

/// Starts a round on the current stage.
pub fn reset_round(sim: &mut Simulation)
    requires
        old(sim).wf(),
    ensures
        final(sim)@ == round_reset(old(sim)@),
        final(sim).wf(),
{
    clear_bullets(sim);
    sim.emit(Cue::ClearParticles);
    setup_current_stage(sim);
    spawn_players(sim);
    start_countdown(sim);
}

fn wipe_scores(sim: &mut Simulation)
    ensures
        final(sim)@ == (World { players: scores_wiped(old(sim)@.players), ..old(sim)@ }),
        old(sim).wf() ==> final(sim).wf(),
{
    let mut i: usize = 0;
    while i < MAX_PLAYERS
        invariant
            i <= MAX_PLAYERS,
            forall|j: int|
                0 <= j < i ==> sim.players@[j] == (Player { kills: 0, ..old(sim).players@[j] }),
            forall|j: int| i <= j < MAX_PLAYERS ==> sim.players@[j] == old(sim).players@[j],
            (World { players: old(sim)@.players, ..sim@ }) == old(sim)@,
        decreases MAX_PLAYERS - i,
    {
        let mut p = sim.players[i];
        p.kills = 0;
        sim.players[i] = p;
        i = i + 1;
    }
    proof {
        assert(sim@.players =~= scores_wiped(old(sim)@.players));
    }
}

/// Starts a match: wipes the scores and starts round one.
pub fn reset_match(sim: &mut Simulation, random: u32)
    requires
        old(sim).wf(),
    ensures
        final(sim)@ == match_reset(old(sim)@, random),
        final(sim).wf(),
{
    wipe_scores(sim);
    sim.round_number = 1;
    sim.state.current_stage = pick_first_stage(sim.config.stage_select, random);
    sim.state.winner_idx = 0;
    sim.state.final_ko_timer = 0;
    reset_round(sim);
}

fn start_next_round(sim: &mut Simulation, random: u32)
    requires
        old(sim).wf(),
    ensures
        final(sim)@ == next_round(old(sim)@, random),
        final(sim).wf(),
{
    sim.round_number = sim.round_number.wrapping_add(1);
    sim.state.current_stage = pick_next_stage(
        sim.config.stage_select,
        sim.state.current_stage,
        random,
    );
    reset_round(sim);
}

/// The players as a lobby finds them: nobody ready, nobody in the match.
pub open spec fn roster_cleared(players: Seq<Player>) -> Seq<Player> {
    Seq::new(
        players.len(),
        |i: int| Player { ready: false, active: false, is_bot: false, ..players[i] },
    )
}

/// The world with the lobby open.
pub open spec fn lobby_opened(w: World) -> World {
    World {
        players: roster_cleared(w.players),
        state: GameState { phase: GamePhase::Lobby, demo_mode: false, ..w.state },
        lobby_index: 0,
        title_idle_ticks: 0,
        hit_freeze: 0,
        ..w
    }
}

/// The world back in the lobby after a match, the menu music starting.
pub open spec fn lobby_returned(w: World) -> World {
    lobby_opened(w).cue(Cue::MenuMusic)
}

/// The world on the title screen.
pub open spec fn title_opened(w: World) -> World {
    World {
        state: GameState { phase: GamePhase::Title, demo_mode: false, ..w.state },
        title_idle_ticks: 0,
        hit_freeze: 0,
        ..w
    }
}

/// The players of a demo match: four bots.
pub open spec fn demo_roster(players: Seq<Player>) -> Seq<Player> {
    Seq::new(
        players.len(),
        |i: int| Player { ready: false, active: true, is_bot: true, ..players[i] },
    )
}

/// The world at the start of a demo match.
pub open spec fn demo_started(w: World, random: u32) -> World {
    match_reset(
        World {
            players: demo_roster(w.players),
            state: GameState { demo_mode: true, ..w.state },
            title_idle_ticks: 0,
            ..w
        },
        random,
    )
}

/// One tick of the title screen: a confirm opens the lobby; after
/// `TITLE_IDLE_LIMIT` ticks without any button a demo match starts.
#[verifier::opaque]
pub open spec fn title_ticked(w: World, input: TickInput) -> World {
    let pad = menu_pad(input);
    if pad.a_pressed || pad.start_pressed {
        lobby_opened(w)
    } else if pad.any_pressed() {
        World { title_idle_ticks: 0, ..w }
    } else if w.title_idle_ticks + 1 >= TITLE_IDLE_LIMIT {
        demo_started(w, input.random)
    } else {
        World { title_idle_ticks: (w.title_idle_ticks + 1) as u32, ..w }
    }
}

/// The players after the connected ones pressed A to toggle ready.
pub open spec fn ready_toggled(players: Seq<Player>, input: TickInput) -> Seq<Player> {
    Seq::new(
        players.len(),
        |i: int|
            if i < connected(input) && input.pads@[i].a_pressed {
                Player { ready: !players[i].ready, ..players[i] }
            } else {
                players[i]
            },
    )
}

/// Number of ready players among the first `upto`.
pub open spec fn ready_count(players: Seq<Player>, upto: int) -> int
    decreases upto,
{
    if upto <= 0 {
        0
    } else {
        ready_count(players, upto - 1) + if players[upto - 1].ready {
            1int
        } else {
            0int
        }
    }
}

/// Number of bots that fill the slots without a controller.
pub open spec fn bot_fill(c: GameConfig, input: TickInput) -> int {
    if c.fill_bots {
        MAX_PLAYERS - connected(input)
    } else {
        0
    }
}

/// The players with the first player readied where a start was asked for
/// and no connected player is ready.
pub open spec fn host_readied(players: Seq<Player>, input: TickInput) -> Seq<Player> {
    if connected(input) >= 1 && ready_count(players, connected(input)) == 0 {
        players.update(0, Player { ready: true, ..players[0] })
    } else {
        players
    }
}

/// The players as they enter a match: connected players take part if
/// ready; the other slots are bots where the rules fill with bots.
pub open spec fn roster_set(players: Seq<Player>, c: GameConfig, input: TickInput) -> Seq<Player> {
    Seq::new(
        players.len(),
        |i: int|
            if i < connected(input) {
                Player { active: players[i].ready, is_bot: false, ..players[i] }
            } else {
                Player { active: c.fill_bots, is_bot: c.fill_bots, ..players[i] }
            },
    )
}

/// The world after a start was asked for in the lobby: with at least two
/// participants, ready players and bots together, the match begins.
pub open spec fn start_tried(w: World, input: TickInput) -> World {
    let players = host_readied(w.players, input);
    if ready_count(players, connected(input)) + bot_fill(w.config, input) >= 2 {
        match_reset(World { players: roster_set(players, w.config, input), ..w }, input.random)
    } else {
        World { players, ..w }
    }
}

/// One tick of the lobby: connected players toggle ready with A; the
/// first player moves through the settings and changes them; B leaves for
/// the title screen; START asks to begin.
#[verifier::opaque]
pub open spec fn lobby_ticked(w: World, input: TickInput) -> World {
    let host = first_pad(input);
    let pad = menu_pad(input);
    let row = cursor_moved(w.lobby_index, LOBBY_ROWS, host);
    let w1 = World {
        players: ready_toggled(w.players, input),
        lobby_index: row,
        config: setting_changed(w.config, row, host),
        ..w
    };
    if pad.b_pressed {
        title_opened(w1)
    } else if pad.start_pressed {
        start_tried(w1, input)
    } else {
        w1
    }
}

fn clear_roster(sim: &mut Simulation)
    ensures
        final(sim)@ == (World { players: roster_cleared(old(sim)@.players), ..old(sim)@ }),
        old(sim).wf() ==> final(sim).wf(),
{
    let mut i: usize = 0;
    while i < MAX_PLAYERS
        invariant
            i <= MAX_PLAYERS,
            forall|j: int|
                0 <= j < i ==> sim.players@[j] == (Player {
                    ready: false,
                    active: false,
                    is_bot: false,
                    ..old(sim).players@[j]
                }),
            forall|j: int| i <= j < MAX_PLAYERS ==> sim.players@[j] == old(sim).players@[j],
            (World { players: old(sim)@.players, ..sim@ }) == old(sim)@,
        decreases MAX_PLAYERS - i,
    {
        let mut p = sim.players[i];
        p.ready = false;
        p.active = false;
        p.is_bot = false;
        sim.players[i] = p;
        i = i + 1;
    }
    proof {
        assert(sim@.players =~= roster_cleared(old(sim)@.players));
    }
}

fn open_lobby(sim: &mut Simulation)
    ensures
        final(sim)@ == lobby_opened(old(sim)@),
        old(sim).wf() ==> final(sim).wf(),
{
    clear_roster(sim);
    sim.state.phase = GamePhase::Lobby;
    sim.state.demo_mode = false;
    sim.lobby_index = 0;
    sim.title_idle_ticks = 0;
    sim.hit_freeze = 0;
}

fn return_to_lobby(sim: &mut Simulation)
    ensures
        final(sim)@ == lobby_returned(old(sim)@),
        old(sim).wf() ==> final(sim).wf(),
{
    open_lobby(sim);
    sim.emit(Cue::MenuMusic);
}

fn open_title(sim: &mut Simulation)
    ensures
        final(sim)@ == title_opened(old(sim)@),
        old(sim).wf() ==> final(sim).wf(),
{
    sim.state.phase = GamePhase::Title;
    sim.state.demo_mode = false;
    sim.title_idle_ticks = 0;
    sim.hit_freeze = 0;
}

fn set_demo_roster(sim: &mut Simulation)
    ensures
        final(sim)@ == (World { players: demo_roster(old(sim)@.players), ..old(sim)@ }),
        old(sim).wf() ==> final(sim).wf(),
{
    let mut i: usize = 0;
    while i < MAX_PLAYERS
        invariant
            i <= MAX_PLAYERS,
            forall|j: int|
                0 <= j < i ==> sim.players@[j] == (Player {
                    ready: false,
                    active: true,
                    is_bot: true,
                    ..old(sim).players@[j]
                }),
            forall|j: int| i <= j < MAX_PLAYERS ==> sim.players@[j] == old(sim).players@[j],
            (World { players: old(sim)@.players, ..sim@ }) == old(sim)@,
        decreases MAX_PLAYERS - i,
    {
        let mut p = sim.players[i];
        p.ready = false;
        p.active = true;
        p.is_bot = true;
        sim.players[i] = p;
        i = i + 1;
    }
    proof {
        assert(sim@.players =~= demo_roster(old(sim)@.players));
    }
}

fn start_demo(sim: &mut Simulation, random: u32)
    requires
        old(sim).wf(),
    ensures
        final(sim)@ == demo_started(old(sim)@, random),
        final(sim).wf(),
{
    set_demo_roster(sim);
    sim.state.demo_mode = true;
    sim.title_idle_ticks = 0;
    reset_match(sim, random);
}

fn tick_title(sim: &mut Simulation, input: &TickInput)
    requires
        old(sim).wf(),
    ensures
        final(sim)@ == title_ticked(old(sim)@, *input),
        final(sim).wf(),
{
    proof {
        reveal(title_ticked);
    }
    let pad = read_menu_pad(input);
    if pad.a_pressed || pad.start_pressed {
        open_lobby(sim);
    } else if any_pressed(&pad) {
        sim.title_idle_ticks = 0;
    } else if sim.title_idle_ticks >= TITLE_IDLE_LIMIT - 1 {
        start_demo(sim, input.random);
    } else {
        sim.title_idle_ticks = sim.title_idle_ticks + 1;
    }
}

fn toggle_ready(sim: &mut Simulation, input: &TickInput)
    ensures
        final(sim)@ == (World { players: ready_toggled(old(sim)@.players, *input), ..old(sim)@ }),
        old(sim).wf() ==> final(sim).wf(),
{
    let n = connected_count(input);
    let mut i: usize = 0;
    while i < n
        invariant
            i <= n <= MAX_PLAYERS,
            n == connected(*input),
            forall|j: int|
                0 <= j < i ==> sim.players@[j] == ready_toggled(old(sim)@.players, *input)[j],
            forall|j: int| i <= j < MAX_PLAYERS ==> sim.players@[j] == old(sim).players@[j],
            (World { players: old(sim)@.players, ..sim@ }) == old(sim)@,
        decreases n - i,
    {
        if input.pads[i].a_pressed {
            let mut p = sim.players[i];
            p.ready = !p.ready;
            sim.players[i] = p;
        }
        i = i + 1;
    }
    proof {
        assert(sim@.players =~= ready_toggled(old(sim)@.players, *input));
    }
}

fn count_ready(sim: &Simulation, n: usize) -> (count: usize)
    requires
        n <= MAX_PLAYERS,
    ensures
        count == ready_count(sim@.players, n as int),
        count <= n,
{
    let mut count: usize = 0;
    let mut i: usize = 0;
    while i < n
        invariant
            i <= n <= MAX_PLAYERS,
            count <= i,
            count == ready_count(sim@.players, i as int),
        decreases n - i,
    {
        if sim.players[i].ready {
            count = count + 1;
        }
        i = i + 1;
    }
    count
}

/// Number of participants that a match started now would have: the ready
/// players among the first `connected`, and the bots that fill the rest.
pub fn participant_count(sim: &Simulation, connected: usize) -> (count: usize)
    requires
        connected <= MAX_PLAYERS,
    ensures
        count == ready_count(sim@.players, connected as int) + if sim.config.fill_bots {
            MAX_PLAYERS - connected
        } else {
            0
        },
{
    let humans = count_ready(sim, connected);
    if sim.config.fill_bots {
        humans + (MAX_PLAYERS - connected)
    } else {
        humans
    }
}

fn ready_host(sim: &mut Simulation, input: &TickInput)
    ensures
        final(sim)@ == (World { players: host_readied(old(sim)@.players, *input), ..old(sim)@ }),
        old(sim).wf() ==> final(sim).wf(),
{
    let n = connected_count(input);
    if n >= 1 && count_ready(sim, n) == 0 {
        let mut p = sim.players[0];
        p.ready = true;
        sim.players[0] = p;
        assert(sim@.players =~= old(sim)@.players.update(0, p));
    }
}

fn set_roster(sim: &mut Simulation, input: &TickInput)
    ensures
        final(sim)@ == (World {
            players: roster_set(old(sim)@.players, old(sim)@.config, *input),
            ..old(sim)@
        }),
        old(sim).wf() ==> final(sim).wf(),
{
    let n = connected_count(input);
    let fill = sim.config.fill_bots;
    let mut i: usize = 0;
    while i < MAX_PLAYERS
        invariant
            i <= MAX_PLAYERS,
            n == connected(*input),
            fill == old(sim)@.config.fill_bots,
            forall|j: int|
                0 <= j < i ==> sim.players@[j] == roster_set(
                    old(sim)@.players,
                    old(sim)@.config,
                    *input,
                )[j],
            forall|j: int| i <= j < MAX_PLAYERS ==> sim.players@[j] == old(sim).players@[j],
            (World { players: old(sim)@.players, ..sim@ }) == old(sim)@,
        decreases MAX_PLAYERS - i,
    {
        let mut p = sim.players[i];
        if i < n {
            p.active = p.ready;
            p.is_bot = false;
        } else {
            p.active = fill;
            p.is_bot = fill;
        }
        sim.players[i] = p;
        i = i + 1;
    }
    proof {
        assert(sim@.players =~= roster_set(old(sim)@.players, old(sim)@.config, *input));
    }
}

fn try_start(sim: &mut Simulation, input: &TickInput)
    requires
        old(sim).wf(),
    ensures
        final(sim)@ == start_tried(old(sim)@, *input),
        final(sim).wf(),
{
    ready_host(sim, input);
    if participant_count(sim, connected_count(input)) >= 2 {
        set_roster(sim, input);
        reset_match(sim, input.random);
    }
}

fn tick_lobby(sim: &mut Simulation, input: &TickInput)
    requires
        old(sim).wf(),
    ensures
        final(sim)@ == lobby_ticked(old(sim)@, *input),
        final(sim).wf(),
{
    proof {
        reveal(lobby_ticked);
    }
    let host = read_first_pad(input);
    let pad = read_menu_pad(input);
    toggle_ready(sim, input);
    sim.lobby_index = move_cursor(sim.lobby_index, LOBBY_ROWS, &host);
    sim.config = change_setting(sim.config, sim.lobby_index, &host);
    if pad.b_pressed {
        open_title(sim);
    } else if pad.start_pressed {
        try_start(sim, input);
    }
}

/// The world with the game paused.
pub open spec fn pause_entered(w: World) -> World {
    World {
        state: GameState { phase: GamePhase::Paused, paused_from: w.state.phase, ..w.state },
        pause_page: PausePage::Main,
        pause_index: 0,
        ..w
    }
}

/// The world with the game resumed where it was paused.
pub open spec fn resumed(w: World) -> World {
    World { state: GameState { phase: w.state.paused_from, ..w.state }, ..w }
}

/// The countdown one tick on: a beep at every whole second, then the round starts.
pub open spec fn countdown_advanced(w: World) -> World {
    if w.state.countdown > 0 {
        let w1 = if w.state.countdown % TICKS_PER_SECOND == 0 {
            w.cue(Cue::CountdownBeep)
        } else {
            w
        };
        World { state: GameState { countdown: (w.state.countdown - 1) as u32, ..w.state }, ..w1 }
    } else {
        (World { state: GameState { phase: GamePhase::Playing, ..w.state }, ..w }).cue(Cue::Go)
    }
}

/// One tick of the countdown.  Any button ends a demo; START pauses.
#[verifier::opaque]
pub open spec fn countdown_ticked(w: World, input: TickInput) -> World {
    let pad = menu_pad(input);
    if w.state.demo_mode && pad.any_pressed() {
        lobby_returned(w)
    } else if pad.start_pressed {
        pause_entered(w)
    } else {
        countdown_advanced(w)
    }
}

/// The world after the players from slot `from` on each had their tick, in slot order.
pub open spec fn players_updated_from(w: World, pads: Seq<Pad>, from: int) -> World
    decreases MAX_PLAYERS - from,
{
    if from < 0 || from >= MAX_PLAYERS {
        w
    } else {
        players_updated_from(player_updated(w, from, pads[from]), pads, from + 1)
    }
}

/// The state after one tick of overtime: while the arena is wider than
/// its least width allows, both bounds move inward by the shrink rate.
pub open spec fn arena_shrunk(s: GameState) -> GameState {
    if s.arena_right - s.arena_left - 2 * ARENA_SHRINK_RATE >= ARENA_MIN_WIDTH {
        GameState {
            arena_left: (s.arena_left + ARENA_SHRINK_RATE) as i64,
            arena_right: (s.arena_right - ARENA_SHRINK_RATE) as i64,
            ..s
        }
    } else {
        s
    }
}

/// The state after one tick of the round clock.  Under a time limit the
/// time left runs down and overtime starts when it is up; in overtime the
/// arena shrinks.
pub open spec fn round_clock_advanced(s: GameState, c: GameConfig) -> GameState {
    if round_ticks(c) == 0 {
        s
    } else if s.overtime {
        arena_shrunk(s)
    } else {
        GameState {
            round_time_left: run_down(s.round_time_left),
            overtime: run_down(s.round_time_left) == 0,
            ..s
        }
    }
}

/// The world after one tick of the pause that follows a kill: when it is
/// over the next round starts.
pub open spec fn round_end_advanced(w: World, random: u32) -> World {
    if w.state.round_end_timer == 0 {
        w
    } else if w.state.round_end_timer == 1 {
        next_round(w, random)
    } else {
        World {
            state: GameState { round_end_timer: (w.state.round_end_timer - 1) as u32, ..w.state },
            ..w
        }
    }
}

/// The world after the clocks of a round ticked; they stand still once
/// the phase is no longer `Playing`.
pub open spec fn round_ticked(w: World, random: u32) -> World {
    if w.state.phase != GamePhase::Playing {
        w
    } else {
        round_end_advanced(
            World { state: round_clock_advanced(w.state, w.config), ..w },
            random,
        )
    }
}

/// The world after one tick of gameplay: platforms, then players, then
/// bullets, then melee, then the clocks of the round.
pub open spec fn gameplay_ticked(w: World, input: TickInput) -> World {
    round_ticked(
        melee_hits_updated(
            bullets_updated(players_updated_from(platforms_advanced(w), input.pads@, 0)),
        ),
        input.random,
    )
}

/// One tick of play.  Any button ends a demo; START pauses; during a hit
/// freeze only the freeze runs down.
#[verifier::opaque]
pub open spec fn playing_ticked(w: World, input: TickInput) -> World {
    let pad = menu_pad(input);
    if w.state.demo_mode && pad.any_pressed() {
        lobby_returned(w)
    } else if pad.start_pressed {
        pause_entered(w)
    } else if w.hit_freeze > 0 {
        World { hit_freeze: run_down(w.hit_freeze), ..w }
    } else {
        gameplay_ticked(w, input)
    }
}

/// One tick of the final-KO hold: when it is over the match has ended.
#[verifier::opaque]
pub open spec fn final_ko_ticked(w: World) -> World {
    let w1 = World { hit_freeze: run_down(w.hit_freeze), ..w };
    if w.state.final_ko_timer > 0 {
        World {
            state: GameState { final_ko_timer: (w.state.final_ko_timer - 1) as u32, ..w.state },
            ..w1
        }
    } else {
        (World {
            state: GameState { phase: GamePhase::MatchEnd, ..w.state },
            match_end_tick: 0,
            ..w1
        }).cue(Cue::Victory { winner: w.state.winner_idx })
    }
}

/// One tick of the match-end screen.  A demo returns to the lobby on any
/// button and to the title screen after `DEMO_END_LIMIT` ticks; after a
/// match START starts a rematch and B returns to the lobby.
#[verifier::opaque]
pub open spec fn match_end_ticked(w: World, input: TickInput) -> World {
    let pad = menu_pad(input);
    let w1 = World { match_end_tick: next_count(w.match_end_tick), ..w };
    if w.state.demo_mode {
        if pad.any_pressed() {
            lobby_returned(w1)
        } else if w1.match_end_tick >= DEMO_END_LIMIT {
            title_opened(w1).cue(Cue::MenuMusic)
        } else {
            w1
        }
    } else if pad.start_pressed {
        match_reset(w1, input.random)
    } else if pad.b_pressed {
        lobby_returned(w1)
    } else {
        w1
    }
}

/// A volume one step up or down, between 0 and `VOLUME_MAX`.
pub open spec fn volume_stepped(v: u32, up: bool) -> u32 {
    if up {
        if v + VOLUME_STEP >= VOLUME_MAX {
            VOLUME_MAX
        } else {
            (v + VOLUME_STEP) as u32
        }
    } else {
        if v > VOLUME_MAX {
            VOLUME_MAX
        } else if v < VOLUME_STEP {
            0
        } else {
            (v - VOLUME_STEP) as u32
        }
    }
}

/// The world after the pad acted on the row `row` of the options page:
/// left and right move a volume slider or flip a toggle, A flips a toggle
/// or, on the last row, goes back to the main page.
pub open spec fn option_changed(w: World, row: u32, pad: Pad) -> World {
    let sideways = pad.left_pressed || pad.right_pressed;
    if row == 0 && sideways {
        let v = volume_stepped(w.options.music_volume, pad.right_pressed);
        (World { options: Options { music_volume: v, ..w.options }, ..w }).cue(
            Cue::MusicVolume { percent: v },
        )
    } else if row == 1 && sideways {
        let v = volume_stepped(w.options.sfx_volume, pad.right_pressed);
        (World { options: Options { sfx_volume: v, ..w.options }, ..w }).cue(
            Cue::SfxVolume { percent: v },
        )
    } else if row == 2 && (sideways || pad.a_pressed) {
        World { options: Options { screen_shake: !w.options.screen_shake, ..w.options }, ..w }
    } else if row == 3 && (sideways || pad.a_pressed) {
        World { options: Options { screen_flash: !w.options.screen_flash, ..w.options }, ..w }
    } else if row == 4 && pad.a_pressed {
        World { pause_page: PausePage::Main, pause_index: 4, ..w }
    } else {
        w
    }
}

/// The world after A chose the row `row` of the main pause page: resume,
/// restart the round, restart the match, return to the lobby, options.
pub open spec fn pause_chosen(w: World, row: u32, random: u32) -> World {
    if row == 0 {
        resumed(w)
    } else if row == 1 {
        round_reset(w)
    } else if row == 2 {
        match_reset(w, random)
    } else if row == 3 {
        lobby_returned(w)
    } else if row == 4 {
        World { pause_page: PausePage::Options, pause_index: 0, ..w }
    } else {
        w
    }
}

/// One tick of the pause menu.  On the main page B or START resumes; on
/// the options page they go back to the main page.
#[verifier::opaque]
pub open spec fn paused_ticked(w: World, input: TickInput) -> World {
    let pad = menu_pad(input);
    let row = cursor_moved(w.pause_index, PAUSE_ROWS, pad);
    let w1 = World { pause_index: row, ..w };
    match w.pause_page {
        PausePage::Main => if pad.b_pressed || pad.start_pressed {
            resumed(w1)
        } else if pad.a_pressed {
            pause_chosen(w1, row, input.random)
        } else {
            w1
        },
        PausePage::Options => if pad.b_pressed || pad.start_pressed {
            World { pause_page: PausePage::Main, pause_index: 4, ..w1 }
        } else {
            option_changed(w1, row, pad)
        },
    }
}

/// The world at the start of a tick: no cues yet, the tick counted, the
/// presentation timers and the screen fade one tick on.
pub open spec fn tick_started(w: World) -> World {
    transition_advanced(
        World {
            cues: Seq::empty(),
            tick: next_count(w.tick),
            impact_flash: run_down(w.impact_flash),
            deflect_popup_ticks: run_down(w.deflect_popup_ticks),
            ..w
        },
    )
}

/// The world one tick later.
pub open spec fn ticked(w: World, input: TickInput) -> World {
    let w1 = tick_started(w);
    match w1.state.phase {
        GamePhase::Title => title_ticked(w1, input),
        GamePhase::Lobby => lobby_ticked(w1, input),
        GamePhase::Countdown => countdown_ticked(w1, input),
        GamePhase::Playing => playing_ticked(w1, input),
        GamePhase::Paused => paused_ticked(w1, input),
        GamePhase::FinalKo => final_ko_ticked(w1),
        GamePhase::RoundEnd => w1,
        GamePhase::MatchEnd => match_end_ticked(w1, input),
    }
}

fn enter_pause(sim: &mut Simulation)
    requires
        old(sim).wf(),
        old(sim).state.phase == GamePhase::Playing || old(sim).state.phase == GamePhase::Countdown,
    ensures
        final(sim)@ == pause_entered(old(sim)@),
        final(sim).wf(),
{
    sim.state.paused_from = sim.state.phase;
    sim.state.phase = GamePhase::Paused;
    sim.pause_page = PausePage::Main;
    sim.pause_index = 0;
}

fn resume(sim: &mut Simulation)
    ensures
        final(sim)@ == resumed(old(sim)@),
        old(sim).wf() ==> final(sim).wf(),
{
    sim.state.phase = sim.state.paused_from;
}

fn advance_countdown(sim: &mut Simulation)
    ensures
        final(sim)@ == countdown_advanced(old(sim)@),
        old(sim).wf() ==> final(sim).wf(),
{
    if sim.state.countdown > 0 {
        if sim.state.countdown % TICKS_PER_SECOND == 0 {
            sim.emit(Cue::CountdownBeep);
        }
        sim.state.countdown = sim.state.countdown - 1;
    } else {
        sim.state.phase = GamePhase::Playing;
        sim.emit(Cue::Go);
    }
}

fn tick_countdown(sim: &mut Simulation, input: &TickInput)
    requires
        old(sim).wf(),
        old(sim).state.phase == GamePhase::Countdown,
    ensures
        final(sim)@ == countdown_ticked(old(sim)@, *input),
        final(sim).wf(),
{
    proof {
        reveal(countdown_ticked);
    }
    let pad = read_menu_pad(input);
    if sim.state.demo_mode && any_pressed(&pad) {
        return_to_lobby(sim);
    } else if pad.start_pressed {
        enter_pause(sim);
    } else {
        advance_countdown(sim);
    }
}

fn update_players(sim: &mut Simulation, input: &TickInput)
    requires
        old(sim).wf(),
    ensures
        final(sim)@ == players_updated_from(old(sim)@, input.pads@, 0),
        final(sim).wf(),
{
    let mut i: usize = 0;
    while i < MAX_PLAYERS
        invariant
            i <= MAX_PLAYERS,
            sim.wf(),
            players_updated_from(old(sim)@, input.pads@, 0) == players_updated_from(
                sim@,
                input.pads@,
                i as int,
            ),
        decreases MAX_PLAYERS - i,
    {
        update_player(sim, i, &input.pads[i]);
        i = i + 1;
    }
}

fn shrink_arena(s: GameState) -> (r: GameState)
    requires
        s.wf(),
    ensures
        r == arena_shrunk(s),
        r.wf(),
{
    let mut r = s;
    if s.arena_right - s.arena_left - 2 * ARENA_SHRINK_RATE >= ARENA_MIN_WIDTH {
        r.arena_left = s.arena_left + ARENA_SHRINK_RATE;
        r.arena_right = s.arena_right - ARENA_SHRINK_RATE;
    }
    r
}

fn advance_round_clock(sim: &mut Simulation)
    requires
        old(sim).wf(),
    ensures
        final(sim)@ == (World {
            state: round_clock_advanced(old(sim)@.state, old(sim)@.config),
            ..old(sim)@
        }),
        final(sim).wf(),
{
    if round_time_limit_ticks(sim) == 0 {
    } else if sim.state.overtime {
        sim.state = shrink_arena(sim.state);
    } else {
        sim.state.round_time_left = sim.state.round_time_left.saturating_sub(1);
        sim.state.overtime = sim.state.round_time_left == 0;
    }
}

fn advance_round_end(sim: &mut Simulation, random: u32)
    requires
        old(sim).wf(),
    ensures
        final(sim)@ == round_end_advanced(old(sim)@, random),
        final(sim).wf(),
{
    if sim.state.round_end_timer == 0 {
    } else if sim.state.round_end_timer == 1 {
        start_next_round(sim, random);
    } else {
        sim.state.round_end_timer = sim.state.round_end_timer - 1;
    }
}

fn tick_round(sim: &mut Simulation, random: u32)
    requires
        old(sim).wf(),
    ensures
        final(sim)@ == round_ticked(old(sim)@, random),
        final(sim).wf(),
{
    if sim.state.phase == GamePhase::Playing {
        advance_round_clock(sim);
        advance_round_end(sim, random);
    }
}

fn tick_gameplay(sim: &mut Simulation, input: &TickInput)
    requires
        old(sim).wf(),
    ensures
        final(sim)@ == gameplay_ticked(old(sim)@, *input),
        final(sim).wf(),
{
    update_platforms(sim);
    update_players(sim, input);
    update_bullets(sim);
    update_melee_hits(sim);
    tick_round(sim, input.random);
}

fn tick_playing(sim: &mut Simulation, input: &TickInput)
    requires
        old(sim).wf(),
        old(sim).state.phase == GamePhase::Playing,
    ensures
        final(sim)@ == playing_ticked(old(sim)@, *input),
        final(sim).wf(),
{
    proof {
        reveal(playing_ticked);
    }
    let pad = read_menu_pad(input);
    if sim.state.demo_mode && any_pressed(&pad) {
        return_to_lobby(sim);
    } else if pad.start_pressed {
        enter_pause(sim);
    } else if crate::game_state::is_frozen(sim) {
        update_hit_freeze(sim);
    } else {
        tick_gameplay(sim, input);
    }
}

fn tick_final_ko(sim: &mut Simulation)
    ensures
        final(sim)@ == final_ko_ticked(old(sim)@),
        old(sim).wf() ==> final(sim).wf(),
{
    proof {
        reveal(final_ko_ticked);
    }
    update_hit_freeze(sim);
    if sim.state.final_ko_timer > 0 {
        sim.state.final_ko_timer = sim.state.final_ko_timer - 1;
    } else {
        sim.state.phase = GamePhase::MatchEnd;
        reset_match_end_tick(sim);
        sim.emit(Cue::Victory { winner: sim.state.winner_idx });
    }
}

fn tick_match_end(sim: &mut Simulation, input: &TickInput)
    requires
        old(sim).wf(),
    ensures
        final(sim)@ == match_end_ticked(old(sim)@, *input),
        final(sim).wf(),
{
    proof {
        reveal(match_end_ticked);
    }
    let pad = read_menu_pad(input);
    update_match_end_tick(sim);
    if sim.state.demo_mode {
        if any_pressed(&pad) {
            return_to_lobby(sim);
        } else if sim.match_end_tick >= DEMO_END_LIMIT {
            open_title(sim);
            sim.emit(Cue::MenuMusic);
        }
    } else if pad.start_pressed {
        reset_match(sim, input.random);
    } else if pad.b_pressed {
        return_to_lobby(sim);
    }
}

fn step_volume(v: u32, up: bool) -> (r: u32)
    ensures
        r == volume_stepped(v, up),
        r <= VOLUME_MAX,
{
    if up {
        if v >= VOLUME_MAX - VOLUME_STEP {
            VOLUME_MAX
        } else {
            v + VOLUME_STEP
        }
    } else {
        if v > VOLUME_MAX {
            VOLUME_MAX
        } else if v < VOLUME_STEP {
            0
        } else {
            v - VOLUME_STEP
        }
    }
}

fn change_option(sim: &mut Simulation, row: u32, pad: &Pad)
    ensures
        final(sim)@ == option_changed(old(sim)@, row, *pad),
        old(sim).wf() ==> final(sim).wf(),
{
    let sideways = pad.left_pressed || pad.right_pressed;
    if row == 0 && sideways {
        let v = step_volume(sim.options.music_volume, pad.right_pressed);
        sim.options.music_volume = v;
        sim.emit(Cue::MusicVolume { percent: v });
    } else if row == 1 && sideways {
        let v = step_volume(sim.options.sfx_volume, pad.right_pressed);
        sim.options.sfx_volume = v;
        sim.emit(Cue::SfxVolume { percent: v });
    } else if row == 2 && (sideways || pad.a_pressed) {
        sim.options.screen_shake = !sim.options.screen_shake;
    } else if row == 3 && (sideways || pad.a_pressed) {
        sim.options.screen_flash = !sim.options.screen_flash;
    } else if row == 4 && pad.a_pressed {
        sim.pause_page = PausePage::Main;
        sim.pause_index = 4;
    }
}

fn choose_pause_row(sim: &mut Simulation, row: u32, random: u32)
    requires
        old(sim).wf(),
    ensures
        final(sim)@ == pause_chosen(old(sim)@, row, random),
        final(sim).wf(),
{
    if row == 0 {
        resume(sim);
    } else if row == 1 {
        reset_round(sim);
    } else if row == 2 {
        reset_match(sim, random);
    } else if row == 3 {
        return_to_lobby(sim);
    } else if row == 4 {
        sim.pause_page = PausePage::Options;
        sim.pause_index = 0;
    }
}

fn tick_paused(sim: &mut Simulation, input: &TickInput)
    requires
        old(sim).wf(),
    ensures
        final(sim)@ == paused_ticked(old(sim)@, *input),
        final(sim).wf(),
{
    proof {
        reveal(paused_ticked);
    }
    let pad = read_menu_pad(input);
    let page = sim.pause_page;
    let row = move_cursor(sim.pause_index, PAUSE_ROWS, &pad);
    sim.pause_index = row;
    match page {
        PausePage::Main => {
            if pad.b_pressed || pad.start_pressed {
                resume(sim);
            } else if pad.a_pressed {
                choose_pause_row(sim, row, input.random);
            }
        },
        PausePage::Options => {
            if pad.b_pressed || pad.start_pressed {
                sim.pause_page = PausePage::Main;
                sim.pause_index = 4;
            } else {
                change_option(sim, row, &pad);
            }
        },
    }
}

fn start_tick(sim: &mut Simulation)
    ensures
        final(sim)@ == tick_started(old(sim)@),
        old(sim).wf() ==> final(sim).wf(),
{
    sim.cues.clear();
    sim.tick = sim.tick.wrapping_add(1);
    update_impact_flash(sim);
    update_deflect_popup(sim);
    let ghost w1 = sim@;
    assert(w1.cues =~= Seq::<Cue>::empty());
    let _ = update_transition(sim);
}

/// A simulation on the title screen, the menu music starting.
pub fn init() -> (sim: Simulation)
    ensures
        sim@ == World::initial(),
        sim.wf(),
{
    Simulation::new()
}

/// Advances the simulation by one tick: the new state is a function of
/// the old state and of the input alone.
pub fn update(sim: &mut Simulation, input: &TickInput)
    requires
        old(sim).wf(),
    ensures
        final(sim)@ == ticked(old(sim)@, *input),
        final(sim).wf(),
{
    start_tick(sim);
    match sim.state.phase {
        GamePhase::Title => tick_title(sim, input),
        GamePhase::Lobby => tick_lobby(sim, input),
        GamePhase::Countdown => tick_countdown(sim, input),
        GamePhase::Playing => tick_playing(sim, input),
        GamePhase::Paused => tick_paused(sim, input),
        GamePhase::FinalKo => tick_final_ko(sim),
        GamePhase::RoundEnd => {},
        GamePhase::MatchEnd => tick_match_end(sim, input),
    }
}

} // verus!
