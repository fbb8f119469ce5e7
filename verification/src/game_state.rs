//! Match-flow state: phases, lobby rules, presentation options and the
//! short-lived feedback timers (hit freeze, impact flash, deflect popup,
//! stage transition) that the rest of the simulation starts and runs down.

use vstd::prelude::*;
use crate::world::{Simulation, World};

verus! {

/// The phase of the match flow.
#[derive(Clone, Copy, PartialEq, Eq, Structural, Debug)]
pub enum GamePhase {
    /// Title screen.
    Title,
    /// Join, ready up and choose the match rules.
    Lobby,
    /// Three seconds before a round starts.
    Countdown,
    /// Active gameplay.
    Playing,
    /// Pause menu and options.
    Paused,
    /// Slow-motion hold on the match-winning hit.
    FinalKo,
    /// Reserved: a kill only starts the round-end timer while `Playing`.
    RoundEnd,
    /// Someone won the match.
    MatchEnd,
}

/// Number of built-in stages.
pub const NUM_STAGES: u32 = 3;

/// Stage-select setting: a fresh random stage each round.
pub const STAGE_SELECT_RANDOM: u32 = 3;

/// Stage-select setting: the next stage each round.
pub const STAGE_SELECT_ROTATE: u32 = 4;

/// Ticks of the countdown before a round (three seconds).
pub const COUNTDOWN_TICKS: u32 = 180;

/// Ticks between a kill and the next round.
pub const ROUND_END_TICKS: u32 = 30;

/// Ticks the slow-motion hold on the winning hit lasts.
pub const FINAL_KO_TICKS: u32 = 75;

/// Ticks per second of the simulation.
pub const TICKS_PER_SECOND: u32 = 60;

/// Ticks without input on the title screen before the attract-mode demo starts.
pub const TITLE_IDLE_LIMIT: u32 = 600;

/// Ticks a finished demo match stays on screen before returning to the title.
pub const DEMO_END_LIMIT: u32 = 360;

/// Ticks the deflect popup stays up.
pub const DEFLECT_POPUP_DURATION: u32 = 45;

/// Ticks the impact flash lasts.
pub const IMPACT_FLASH_DURATION: u32 = 3;

/// Transition progress when the screen is fully covered.
pub const TRANSITION_FULL: u32 = 20;

/// Left arena bound at the start of a round.
pub const ARENA_LEFT: i64 = -1_000_000;

/// Right arena bound at the start of a round.
pub const ARENA_RIGHT: i64 = 1_000_000;

/// Distance each arena bound moves inward per tick of overtime.
pub const ARENA_SHRINK_RATE: i64 = 1_000;

/// Width below which the arena does not shrink (2.5 world units).
pub const ARENA_MIN_WIDTH: i64 = 250_000;

/// Number of player slots, one of which the winner is.
pub const WINNER_SLOTS: u32 = 4;

/// Largest value of a volume setting (100 %).
pub const VOLUME_MAX: u32 = 100;

/// Step of a volume slider.
pub const VOLUME_STEP: u32 = 5;

/// Lobby-configurable match rules.
#[derive(Clone, Copy, PartialEq, Eq, Structural, Debug)]
pub struct GameConfig {
    /// `0..NUM_STAGES`: that stage; `STAGE_SELECT_RANDOM`; `STAGE_SELECT_ROTATE`.
    pub stage_select: u32,
    pub kills_to_win: u32,
    /// 0 means no time limit.
    pub round_time_seconds: u32,
    pub fill_bots: bool,
    /// 0 easy, 1 normal, 2 and above hard.
    pub bot_difficulty: u32,
}

impl GameConfig {
    /// The rules a fresh lobby starts with.
    pub open spec fn initial() -> GameConfig {
        GameConfig {
            stage_select: STAGE_SELECT_ROTATE,
            kills_to_win: 5,
            round_time_seconds: 45,
            fill_bots: true,
            bot_difficulty: 1,
        }
    }

    /// The rules a fresh lobby starts with.
    pub fn new() -> (c: GameConfig)
        ensures
            c == GameConfig::initial(),
    {
        GameConfig {
            stage_select: STAGE_SELECT_ROTATE,
            kills_to_win: 5,
            round_time_seconds: 45,
            fill_bots: true,
            bot_difficulty: 1,
        }
    }

    /// The kill target in force: at least one kill wins a match.
    pub open spec fn kill_target(self) -> int {
        if self.kills_to_win < 1 {
            1
        } else {
            self.kills_to_win as int
        }
    }
}

/// Presentation settings; volumes are percentages.
#[derive(Clone, Copy, PartialEq, Eq, Structural, Debug)]
pub struct Options {
    pub music_volume: u32,
    pub sfx_volume: u32,
    pub screen_shake: bool,
    pub screen_flash: bool,
}

impl Options {
    /// The options of a fresh cartridge.
    pub open spec fn initial() -> Options {
        Options { music_volume: 60, sfx_volume: 85, screen_shake: true, screen_flash: true }
    }

    /// The options of a fresh cartridge.
    pub fn new() -> (o: Options)
        ensures
            o == Options::initial(),
    {
        Options { music_volume: 60, sfx_volume: 85, screen_shake: true, screen_flash: true }
    }

    /// Both volumes are percentages.
    pub open spec fn wf(self) -> bool {
        self.music_volume <= VOLUME_MAX && self.sfx_volume <= VOLUME_MAX
    }

    /// Whether the options are well formed.
    pub fn is_valid(&self) -> (ok: bool)
        ensures
            ok == self.wf(),
    {
        self.music_volume <= VOLUME_MAX && self.sfx_volume <= VOLUME_MAX
    }
}

/// Progress of the match.
#[derive(Clone, Copy, PartialEq, Eq, Structural, Debug)]
pub struct GameState {
    pub phase: GamePhase,
    pub countdown: u32,
    pub round_end_timer: u32,
    pub current_stage: u32,
    pub round_time_left: u32,
    pub overtime: bool,
    pub arena_left: i64,
    pub arena_right: i64,
    pub winner_idx: u32,
    pub final_ko_timer: u32,
    pub demo_mode: bool,
    pub paused_from: GamePhase,
}

impl GameState {
    /// The state on the title screen, before any match.
    pub open spec fn initial() -> GameState {
        GameState {
            phase: GamePhase::Title,
            countdown: COUNTDOWN_TICKS,
            round_end_timer: 0,
            current_stage: 0,
            round_time_left: 0,
            overtime: false,
            arena_left: ARENA_LEFT,
            arena_right: ARENA_RIGHT,
            winner_idx: 0,
            final_ko_timer: 0,
            demo_mode: false,
            paused_from: GamePhase::Playing,
        }
    }

    /// The state on the title screen, before any match.
    pub fn new() -> (s: GameState)
        ensures
            s == GameState::initial(),
    {
        GameState {
            phase: GamePhase::Title,
            countdown: COUNTDOWN_TICKS,
            round_end_timer: 0,
            current_stage: 0,
            round_time_left: 0,
            overtime: false,
            arena_left: ARENA_LEFT,
            arena_right: ARENA_RIGHT,
            winner_idx: 0,
            final_ko_timer: 0,
            demo_mode: false,
            paused_from: GamePhase::Playing,
        }
    }

    /// The arena bounds lie inside the starting arena, left of right; a
    /// pause was entered from the countdown or from play; and the winner
    /// is a slot of the player table.
    pub open spec fn wf(self) -> bool {
        &&& ARENA_LEFT <= self.arena_left <= self.arena_right <= ARENA_RIGHT
        &&& (self.paused_from == GamePhase::Playing || self.paused_from == GamePhase::Countdown)
        &&& self.winner_idx < WINNER_SLOTS
    }

    /// Whether the state is well formed.
    pub fn is_valid(&self) -> (ok: bool)
        ensures
            ok == self.wf(),
    {
        let from_play = match self.paused_from {
            GamePhase::Playing => true,
            GamePhase::Countdown => true,
            _ => false,
        };
        ARENA_LEFT <= self.arena_left && self.arena_left <= self.arena_right && self.arena_right
            <= ARENA_RIGHT && from_play && self.winner_idx < WINNER_SLOTS
    }
}

/// Page of the pause menu.
#[derive(Clone, Copy, PartialEq, Eq, Structural, Debug)]
pub enum PausePage {
    Main,
    Options,
}

/// Direction of the screen fade around a stage change.
#[derive(Clone, Copy, PartialEq, Eq, Structural, Debug)]
pub enum TransitionPhase {
    /// No fade is running.
    Idle,
    FadeOut,
    FadeIn,
}

/// The larger of two tick counts.
pub open spec fn longer(a: u32, b: u32) -> u32 {
    if a > b {
        a
    } else {
        b
    }
}

/// A tick count run down by one tick, resting at zero.
pub open spec fn run_down(t: u32) -> u32 {
    if t == 0 {
        0
    } else {
        (t - 1) as u32
    }
}

/// A tick counter one tick later; it wraps round at the end of its range.
pub open spec fn next_count(t: u32) -> u32 {
    if t == u32::MAX {
        0
    } else {
        (t + 1) as u32
    }
}

/// Ticks in the configured round time, held to the range of a tick count.
pub open spec fn round_ticks(c: GameConfig) -> u32 {
    if c.round_time_seconds * TICKS_PER_SECOND > u32::MAX {
        u32::MAX
    } else {
        (c.round_time_seconds * TICKS_PER_SECOND) as u32
    }
}

/// The world after the transition advanced by one tick.
pub open spec fn transition_advanced(w: World) -> World {
    match w.transition_phase {
        TransitionPhase::Idle => w,
        TransitionPhase::FadeOut => if w.transition_progress + 1 >= TRANSITION_FULL {
            World {
                transition_progress: TRANSITION_FULL,
                transition_phase: TransitionPhase::Idle,
                ..w
            }
        } else {
            World { transition_progress: (w.transition_progress + 1) as u32, ..w }
        },
        TransitionPhase::FadeIn => if w.transition_progress <= 1 {
            World { transition_progress: 0, transition_phase: TransitionPhase::Idle, ..w }
        } else {
            World { transition_progress: (w.transition_progress - 1) as u32, ..w }
        },
    }
}

/// Ticks a round lasts under the current rules; 0 means no limit.
pub fn round_time_limit_ticks(sim: &Simulation) -> (ticks: u32)
    ensures
        ticks == round_ticks(sim.config),
{
    if sim.config.round_time_seconds > u32::MAX / TICKS_PER_SECOND {
        u32::MAX
    } else {
        sim.config.round_time_seconds * TICKS_PER_SECOND
    }
}

/// Freezes gameplay for `frames` ticks, unless a longer freeze is running.
pub fn trigger_hit_freeze(sim: &mut Simulation, frames: u32)
    ensures
        final(sim)@ == (World { hit_freeze: longer(old(sim).hit_freeze, frames), ..old(sim)@ }),
{
    if frames > sim.hit_freeze {
        sim.hit_freeze = frames;
    }
}

/// Whether gameplay stands still this tick.
pub fn is_frozen(sim: &Simulation) -> (frozen: bool)
    ensures
        frozen == (sim.hit_freeze > 0),
{
    sim.hit_freeze > 0
}

/// Runs the hit freeze down by one tick.
pub fn update_hit_freeze(sim: &mut Simulation)
    ensures
        final(sim)@ == (World { hit_freeze: run_down(old(sim).hit_freeze), ..old(sim)@ }),
{
    sim.hit_freeze = sim.hit_freeze.saturating_sub(1);
}

/// Starts the impact flash, if the options allow it.
pub fn trigger_impact_flash(sim: &mut Simulation)
    ensures
        final(sim)@ == (World {
            impact_flash: if old(sim).options.screen_flash {
                IMPACT_FLASH_DURATION
            } else {
                old(sim).impact_flash
            },
            ..old(sim)@
        }),
{
    if sim.options.screen_flash {
        sim.impact_flash = IMPACT_FLASH_DURATION;
    }
}

/// Runs the impact flash down by one tick.
pub fn update_impact_flash(sim: &mut Simulation)
    ensures
        final(sim)@ == (World { impact_flash: run_down(old(sim).impact_flash), ..old(sim)@ }),
{
    sim.impact_flash = sim.impact_flash.saturating_sub(1);
}

/// Restarts the clock of the match-end screen.
pub fn reset_match_end_tick(sim: &mut Simulation)
    ensures
        final(sim)@ == (World { match_end_tick: 0, ..old(sim)@ }),
{
    sim.match_end_tick = 0;
}

/// Advances the clock of the match-end screen.
pub fn update_match_end_tick(sim: &mut Simulation)
    ensures
        final(sim)@ == (World { match_end_tick: next_count(old(sim).match_end_tick), ..old(sim)@ }),
{
    sim.match_end_tick = sim.match_end_tick.wrapping_add(1);
}

/// Records who deflected a bullet and puts the popup up.
pub fn register_deflect(sim: &mut Simulation, player_idx: u32)
    ensures
        final(sim)@ == (World {
            deflect_player: if player_idx > 3 {
                3
            } else {
                player_idx
            },
            deflect_popup_ticks: DEFLECT_POPUP_DURATION,
            ..old(sim)@
        }),
{
    sim.deflect_player = if player_idx > 3 {
        3
    } else {
        player_idx
    };
    sim.deflect_popup_ticks = DEFLECT_POPUP_DURATION;
}

/// Runs the deflect popup down by one tick.
pub fn update_deflect_popup(sim: &mut Simulation)
    ensures
        final(sim)@ == (World {
            deflect_popup_ticks: run_down(old(sim).deflect_popup_ticks),
            ..old(sim)@
        }),
{
    sim.deflect_popup_ticks = sim.deflect_popup_ticks.saturating_sub(1);
}

/// Starts fading the screen out.
pub fn start_transition_out(sim: &mut Simulation)
    ensures
        final(sim)@ == (World {
            transition_phase: TransitionPhase::FadeOut,
            transition_progress: 0,
            ..old(sim)@
        }),
{
    sim.transition_phase = TransitionPhase::FadeOut;
    sim.transition_progress = 0;
}

/// Starts fading the screen back in.
pub fn start_transition_in(sim: &mut Simulation)
    ensures
        final(sim)@ == (World {
            transition_phase: TransitionPhase::FadeIn,
            transition_progress: TRANSITION_FULL,
            ..old(sim)@
        }),
{
    sim.transition_phase = TransitionPhase::FadeIn;
    sim.transition_progress = TRANSITION_FULL;
}

/// Advances the transition by one tick and says whether a fade just completed.
pub fn update_transition(sim: &mut Simulation) -> (completed: bool)
    ensures
        final(sim)@ == transition_advanced(old(sim)@),
        completed == (old(sim).transition_phase != TransitionPhase::Idle
            && final(sim).transition_phase == TransitionPhase::Idle),
{
    match sim.transition_phase {
        TransitionPhase::Idle => false,
        TransitionPhase::FadeOut => {
            if sim.transition_progress >= TRANSITION_FULL - 1 {
                sim.transition_progress = TRANSITION_FULL;
                sim.transition_phase = TransitionPhase::Idle;
                true
            } else {
                sim.transition_progress = sim.transition_progress + 1;
                false
            }
        },
        TransitionPhase::FadeIn => {
            if sim.transition_progress <= 1 {
                sim.transition_progress = 0;
                sim.transition_phase = TransitionPhase::Idle;
                true
            } else {
                sim.transition_progress = sim.transition_progress - 1;
                false
            }
        },
    }
}

/// Whether a fade is running.
pub fn is_transitioning(sim: &Simulation) -> (running: bool)
    ensures
        running == (sim.transition_phase != TransitionPhase::Idle),
{
    match sim.transition_phase {
        TransitionPhase::Idle => false,
        _ => true,
    }
}

} // verus!
