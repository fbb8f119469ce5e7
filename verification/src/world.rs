//! The simulation aggregate, its mathematical view, the input of one tick
//! and the cues that the simulation hands to sound and graphics.

use vstd::prelude::*;
use crate::combat::{Bullet, MAX_BULLETS};
use crate::game_state::{
    GameConfig, GameState, Options, PausePage, TransitionPhase, TRANSITION_FULL,
};
use crate::player::{Player, MAX_PLAYERS};
use crate::stage::{Platform, MAX_PLATFORMS, NO_PIT_Y};

verus! {

/// What one controller reports for one tick.  The sticks are fixed-point
/// axes; the plain button fields say that the button is down, the
/// `_pressed` fields that it went down this tick.
#[derive(Clone, Copy, PartialEq, Eq, Structural, Debug)]
pub struct Pad {
    pub stick_x: i64,
    pub stick_y: i64,
    pub up: bool,
    pub down: bool,
    pub left: bool,
    pub right: bool,
    pub a: bool,
    pub up_pressed: bool,
    pub down_pressed: bool,
    pub left_pressed: bool,
    pub right_pressed: bool,
    pub a_pressed: bool,
    pub b_pressed: bool,
    pub x_pressed: bool,
    pub start_pressed: bool,
}

impl Pad {
    /// A controller that nobody touches.
    pub open spec fn idle() -> Pad {
        Pad {
            stick_x: 0,
            stick_y: 0,
            up: false,
            down: false,
            left: false,
            right: false,
            a: false,
            up_pressed: false,
            down_pressed: false,
            left_pressed: false,
            right_pressed: false,
            a_pressed: false,
            b_pressed: false,
            x_pressed: false,
            start_pressed: false,
        }
    }

    /// A controller that nobody touches.
    pub fn new() -> (p: Pad)
        ensures
            p == Pad::idle(),
    {
        Pad {
            stick_x: 0,
            stick_y: 0,
            up: false,
            down: false,
            left: false,
            right: false,
            a: false,
            up_pressed: false,
            down_pressed: false,
            left_pressed: false,
            right_pressed: false,
            a_pressed: false,
            b_pressed: false,
            x_pressed: false,
            start_pressed: false,
        }
    }

    /// Some button went down this tick.
    pub open spec fn any_pressed(self) -> bool {
        self.up_pressed || self.down_pressed || self.left_pressed || self.right_pressed
            || self.a_pressed || self.b_pressed || self.x_pressed || self.start_pressed
    }
}

/// Everything the host supplies for one tick.
#[derive(Clone, Copy, Debug)]
pub struct TickInput {
    pub pads: [Pad; 4],
    /// Number of connected controllers.
    pub player_count: u32,
    /// A fresh pseudo-random number.
    pub random: u32,
}

/// A one-way notification to sound and graphics.  Positions are world
/// coordinates at the moment of the event.
#[derive(Clone, Copy, PartialEq, Eq, Structural, Debug)]
pub enum Cue {
    /// A player appeared at `x`, `y`.
    Spawn { player: u32, x: i64, y: i64 },
    /// A player left the ground or kicked off a wall.
    Jump { player: u32, x: i64 },
    /// A player landed; `x`, `y` is the middle of its feet.
    Land { player: u32, x: i64, y: i64 },
    /// A player slides down a wall at `x`, `y`.
    WallSlide { player: u32, x: i64, y: i64, wall_on_right: bool },
    /// A player at `x` pulled the trigger.
    Shoot { player: u32, x: i64 },
    /// A bullet left the muzzle at `x`, `y`.
    MuzzleFlash { x: i64, y: i64 },
    /// A bullet in flight passed `x`, `y`.
    BulletTrail { x: i64, y: i64 },
    /// A player turned a bullet round at `x`, `y`.
    Deflect { player: u32, x: i64, y: i64 },
    /// A bullet struck the player whose centre is `x`, `y`.
    BulletHit { victim: u32, x: i64, y: i64 },
    /// A melee swing struck the player whose centre is `x`, `y`.
    MeleeHit { victim: u32, x: i64, y: i64 },
    /// A player whose centre is `x`, `y` died.
    Death { victim: u32, x: i64, y: i64 },
    /// The match-winning kill landed.
    FinalKo { winner: u32 },
    /// A whole second of the countdown passed.
    CountdownBeep,
    /// The round started.
    Go,
    /// The match ended.
    Victory { winner: u32 },
    /// Start the menu music.
    MenuMusic,
    /// Start the music of a stage.
    StageMusic { stage: u32 },
    /// The music volume changed to `percent`.
    MusicVolume { percent: u32 },
    /// The effects volume changed to `percent`.
    SfxVolume { percent: u32 },
    /// Remove all particles.
    ClearParticles,
}

/// The whole simulation.  The caller owns it and hands it to [`crate::update`]
/// once per tick; nothing else holds simulation state.
pub struct Simulation {
    pub players: [Player; 4],
    pub bullets: [Bullet; 32],
    pub platforms: [Platform; 16],
    pub has_pit: bool,
    pub pit_y: i64,
    pub state: GameState,
    pub config: GameConfig,
    pub options: Options,
    /// Ticks since the simulation started, wrapping.
    pub tick: u32,
    pub round_number: u32,
    pub title_idle_ticks: u32,
    pub match_end_tick: u32,
    pub pause_page: PausePage,
    pub pause_index: u32,
    pub lobby_index: u32,
    /// Ticks for which gameplay stands still after an impact.
    pub hit_freeze: u32,
    pub impact_flash: u32,
    pub deflect_popup_ticks: u32,
    pub deflect_player: u32,
    pub transition_phase: TransitionPhase,
    /// From 0 (clear) to `TRANSITION_FULL` (covered).
    pub transition_progress: u32,
    /// Cues raised since the start of the current tick, oldest first.
    pub cues: Vec<Cue>,
}

/// The simulation as a mathematical value.
pub struct World {
    pub players: Seq<Player>,
    pub bullets: Seq<Bullet>,
    pub platforms: Seq<Platform>,
    pub has_pit: bool,
    pub pit_y: i64,
    pub state: GameState,
    pub config: GameConfig,
    pub options: Options,
    pub tick: u32,
    pub round_number: u32,
    pub title_idle_ticks: u32,
    pub match_end_tick: u32,
    pub pause_page: PausePage,
    pub pause_index: u32,
    pub lobby_index: u32,
    pub hit_freeze: u32,
    pub impact_flash: u32,
    pub deflect_popup_ticks: u32,
    pub deflect_player: u32,
    pub transition_phase: TransitionPhase,
    pub transition_progress: u32,
    pub cues: Seq<Cue>,
}

impl World {
    /// The tables have their sizes and every record in them is well formed.
    pub open spec fn wf(self) -> bool {
        &&& self.players.len() == MAX_PLAYERS
        &&& self.bullets.len() == MAX_BULLETS
        &&& self.platforms.len() == MAX_PLATFORMS
        &&& forall|i: int| 0 <= i < self.players.len() ==> (#[trigger] self.players[i]).wf()
        &&& forall|i: int| 0 <= i < self.bullets.len() ==> (#[trigger] self.bullets[i]).wf()
        &&& forall|i: int| 0 <= i < self.platforms.len() ==> (#[trigger] self.platforms[i]).wf()
        &&& self.state.wf()
        &&& self.options.wf()
        &&& self.transition_progress <= TRANSITION_FULL
    }

    /// The opening state: the title screen, nobody joined, the menu music starting.
    pub open spec fn initial() -> World {
        World {
            players: Seq::new(MAX_PLAYERS as nat, |i: int| Player::empty()),
            bullets: Seq::new(MAX_BULLETS as nat, |i: int| Bullet::empty()),
            platforms: Seq::new(MAX_PLATFORMS as nat, |i: int| Platform::empty()),
            has_pit: false,
            pit_y: NO_PIT_Y,
            state: GameState::initial(),
            config: GameConfig::initial(),
            options: Options::initial(),
            tick: 0,
            round_number: 1,
            title_idle_ticks: 0,
            match_end_tick: 0,
            pause_page: PausePage::Main,
            pause_index: 0,
            lobby_index: 0,
            hit_freeze: 0,
            impact_flash: 0,
            deflect_popup_ticks: 0,
            deflect_player: 0,
            transition_phase: TransitionPhase::Idle,
            transition_progress: 0,
            cues: seq![Cue::MenuMusic],
        }
    }

    /// The world with one more cue raised.
    pub open spec fn cue(self, c: Cue) -> World {
        World { cues: self.cues.push(c), ..self }
    }

    /// The world with player `i` replaced.
    pub open spec fn with_player(self, i: int, p: Player) -> World {
        World { players: self.players.update(i, p), ..self }
    }

    /// The world with bullet `i` replaced.
    pub open spec fn with_bullet(self, i: int, b: Bullet) -> World {
        World { bullets: self.bullets.update(i, b), ..self }
    }
}

impl View for Simulation {
    type V = World;

    open spec fn view(&self) -> World {
        World {
            players: self.players@,
            bullets: self.bullets@,
            platforms: self.platforms@,
            has_pit: self.has_pit,
            pit_y: self.pit_y,
            state: self.state,
            config: self.config,
            options: self.options,
            tick: self.tick,
            round_number: self.round_number,
            title_idle_ticks: self.title_idle_ticks,
            match_end_tick: self.match_end_tick,
            pause_page: self.pause_page,
            pause_index: self.pause_index,
            lobby_index: self.lobby_index,
            hit_freeze: self.hit_freeze,
            impact_flash: self.impact_flash,
            deflect_popup_ticks: self.deflect_popup_ticks,
            deflect_player: self.deflect_player,
            transition_phase: self.transition_phase,
            transition_progress: self.transition_progress,
            cues: self.cues@,
        }
    }
}

impl Simulation {
    /// Every table and record of the simulation is well formed.
    pub open spec fn wf(&self) -> bool {
        self@.wf()
    }

    /// A simulation on the title screen.
    pub fn new() -> (sim: Simulation)
        ensures
            sim@ == World::initial(),
            sim.wf(),
    {
        let mut cues: Vec<Cue> = Vec::new();
        cues.push(Cue::MenuMusic);
        let sim = Simulation {
            players: [Player::new(); 4],
            bullets: [Bullet::new(); 32],
            platforms: [Platform::new(); 16],
            has_pit: false,
            pit_y: NO_PIT_Y,
            state: GameState::new(),
            config: GameConfig::new(),
            options: Options::new(),
            tick: 0,
            round_number: 1,
            title_idle_ticks: 0,
            match_end_tick: 0,
            pause_page: PausePage::Main,
            pause_index: 0,
            lobby_index: 0,
            hit_freeze: 0,
            impact_flash: 0,
            deflect_popup_ticks: 0,
            deflect_player: 0,
            transition_phase: TransitionPhase::Idle,
            transition_progress: 0,
            cues,
        };
        assert(sim@.players =~= World::initial().players);
        assert(sim@.bullets =~= World::initial().bullets);
        assert(sim@.platforms =~= World::initial().platforms);
        assert(sim@.cues =~= World::initial().cues);
        sim
    }

    /// Whether the simulation is well formed, as every simulation is that
    /// [`crate::init`] made and [`crate::update`] advanced.
    pub fn is_valid(&self) -> (ok: bool)
        ensures
            ok == self.wf(),
    {
        let mut i: usize = 0;
        while i < MAX_PLAYERS
            invariant
                i <= MAX_PLAYERS,
                forall|j: int| 0 <= j < i ==> (#[trigger] self@.players[j]).wf(),
            decreases MAX_PLAYERS - i,
        {
            if !self.players[i].is_valid() {
                return false;
            }
            i = i + 1;
        }
        let mut b: usize = 0;
        while b < MAX_BULLETS
            invariant
                b <= MAX_BULLETS,
                forall|j: int| 0 <= j < b ==> (#[trigger] self@.bullets[j]).wf(),
            decreases MAX_BULLETS - b,
        {
            if !self.bullets[b].is_valid() {
                return false;
            }
            b = b + 1;
        }
        let mut p: usize = 0;
        while p < MAX_PLATFORMS
            invariant
                p <= MAX_PLATFORMS,
                forall|j: int| 0 <= j < p ==> (#[trigger] self@.platforms[j]).wf(),
            decreases MAX_PLATFORMS - p,
        {
            if !self.platforms[p].is_valid() {
                return false;
            }
            p = p + 1;
        }
        self.state.is_valid() && self.options.is_valid() && self.transition_progress
            <= TRANSITION_FULL
    }

    /// A copy of the simulation, as rollback keeps of a tick it may return to.
    pub fn snapshot(&self) -> (copy: Simulation)
        ensures
            copy@ == self@,
    {
        let mut cues: Vec<Cue> = Vec::new();
        let mut i: usize = 0;
        while i < self.cues.len()
            invariant
                i <= self.cues.len(),
                cues@ == self.cues@.subrange(0, i as int),
            decreases self.cues.len() - i,
        {
            cues.push(self.cues[i]);
            assert(cues@ =~= self.cues@.subrange(0, i as int + 1));
            i = i + 1;
        }
        assert(cues@ =~= self.cues@);
        Simulation {
            players: self.players,
            bullets: self.bullets,
            platforms: self.platforms,
            has_pit: self.has_pit,
            pit_y: self.pit_y,
            state: self.state,
            config: self.config,
            options: self.options,
            tick: self.tick,
            round_number: self.round_number,
            title_idle_ticks: self.title_idle_ticks,
            match_end_tick: self.match_end_tick,
            pause_page: self.pause_page,
            pause_index: self.pause_index,
            lobby_index: self.lobby_index,
            hit_freeze: self.hit_freeze,
            impact_flash: self.impact_flash,
            deflect_popup_ticks: self.deflect_popup_ticks,
            deflect_player: self.deflect_player,
            transition_phase: self.transition_phase,
            transition_progress: self.transition_progress,
            cues,
        }
    }

    /// Raises a cue.
    pub fn emit(&mut self, c: Cue)
        ensures
            final(self)@ == old(self)@.cue(c),
    {
        self.cues.push(c);
    }
}

} // verus!
