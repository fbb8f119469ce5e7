//! Players: the per-player record, input interpretation, physics, respawn
//! placement and kill resolution.

use vstd::prelude::*;
use crate::combat::{Bullet, MAX_BULLETS};
use crate::fixed::{
    abs_int, clamp_int, dist_sq, dist_sq_int, div_round, div_toward_zero, in_speed, in_world,
    lemma_dist_sq_bound, min_int, FAR, UNIT, WORLD_LIMIT,
};
use crate::stage::{clamp_index, spawn_point, stage_spawn_point, Platform, MAX_PLATFORMS};
use crate::bot::{ai_controls, bot_controls, bot_thought};
use crate::combat::{bullet_spawned, spawn_bullet};
use crate::fixed::{half_of, percent, percent_of, to_world, SPEED_LIMIT};
use crate::game_state::{
    longer, run_down, start_transition_out, trigger_hit_freeze, GamePhase, GameState,
    TransitionPhase, FINAL_KO_TICKS, ROUND_END_TICKS,
};
use crate::world::{Cue, Pad, Simulation, World};

verus! {

/// Slots of the player table.
pub const MAX_PLAYERS: usize = 4;

/// Downward change of vertical speed per tick.
pub const GRAVITY: i64 = 2_500;

/// Additional downward change of vertical speed per tick while fast-falling
/// (gravity times 1.75 in total).
pub const FAST_FALL_GRAVITY: i64 = 1_875;

/// Vertical speed at the start of a jump.
pub const JUMP_FORCE: i64 = 50_000;

/// Vertical speed at the start of a wall jump (nine tenths of a jump).
pub const WALL_JUMP_FORCE: i64 = 45_000;

/// Horizontal speed at the start of a wall jump, away from the wall.
pub const WALL_JUMP_KICK: i64 = 12_000;

/// Share of the horizontal speed that is left after a tick on the ground, in percent.
pub const FRICTION_PERCENT: i64 = 85;

/// Share of the horizontal speed that is left after a tick in the air, in percent.
pub const AIR_FRICTION_PERCENT: i64 = 95;

/// Largest horizontal speed that running reaches.
pub const MOVE_SPEED: i64 = 15_000;

/// Horizontal speed gained per tick at full input on the ground.
pub const GROUND_ACCEL: i64 = 2_250;

/// Horizontal speed gained per tick at full input in the air.
pub const AIR_ACCEL: i64 = 1_200;

/// Analog stick deflection below which the stick counts as centred.
pub const ANALOG_DEADZONE: i64 = 20_000;

/// Horizontal input beyond which the player turns to face it.
pub const FACING_DEADZONE: i64 = 30_000;

/// Downward input beyond which jump drops through the floor.
pub const DROP_THRESHOLD: i64 = -60_000;

/// Downward input beyond which a player in the air falls fast.
pub const FAST_FALL_THRESHOLD: i64 = -75_000;

/// Downward speed a player starts a drop-through with.
pub const DROP_SPEED: i64 = -5_000;

/// Horizontal speed a melee swing adds in the facing direction.
pub const MELEE_DASH: i64 = 15_000;

/// How far beside the player a wall is felt.
pub const WALL_PROBE: i64 = 10_000;

/// How far below a platform's top a falling player still lands on it.
pub const LANDING_TOLERANCE: i64 = 20_000;

/// Width of a player's box (0.8 world units).
pub const PLAYER_WIDTH: i64 = 80_000;

/// Height of a player's box (1.2 world units).
pub const PLAYER_HEIGHT: i64 = 120_000;

/// Half the width of a player's box.
pub const HALF_PLAYER_WIDTH: i64 = 40_000;

/// Half the height of a player's box.
pub const HALF_PLAYER_HEIGHT: i64 = 60_000;

/// Shots a player has after a spawn.
pub const MAX_AMMO: u32 = 3;

/// Ticks a melee swing is active.
pub const MELEE_DURATION: u32 = 12;

/// Ticks of anticipation before a melee swing becomes active.
pub const MELEE_WINDUP_DURATION: u32 = 3;

/// Reach of a melee swing (1.8 world units).
pub const MELEE_RANGE: i64 = 180_000;

/// Half the reach of a melee swing.
pub const HALF_MELEE_RANGE: i64 = 90_000;

/// Ticks between death and respawn.
pub const RESPAWN_DELAY: u32 = 90;

/// Ticks of invulnerability after a spawn.
pub const SPAWN_INVULN_FRAMES: u32 = 60;

/// Ticks the spawn flash lasts.
pub const SPAWN_FLASH_DURATION: u32 = 30;

/// Ticks the muzzle flash lasts.
pub const SHOOT_FLASH_DURATION: u32 = 6;

/// Ticks a jump press is remembered.
pub const JUMP_BUFFER_FRAMES: u32 = 6;

/// Ticks after leaving the ground during which a jump still succeeds.
pub const COYOTE_FRAMES: u32 = 6;

/// Ticks during which a dropping player passes through platforms.
pub const DROP_THROUGH_FRAMES: u32 = 10;

/// A player below this height has fallen off the stage.
pub const DEATH_Y: i64 = -800_000;

/// Ticks over which the preferred respawn point moves on by one.
pub const RESPAWN_ROTATION_TICKS: u32 = 30;

/// Multiplier of the seed that a bot gets from its slot.
pub const BOT_SEED_FACTOR: u32 = 1_103_515_245;

/// Ticks of hit freeze on the match-winning kill.
pub const FINAL_KO_FREEZE: u32 = 12;

/// Colours of the four players (RGBA).
pub const PLAYER_COLORS: [u32; 4] = [0x00FFFFFF, 0xFF00FFFF, 0xFFFF00FF, 0x00FF00FF];

/// One slot of the player table.
#[derive(Clone, Copy, PartialEq, Eq, Structural, Debug)]
pub struct Player {
    /// Lower left corner of the player's box.
    pub x: i64,
    pub y: i64,
    pub vx: i64,
    pub vy: i64,
    pub on_ground: bool,
    pub facing_right: bool,
    /// The slot takes part in the match.
    pub active: bool,
    /// Readied up in the lobby.
    pub ready: bool,
    pub is_bot: bool,
    pub ammo: u32,
    /// Ticks of active melee left.
    pub melee_timer: u32,
    /// Ticks of melee windup left.
    pub melee_windup: u32,
    pub dead: bool,
    pub respawn_timer: u32,
    pub invuln_timer: u32,
    pub jump_buffer: u32,
    pub coyote_timer: u32,
    pub drop_timer: u32,
    /// Bot scratch state.
    pub ai_seed: u32,
    pub ai_shoot_cooldown: u32,
    pub ai_melee_cooldown: u32,
    pub ai_jump_hold: u32,
    /// Presentation timers.
    pub spawn_flash: u32,
    pub shoot_flash: u32,
    pub kills: u32,
}

impl Player {
    /// An unused slot.
    pub open spec fn empty() -> Player {
        Player {
            x: 0,
            y: 0,
            vx: 0,
            vy: 0,
            on_ground: false,
            facing_right: true,
            active: false,
            ready: false,
            is_bot: false,
            ammo: MAX_AMMO,
            melee_timer: 0,
            melee_windup: 0,
            dead: false,
            respawn_timer: 0,
            invuln_timer: 0,
            jump_buffer: 0,
            coyote_timer: 0,
            drop_timer: 0,
            ai_seed: 0,
            ai_shoot_cooldown: 0,
            ai_melee_cooldown: 0,
            ai_jump_hold: 0,
            spawn_flash: 0,
            shoot_flash: 0,
            kills: 0,
        }
    }

    /// An unused slot.
    pub fn new() -> (p: Player)
        ensures
            p == Player::empty(),
    {
        Player {
            x: 0,
            y: 0,
            vx: 0,
            vy: 0,
            on_ground: false,
            facing_right: true,
            active: false,
            ready: false,
            is_bot: false,
            ammo: MAX_AMMO,
            melee_timer: 0,
            melee_windup: 0,
            dead: false,
            respawn_timer: 0,
            invuln_timer: 0,
            jump_buffer: 0,
            coyote_timer: 0,
            drop_timer: 0,
            ai_seed: 0,
            ai_shoot_cooldown: 0,
            ai_melee_cooldown: 0,
            ai_jump_hold: 0,
            spawn_flash: 0,
            shoot_flash: 0,
            kills: 0,
        }
    }

    /// Position and velocity lie within the world's limits, and windup and
    /// active melee never run at the same time.
    pub open spec fn wf(self) -> bool {
        &&& in_world(self.x as int)
        &&& in_world(self.y as int)
        &&& in_speed(self.vx as int)
        &&& in_speed(self.vy as int)
        &&& !(self.melee_timer > 0 && self.melee_windup > 0)
    }

    /// Whether the record is well formed.
    pub fn is_valid(&self) -> (ok: bool)
        ensures
            ok == self.wf(),
    {
        -WORLD_LIMIT <= self.x && self.x <= WORLD_LIMIT && -WORLD_LIMIT <= self.y && self.y
            <= WORLD_LIMIT && -SPEED_LIMIT <= self.vx && self.vx <= SPEED_LIMIT && -SPEED_LIMIT
            <= self.vy && self.vy <= SPEED_LIMIT && !(self.melee_timer > 0 && self.melee_windup > 0)
    }

    /// The player's box has its corner inside the world.
    pub open spec fn placed(self) -> bool {
        in_world(self.x as int) && in_world(self.y as int)
    }

    /// The player takes part and is alive.
    pub open spec fn alive(self) -> bool {
        self.active && !self.dead
    }

    /// Horizontal centre of the player's box.
    pub open spec fn center_x(self) -> int {
        self.x + HALF_PLAYER_WIDTH
    }

    /// Vertical centre of the player's box.
    pub open spec fn center_y(self) -> int {
        self.y + HALF_PLAYER_HEIGHT
    }
}

/// What a player wants to do this tick, whether read from a pad or decided by a bot.
#[derive(Clone, Copy, PartialEq, Eq, Structural, Debug)]
pub struct Controls {
    /// Horizontal intent, from `-UNIT` (left) to `UNIT` (right).
    pub x: i64,
    /// Vertical intent, from `-UNIT` (down) to `UNIT` (up).
    pub y: i64,
    pub jump_pressed: bool,
    pub jump_held: bool,
    pub shoot_pressed: bool,
    pub melee_pressed: bool,
}

impl Controls {
    /// Both axes lie between full deflection one way and the other.
    pub open spec fn wf(self) -> bool {
        -UNIT <= self.x <= UNIT && -UNIT <= self.y <= UNIT
    }
}

/// `v` held to the range from `min` to `max`: a value below `min` gives
/// `min`, any other value above `max` gives `max`.
pub fn clamp(v: i64, min: i64, max: i64) -> (r: i64)
    ensures
        r == clamp_int(v as int, min as int, max as int),
{
    if v < min {
        min
    } else if v > max {
        max
    } else {
        v
    }
}

/// Magnitude of `v`.
pub fn abs(v: i64) -> (r: i64)
    requires
        v > i64::MIN,
    ensures
        r == abs_int(v as int),
{
    if v < 0 {
        -v
    } else {
        v
    }
}

/// Whether two boxes, each given as `(x, y, width, height)`, share interior points.
pub open spec fn boxes_overlap(a: (int, int, int, int), b: (int, int, int, int)) -> bool {
    a.0 < b.0 + b.2 && a.0 + a.2 > b.0 && a.1 < b.1 + b.3 && a.1 + a.3 > b.1
}

/// Whether two boxes, each given as `(x, y, width, height)`, overlap.
pub fn aabb_overlap(a: (i64, i64, i64, i64), b: (i64, i64, i64, i64)) -> (hit: bool)
    ensures
        hit == boxes_overlap(
            (a.0 as int, a.1 as int, a.2 as int, a.3 as int),
            (b.0 as int, b.1 as int, b.2 as int, b.3 as int),
        ),
{
    let (x1, y1, w1, h1) = a;
    let (x2, y2, w2, h2) = b;
    (x1 as i128) < x2 as i128 + w2 as i128 && x1 as i128 + w1 as i128 > x2 as i128 && (y1 as i128)
        < y2 as i128 + h2 as i128 && y1 as i128 + h1 as i128 > y2 as i128
}

/// A score after one more kill; a score at the top of its range stays there.
pub open spec fn one_more_kill(kills: u32) -> u32 {
    if kills == u32::MAX {
        kills
    } else {
        (kills + 1) as u32
    }
}

/// The player after being killed: dead, waiting to respawn, no longer invulnerable.
pub open spec fn struck_down(p: Player) -> Player {
    Player { dead: true, respawn_timer: RESPAWN_DELAY, invuln_timer: 0, ..p }
}

/// The world after `killer` was credited with a kill.  The first score
/// that reaches the kill target names the winner and enters the final-KO
/// hold; a kill during the hold is counted and changes nothing else.
pub open spec fn kill_awarded(w: World, killer: int) -> World {
    let k = w.players[killer];
    let kills = one_more_kill(k.kills);
    let w1 = w.with_player(killer, Player { kills, ..k });
    if kills >= w.config.kill_target() && w.state.phase != GamePhase::FinalKo {
        (World {
            state: GameState {
                winner_idx: killer as u32,
                final_ko_timer: FINAL_KO_TICKS,
                round_end_timer: 0,
                phase: GamePhase::FinalKo,
                ..w1.state
            },
            hit_freeze: longer(w1.hit_freeze, FINAL_KO_FREEZE),
            ..w1
        }).cue(Cue::FinalKo { winner: killer as u32 })
    } else {
        w1
    }
}

/// The world after a kill of `victim` by `killer` was resolved.
///
/// A victim that is already dead leaves the world as it is.  Otherwise the
/// victim dies; unless it killed itself, the killer scores; and while the
/// phase is still `Playing` the round-end pause starts.
pub open spec fn kill_resolved(w: World, victim: int, killer: int) -> World {
    if w.players[victim].dead {
        w
    } else if killer != victim {
        round_end_started(kill_awarded(victim_struck(w, victim), killer))
    } else {
        round_end_started(victim_struck(w, victim))
    }
}

/// The world after `victim` died, before anyone scores.
pub open spec fn victim_struck(w: World, victim: int) -> World {
    let v = w.players[victim];
    w.cue(
        Cue::Death { victim: victim as u32, x: v.center_x() as i64, y: v.center_y() as i64 },
    ).with_player(victim, struck_down(v))
}

/// The world with the round-end pause started, if the phase is `Playing`.
pub open spec fn round_end_started(w: World) -> World {
    if w.state.phase == GamePhase::Playing {
        World {
            transition_phase: TransitionPhase::FadeOut,
            transition_progress: 0,
            state: GameState { round_end_timer: ROUND_END_TICKS, ..w.state },
            ..w
        }
    } else {
        w
    }
}

fn strike_victim(sim: &mut Simulation, victim_idx: usize)
    requires
        old(sim).wf(),
        victim_idx < MAX_PLAYERS,
    ensures
        final(sim)@ == victim_struck(old(sim)@, victim_idx as int),
        final(sim).wf(),
{
    let mut victim = sim.players[victim_idx];
    sim.emit(
        Cue::Death {
            victim: victim_idx as u32,
            x: victim.x + HALF_PLAYER_WIDTH,
            y: victim.y + HALF_PLAYER_HEIGHT,
        },
    );
    victim.dead = true;
    victim.respawn_timer = RESPAWN_DELAY;
    victim.invuln_timer = 0;
    sim.players[victim_idx] = victim;
    assert(sim@.players =~= old(sim)@.players.update(victim_idx as int, victim));
}

fn award_kill(sim: &mut Simulation, killer_owner: u32)
    requires
        old(sim).wf(),
        killer_owner < MAX_PLAYERS,
    ensures
        final(sim)@ == kill_awarded(old(sim)@, killer_owner as int),
        final(sim).wf(),
{
    let mut killer = sim.players[killer_owner as usize];
    if killer.kills < u32::MAX {
        killer.kills = killer.kills + 1;
    }
    sim.players[killer_owner as usize] = killer;
    assert(sim@.players =~= old(sim)@.players.update(killer_owner as int, killer));
    let target: u32 = if sim.config.kills_to_win < 1 {
        1
    } else {
        sim.config.kills_to_win
    };
    let holding = match sim.state.phase {
        GamePhase::FinalKo => true,
        _ => false,
    };
    if killer.kills >= target && !holding {
        sim.state.winner_idx = killer_owner;
        sim.state.final_ko_timer = FINAL_KO_TICKS;
        sim.state.round_end_timer = 0;
        sim.state.phase = GamePhase::FinalKo;
        trigger_hit_freeze(sim, FINAL_KO_FREEZE);
        sim.emit(Cue::FinalKo { winner: killer_owner });
    }
}

fn start_round_end(sim: &mut Simulation)
    ensures
        final(sim)@ == round_end_started(old(sim)@),
        old(sim).wf() ==> final(sim).wf(),
{
    if sim.state.phase == GamePhase::Playing {
        start_transition_out(sim);
        sim.state.round_end_timer = ROUND_END_TICKS;
    }
}

/// Resolves a kill of player `victim_idx` by player `killer_owner`; the
/// victim's own index as killer means a death without an aggressor.
pub fn kill_player(sim: &mut Simulation, victim_idx: usize, killer_owner: u32)
    requires
        old(sim).wf(),
        victim_idx < MAX_PLAYERS,
        killer_owner < MAX_PLAYERS,
    ensures
        final(sim)@ == kill_resolved(old(sim)@, victim_idx as int, killer_owner as int),
        final(sim).wf(),
{
    if sim.players[victim_idx].dead {
        return ;
    }
    strike_victim(sim, victim_idx);
    if killer_owner as usize != victim_idx {
        award_kill(sim, killer_owner);
    }
    start_round_end(sim);
}

/// The response of an analog axis: nothing inside the dead zone, then
/// rising evenly to full deflection; deflections beyond full count as full.
pub open spec fn deadzone_response(v: int) -> int {
    let held = clamp_int(v, -UNIT as int, UNIT as int);
    let magnitude = abs_int(held);
    if magnitude < ANALOG_DEADZONE {
        0
    } else {
        let scaled = (magnitude - ANALOG_DEADZONE) * UNIT / (UNIT - ANALOG_DEADZONE);
        if held < 0 {
            -scaled
        } else {
            scaled
        }
    }
}

/// Applies the dead zone to an analog axis.
pub fn apply_deadzone(v: i64) -> (r: i64)
    ensures
        r == deadzone_response(v as int),
        -UNIT <= r <= UNIT,
{
    let held = clamp(v, -UNIT, UNIT);
    let magnitude = abs(held);
    if magnitude < ANALOG_DEADZONE {
        0
    } else {
        let scaled = (magnitude - ANALOG_DEADZONE) * UNIT / (UNIT - ANALOG_DEADZONE);
        if held < 0 {
            -scaled
        } else {
            scaled
        }
    }
}

/// The value of a pair of opposed buttons as an axis.
pub open spec fn button_axis(positive: bool, negative: bool) -> int {
    if positive {
        UNIT as int
    } else if negative {
        -UNIT as int
    } else {
        0
    }
}

/// Stick and buttons combined: whichever has the larger magnitude wins, the
/// buttons where both are equal.
pub open spec fn combined_axis(stick: int, buttons: int) -> int {
    if abs_int(stick) > abs_int(buttons) {
        stick
    } else {
        buttons
    }
}

/// What the holder of `pad` wants to do.
pub open spec fn human_controls(pad: Pad) -> Controls {
    Controls {
        x: combined_axis(
            deadzone_response(pad.stick_x as int),
            button_axis(pad.right, pad.left),
        ) as i64,
        y: combined_axis(deadzone_response(pad.stick_y as int), button_axis(pad.up, pad.down)) as i64,
        jump_pressed: pad.a_pressed,
        jump_held: pad.a,
        shoot_pressed: pad.b_pressed,
        melee_pressed: pad.x_pressed,
    }
}

fn axis_of(stick: i64, positive: bool, negative: bool) -> (r: i64)
    ensures
        r == combined_axis(deadzone_response(stick as int), button_axis(positive, negative)),
        -UNIT <= r <= UNIT,
{
    let analog = apply_deadzone(stick);
    let digital: i64 = if positive {
        UNIT
    } else if negative {
        -UNIT
    } else {
        0
    };
    if abs(analog) > abs(digital) {
        analog
    } else {
        digital
    }
}

/// Interprets a controller.
pub fn read_human_controls(pad: &Pad) -> (c: Controls)
    ensures
        c == human_controls(*pad),
        c.wf(),
{
    Controls {
        x: axis_of(pad.stick_x, pad.right, pad.left),
        y: axis_of(pad.stick_y, pad.up, pad.down),
        jump_pressed: pad.a_pressed,
        jump_held: pad.a,
        shoot_pressed: pad.b_pressed,
        melee_pressed: pad.x_pressed,
    }
}

/// Squared distance from the centre of player `me` to the centre of player
/// `j`, if `j` is a living opponent of `me`; else `FAR`.
pub open spec fn rival_distance(players: Seq<Player>, me: int, j: int) -> int {
    if j != me && players[j].alive() {
        dist_sq_int(
            players[me].center_x(),
            players[me].center_y(),
            players[j].center_x(),
            players[j].center_y(),
        )
    } else {
        FAR as int
    }
}

/// The living opponent among the first `upto` players that is nearest to
/// player `me`, the one with the lowest index where several are equally
/// near; `me` itself if there is none.
pub open spec fn nearest_rival_among(players: Seq<Player>, me: int, upto: int) -> int
    decreases upto,
{
    if upto <= 0 {
        me
    } else {
        let best = nearest_rival_among(players, me, upto - 1);
        if rival_distance(players, me, upto - 1) < rival_distance(players, me, best) {
            upto - 1
        } else {
            best
        }
    }
}

/// The living opponent nearest to player `me`; `me` itself if there is none.
pub open spec fn nearest_rival(w: World, me: int) -> int {
    nearest_rival_among(w.players, me, w.players.len() as int)
}

/// The distance to a living opponent in the world is less than `FAR`.
pub proof fn lemma_rival_distance(players: Seq<Player>, me: int, j: int)
    requires
        0 <= me < players.len(),
        0 <= j < players.len(),
        players[me].placed(),
        players[j].placed(),
    ensures
        0 <= rival_distance(players, me, j) <= FAR,
        rival_distance(players, me, j) < FAR <==> j != me && players[j].alive(),
{
    lemma_dist_sq_bound(
        players[me].center_x(),
        players[me].center_y(),
        players[j].center_x(),
        players[j].center_y(),
    );
}

/// `nearest_rival_among` names a player no farther than any other of the
/// first `upto`, strictly nearer than those before it, and alive unless it
/// is `me`; it is `me` only where none of the first `upto` is a living
/// opponent.
pub proof fn lemma_nearest_rival(players: Seq<Player>, me: int, upto: int)
    requires
        0 <= me < players.len(),
        0 <= upto <= players.len(),
        forall|i: int| 0 <= i < players.len() ==> (#[trigger] players[i]).placed(),
    ensures
        ({
            let best = nearest_rival_among(players, me, upto);
            &&& (best == me || 0 <= best < upto)
            &&& forall|j: int|
                0 <= j < upto ==> rival_distance(players, me, best) <= #[trigger] rival_distance(
                    players,
                    me,
                    j,
                )
            &&& forall|j: int|
                0 <= j < best && best != me ==> rival_distance(players, me, best)
                    < #[trigger] rival_distance(players, me, j)
            &&& best != me ==> players[best].alive()
            &&& forall|j: int|
                0 <= j < upto && j != me && (#[trigger] players[j]).alive() ==> best != me
        }),
    decreases upto,
{
    if upto > 0 {
        lemma_nearest_rival(players, me, upto - 1);
        let before = nearest_rival_among(players, me, upto - 1);
        lemma_rival_distance(players, me, upto - 1);
        lemma_rival_distance(players, me, before);
        lemma_rival_distance(players, me, me);
    }
}

fn distance_to_rival(sim: &Simulation, me: usize, j: usize) -> (d: i64)
    requires
        sim.wf(),
        me < MAX_PLAYERS,
        j < MAX_PLAYERS,
    ensures
        d == rival_distance(sim@.players, me as int, j as int),
        0 <= d <= FAR,
{
    let a = sim.players[me];
    let b = sim.players[j];
    assert(a.wf() && b.wf());
    if j != me && b.active && !b.dead {
        dist_sq(
            a.x + HALF_PLAYER_WIDTH,
            a.y + HALF_PLAYER_HEIGHT,
            b.x + HALF_PLAYER_WIDTH,
            b.y + HALF_PLAYER_HEIGHT,
        )
    } else {
        FAR
    }
}

/// Index of the living opponent nearest to player `me`, or `me`.
pub fn find_nearest_rival(sim: &Simulation, me: usize) -> (best: usize)
    requires
        sim.wf(),
        me < MAX_PLAYERS,
    ensures
        best == nearest_rival(sim@, me as int),
        best < MAX_PLAYERS,
        best != me ==> sim@.players[best as int].alive(),
{
    let mut best: usize = me;
    let mut best_dist: i64 = FAR;
    let mut j: usize = 0;
    while j < MAX_PLAYERS
        invariant
            j <= MAX_PLAYERS,
            me < MAX_PLAYERS,
            best < MAX_PLAYERS,
            sim.wf(),
            best == nearest_rival_among(sim@.players, me as int, j as int),
            best_dist == rival_distance(sim@.players, me as int, best as int),
            best != me ==> sim@.players[best as int].alive(),
        decreases MAX_PLAYERS - j,
    {
        let d = distance_to_rival(sim, me, j);
        if d < best_dist {
            best_dist = d;
            best = j;
        }
        j = j + 1;
    }
    best
}

/// Who is credited when an overtime wall kills player `victim_idx`: the
/// nearest living opponent, or the victim itself if there is none.
pub fn overtime_killer_for(sim: &Simulation, victim_idx: usize) -> (killer: u32)
    requires
        sim.wf(),
        victim_idx < MAX_PLAYERS,
    ensures
        killer == nearest_rival(sim@, victim_idx as int),
        killer < MAX_PLAYERS,
{
    find_nearest_rival(sim, victim_idx) as u32
}

/// Whether the vertical stretch from `y_min` to `y_max` at `x` touches an active platform.
pub open spec fn wall_at(platforms: Seq<Platform>, x: int, y_min: int, y_max: int) -> bool {
    exists|j: int|
        0 <= j < platforms.len() && (#[trigger] platforms[j]).active && touches_platform(
            platforms[j],
            x,
            y_min,
            y_max,
        )
}

/// Whether the vertical stretch from `y_min` to `y_max` at `x` touches `p`.
pub open spec fn touches_platform(p: Platform, x: int, y_min: int, y_max: int) -> bool {
    x >= p.x && x <= p.x + p.width && y_max >= p.y && y_min <= p.y + p.height
}

/// Whether a wall stands at `x` between the heights `y_min` and `y_max`.
pub fn check_wall_collision(sim: &Simulation, x: i64, y_min: i64, y_max: i64) -> (wall: bool)
    requires
        sim.wf(),
    ensures
        wall == wall_at(sim@.platforms, x as int, y_min as int, y_max as int),
{
    let mut j: usize = 0;
    while j < MAX_PLATFORMS
        invariant
            j <= MAX_PLATFORMS,
            sim.wf(),
            forall|k: int|
                0 <= k < j ==> !((#[trigger] sim@.platforms[k]).active && touches_platform(
                    sim@.platforms[k],
                    x as int,
                    y_min as int,
                    y_max as int,
                )),
        decreases MAX_PLATFORMS - j,
    {
        let p = sim.platforms[j];
        assert(p.wf());
        if p.active && x >= p.x && x <= p.x + p.width && y_max >= p.y && y_min <= p.y + p.height {
            assert(sim@.platforms[j as int].active);
            return true;
        }
        j = j + 1;
    }
    false
}

/// Squared distance from the point `cx`, `cy` to the centre of player `j`,
/// if `j` is a living opponent of `me`; else `FAR`.
pub open spec fn opponent_distance(players: Seq<Player>, me: int, cx: int, cy: int, j: int) -> int {
    if j != me && players[j].alive() {
        dist_sq_int(cx, cy, players[j].center_x(), players[j].center_y())
    } else {
        FAR as int
    }
}

/// Least squared distance from `cx`, `cy` to a living opponent of `me`
/// among the first `upto` players; `FAR` if there is none.
pub open spec fn nearest_opponent_distance(
    players: Seq<Player>,
    me: int,
    cx: int,
    cy: int,
    upto: int,
) -> int
    decreases upto,
{
    if upto <= 0 {
        FAR as int
    } else {
        min_int(
            nearest_opponent_distance(players, me, cx, cy, upto - 1),
            opponent_distance(players, me, cx, cy, upto - 1),
        )
    }
}

/// Squared distance from `cx`, `cy` to bullet `j` if it is in flight; else `FAR`.
pub open spec fn bullet_distance(bullets: Seq<Bullet>, cx: int, cy: int, j: int) -> int {
    if bullets[j].active {
        dist_sq_int(cx, cy, bullets[j].x as int, bullets[j].y as int)
    } else {
        FAR as int
    }
}

/// Least squared distance from `cx`, `cy` to a bullet in flight among the
/// first `upto` slots; `FAR` if there is none.
pub open spec fn nearest_bullet_distance(bullets: Seq<Bullet>, cx: int, cy: int, upto: int) -> int
    decreases upto,
{
    if upto <= 0 {
        FAR as int
    } else {
        min_int(
            nearest_bullet_distance(bullets, cx, cy, upto - 1),
            bullet_distance(bullets, cx, cy, upto - 1),
        )
    }
}

/// Squared distance from a player standing at `cx`, `cy` (its centre) to
/// the nearest threat: a living opponent of `me` or a bullet in flight.
pub open spec fn threat_distance_at(w: World, me: int, cx: int, cy: int) -> int {
    min_int(
        nearest_opponent_distance(w.players, me, cx, cy, w.players.len() as int),
        nearest_bullet_distance(w.bullets, cx, cy, w.bullets.len() as int),
    )
}

/// Squared distance from spawn point `slot` of the current stage to the
/// nearest threat to player `me`.
pub open spec fn threat_distance(w: World, me: int, slot: int) -> int {
    let at = spawn_point(clamp_index(w.state.current_stage as int, 2), slot);
    threat_distance_at(w, me, at.0 + HALF_PLAYER_WIDTH, at.1 + HALF_PLAYER_HEIGHT)
}

/// The spawn point that player `me` prefers at this tick; the preference
/// moves on by one point every `RESPAWN_ROTATION_TICKS` ticks.
pub open spec fn preferred_slot(w: World, me: int) -> int {
    (w.tick / RESPAWN_ROTATION_TICKS + me) % 4
}

/// The spawn point `k` places after `preferred` in the rotation.
pub open spec fn rotated_slot(preferred: int, k: int) -> int {
    (preferred + k) % 4
}

/// Among the first `upto` places of the rotation that starts at the
/// preferred spawn point, the place of the point farthest from its nearest
/// threat; the earliest such place where several are equally far.
pub open spec fn safest_place(w: World, me: int, upto: int) -> int
    decreases upto,
{
    if upto <= 1 {
        0
    } else {
        let best = safest_place(w, me, upto - 1);
        let preferred = preferred_slot(w, me);
        if threat_distance(w, me, rotated_slot(preferred, upto - 1)) > threat_distance(
            w,
            me,
            rotated_slot(preferred, best),
        ) {
            upto - 1
        } else {
            best
        }
    }
}

/// The spawn point at which player `me` respawns.
pub open spec fn safest_slot(w: World, me: int) -> int {
    rotated_slot(preferred_slot(w, me), safest_place(w, me, 4))
}

/// Where player `me` respawns: the spawn point of the current stage that is
/// farthest from its nearest threat.
pub open spec fn respawn_position(w: World, me: int) -> (int, int) {
    spawn_point(clamp_index(w.state.current_stage as int, 2), safest_slot(w, me))
}

/// Squared distance from `cx`, `cy` to the nearest threat to player `me`.
fn threat_at(sim: &Simulation, me: usize, cx: i64, cy: i64) -> (d: i64)
    requires
        sim.wf(),
        in_world(cx as int),
        in_world(cy as int),
    ensures
        d == threat_distance_at(sim@, me as int, cx as int, cy as int),
        0 <= d <= FAR,
{
    let mut nearest_player: i64 = FAR;
    let mut j: usize = 0;
    while j < MAX_PLAYERS
        invariant
            j <= MAX_PLAYERS,
            sim.wf(),
            in_world(cx as int),
            in_world(cy as int),
            0 <= nearest_player <= FAR,
            nearest_player == nearest_opponent_distance(
                sim@.players,
                me as int,
                cx as int,
                cy as int,
                j as int,
            ),
        decreases MAX_PLAYERS - j,
    {
        let other = sim.players[j];
        assert(other.wf());
        if j != me && other.active && !other.dead {
            let d = dist_sq(cx, cy, other.x + HALF_PLAYER_WIDTH, other.y + HALF_PLAYER_HEIGHT);
            if d < nearest_player {
                nearest_player = d;
            }
        }
        j = j + 1;
    }
    let mut nearest_bullet: i64 = FAR;
    let mut k: usize = 0;
    while k < MAX_BULLETS
        invariant
            k <= MAX_BULLETS,
            sim.wf(),
            in_world(cx as int),
            in_world(cy as int),
            0 <= nearest_bullet <= FAR,
            nearest_bullet == nearest_bullet_distance(sim@.bullets, cx as int, cy as int, k as int),
        decreases MAX_BULLETS - k,
    {
        let b = sim.bullets[k];
        assert(b.wf());
        if b.active {
            let d = dist_sq(cx, cy, b.x, b.y);
            if d < nearest_bullet {
                nearest_bullet = d;
            }
        }
        k = k + 1;
    }
    if nearest_player < nearest_bullet {
        nearest_player
    } else {
        nearest_bullet
    }
}

/// Squared distance from spawn point `slot` to the nearest threat to player `me`.
fn threat_at_slot(sim: &Simulation, me: usize, slot: usize) -> (d: i64)
    requires
        sim.wf(),
        slot < 4,
    ensures
        d == threat_distance(sim@, me as int, slot as int),
{
    let stage: usize = if sim.state.current_stage > 2 {
        2
    } else {
        sim.state.current_stage as usize
    };
    let (sx, sy) = stage_spawn_point(stage, slot);
    threat_at(sim, me, sx + HALF_PLAYER_WIDTH, sy + HALF_PLAYER_HEIGHT)
}

/// Chooses where player `player_idx` respawns.
pub fn choose_safe_respawn_position(sim: &Simulation, player_idx: usize) -> (at: (i64, i64))
    requires
        sim.wf(),
        player_idx < MAX_PLAYERS,
    ensures
        at.0 == respawn_position(sim@, player_idx as int).0,
        at.1 == respawn_position(sim@, player_idx as int).1,
        in_world(at.0 as int),
        in_world(at.1 as int),
{
    let preferred: usize = ((sim.tick / RESPAWN_ROTATION_TICKS) as usize + player_idx) % 4;
    let mut best: usize = 0;
    let mut best_score: i64 = threat_at_slot(sim, player_idx, preferred % 4);
    let mut k: usize = 1;
    while k < 4
        invariant
            1 <= k <= 4,
            best < k,
            sim.wf(),
            player_idx < MAX_PLAYERS,
            preferred == preferred_slot(sim@, player_idx as int),
            best == safest_place(sim@, player_idx as int, k as int),
            best_score == threat_distance(
                sim@,
                player_idx as int,
                rotated_slot(preferred as int, best as int),
            ),
        decreases 4 - k,
    {
        let score = threat_at_slot(sim, player_idx, (preferred + k) % 4);
        if score > best_score {
            best_score = score;
            best = k;
        }
        k = k + 1;
    }
    let stage: usize = if sim.state.current_stage > 2 {
        2
    } else {
        sim.state.current_stage as usize
    };
    stage_spawn_point(stage, (preferred + best) % 4)
}

/// The respawn point is at least as far from its nearest threat as every
/// spawn point of the stage.
pub proof fn lemma_respawn_is_safest(w: World, me: int, slot: int)
    requires
        0 <= me < MAX_PLAYERS,
        0 <= slot < 4,
    ensures
        0 <= safest_slot(w, me) < 4,
        threat_distance(w, me, slot) <= threat_distance(w, me, safest_slot(w, me)),
{
    let preferred = preferred_slot(w, me);
    let k = (slot + 4 - preferred) % 4;
    assert(rotated_slot(preferred, k) == slot);
    lemma_safest_place(w, me, 4);
}

/// `safest_place` names a place whose spawn point is at least as far from
/// its nearest threat as that of every other of the first `upto` places.
pub proof fn lemma_safest_place(w: World, me: int, upto: int)
    requires
        1 <= upto,
    ensures
        0 <= safest_place(w, me, upto) < upto,
        forall|k: int|
            0 <= k < upto ==> threat_distance(w, me, #[trigger] rotated_slot(preferred_slot(w, me), k))
                <= threat_distance(
                w,
                me,
                rotated_slot(preferred_slot(w, me), safest_place(w, me, upto)),
            ),
    decreases upto,
{
    if upto > 1 {
        lemma_safest_place(w, me, upto - 1);
    }
}

/// The seed of the bot in `slot`: the seed it has, or, where that is 0, one
/// made from the slot and the tick.
pub open spec fn bot_seed(p: Player, slot: int, tick: u32) -> u32 {
    if p.ai_seed != 0 {
        p.ai_seed
    } else {
        ((slot + 1) as u32).wrapping_mul(BOT_SEED_FACTOR) ^ tick
    }
}

/// The player of `slot` at the start of a round, standing at `at`: all
/// state fresh but for its role, its seed and its score.
pub open spec fn spawned(p: Player, slot: int, at: (int, int), tick: u32) -> Player {
    Player {
        x: at.0 as i64,
        y: at.1 as i64,
        facing_right: slot % 2 == 0,
        active: true,
        ready: p.ready,
        is_bot: p.is_bot,
        invuln_timer: SPAWN_INVULN_FRAMES,
        ai_seed: bot_seed(p, slot, tick),
        spawn_flash: SPAWN_FLASH_DURATION,
        kills: p.kills,
        ..Player::empty()
    }
}

/// The world after the player of slot `i` was spawned, if the slot takes part.
pub open spec fn player_spawned(w: World, i: int) -> World {
    if w.players[i].active {
        let at = crate::stage::spawn_position(w, i);
        w.with_player(i, spawned(w.players[i], i, at, w.tick)).cue(
            Cue::Spawn { player: i as u32, x: at.0 as i64, y: at.1 as i64 },
        )
    } else {
        w
    }
}

/// The world after the players from slot `from` on were spawned.
pub open spec fn players_spawned_from(w: World, from: int) -> World
    decreases MAX_PLAYERS - from,
{
    if from < 0 || from >= MAX_PLAYERS {
        w
    } else {
        players_spawned_from(player_spawned(w, from), from + 1)
    }
}

/// The world after every player that takes part was put on its spawn point.
pub open spec fn players_spawned(w: World) -> World {
    players_spawned_from(w, 0)
}

fn spawn_player(sim: &mut Simulation, i: usize)
    requires
        old(sim).wf(),
        i < MAX_PLAYERS,
    ensures
        final(sim)@ == player_spawned(old(sim)@, i as int),
        final(sim).wf(),
{
    let p = sim.players[i];
    if !p.active {
        return ;
    }
    let (sx, sy) = crate::stage::get_spawn_position(sim, i);
    let ai_seed = if p.ai_seed != 0 {
        p.ai_seed
    } else {
        ((i + 1) as u32).wrapping_mul(BOT_SEED_FACTOR) ^ sim.tick
    };
    let fresh = Player {
        x: sx,
        y: sy,
        vx: 0,
        vy: 0,
        on_ground: false,
        facing_right: i % 2 == 0,
        active: true,
        ready: p.ready,
        is_bot: p.is_bot,
        ammo: MAX_AMMO,
        melee_timer: 0,
        melee_windup: 0,
        dead: false,
        respawn_timer: 0,
        invuln_timer: SPAWN_INVULN_FRAMES,
        jump_buffer: 0,
        coyote_timer: 0,
        drop_timer: 0,
        ai_seed,
        ai_shoot_cooldown: 0,
        ai_melee_cooldown: 0,
        ai_jump_hold: 0,
        spawn_flash: SPAWN_FLASH_DURATION,
        shoot_flash: 0,
        kills: p.kills,
    };
    sim.players[i] = fresh;
    assert(sim@.players =~= old(sim)@.players.update(i as int, fresh));
    sim.emit(Cue::Spawn { player: i as u32, x: sx, y: sy });
}

/// Puts every player that takes part on its spawn point for a new round.
pub fn spawn_players(sim: &mut Simulation)
    requires
        old(sim).wf(),
    ensures
        final(sim)@ == players_spawned(old(sim)@),
        final(sim).wf(),
{
    let mut i: usize = 0;
    while i < MAX_PLAYERS
        invariant
            i <= MAX_PLAYERS,
            sim.wf(),
            players_spawned(old(sim)@) == players_spawned_from(sim@, i as int),
        decreases MAX_PLAYERS - i,
    {
        spawn_player(sim, i);
        i = i + 1;
    }
}

/// The player back in play at `at`.
pub open spec fn respawned(p: Player, at: (int, int)) -> Player {
    Player {
        dead: false,
        ammo: MAX_AMMO,
        melee_timer: 0,
        melee_windup: 0,
        spawn_flash: SPAWN_FLASH_DURATION,
        shoot_flash: 0,
        invuln_timer: SPAWN_INVULN_FRAMES,
        jump_buffer: 0,
        coyote_timer: 0,
        drop_timer: 0,
        ai_jump_hold: 0,
        x: at.0 as i64,
        y: at.1 as i64,
        vx: 0,
        vy: 0,
        ..p
    }
}

/// The world after one tick of the dead player `idx`: the respawn timer
/// runs down; once it has run out the player respawns.
pub open spec fn respawn_ticked(w: World, idx: int) -> World {
    let p = w.players[idx];
    if p.respawn_timer > 0 {
        w.with_player(idx, Player { respawn_timer: (p.respawn_timer - 1) as u32, ..p })
    } else {
        let at = respawn_position(w, idx);
        w.with_player(idx, respawned(p, at)).cue(
            Cue::Spawn { player: idx as u32, x: at.0 as i64, y: at.1 as i64 },
        )
    }
}

fn tick_respawn(sim: &mut Simulation, idx: usize)
    requires
        old(sim).wf(),
        idx < MAX_PLAYERS,
    ensures
        final(sim)@ == respawn_ticked(old(sim)@, idx as int),
        final(sim).wf(),
{
    let mut p = sim.players[idx];
    assert(p.wf());
    if p.respawn_timer > 0 {
        p.respawn_timer = p.respawn_timer - 1;
        sim.players[idx] = p;
        assert(sim@.players =~= old(sim)@.players.update(idx as int, p));
    } else {
        let (sx, sy) = choose_safe_respawn_position(sim, idx);
        p.dead = false;
        p.ammo = MAX_AMMO;
        p.melee_timer = 0;
        p.melee_windup = 0;
        p.spawn_flash = SPAWN_FLASH_DURATION;
        p.shoot_flash = 0;
        p.invuln_timer = SPAWN_INVULN_FRAMES;
        p.jump_buffer = 0;
        p.coyote_timer = 0;
        p.drop_timer = 0;
        p.ai_jump_hold = 0;
        p.x = sx;
        p.y = sy;
        p.vx = 0;
        p.vy = 0;
        sim.players[idx] = p;
        assert(sim@.players =~= old(sim)@.players.update(idx as int, p));
        sim.emit(Cue::Spawn { player: idx as u32, x: sx, y: sy });
    }
}

/// Horizontal speed that the input `x` adds in one tick.
pub open spec fn push_of(x: int, on_ground: bool) -> int {
    if on_ground {
        div_toward_zero(x * GROUND_ACCEL, UNIT as int)
    } else {
        div_toward_zero(x * AIR_ACCEL, UNIT as int)
    }
}

/// Horizontal speed after input and friction, held to the running speed.
pub open spec fn run_speed(vx: int, x: int, on_ground: bool) -> int {
    clamp_int(
        percent_of(
            vx + push_of(x, on_ground),
            if on_ground {
                FRICTION_PERCENT as int
            } else {
                AIR_FRICTION_PERCENT as int
            },
        ),
        -MOVE_SPEED as int,
        MOVE_SPEED as int,
    )
}

/// Whether the controls ask to drop through the floor: jump pressed on the
/// ground with the stick held down.
pub open spec fn wants_drop(p: Player, c: Controls) -> bool {
    p.on_ground && c.jump_pressed && c.y < DROP_THRESHOLD
}

/// The player at the start of its turn: invulnerability run down, running
/// speed and facing taken from the input, coyote time and jump buffer
/// brought up to date, and a drop through the floor started if asked for.
pub open spec fn readied(p: Player, c: Controls) -> Player {
    let q = Player {
        invuln_timer: run_down(p.invuln_timer),
        vx: run_speed(p.vx as int, c.x as int, p.on_ground) as i64,
        facing_right: if abs_int(c.x as int) > FACING_DEADZONE {
            c.x > 0
        } else {
            p.facing_right
        },
        coyote_timer: if p.on_ground {
            COYOTE_FRAMES
        } else {
            run_down(p.coyote_timer)
        },
        jump_buffer: if c.jump_pressed {
            JUMP_BUFFER_FRAMES
        } else {
            run_down(p.jump_buffer)
        },
        ..p
    };
    if wants_drop(p, c) {
        Player {
            drop_timer: DROP_THROUGH_FRAMES,
            jump_buffer: 0,
            on_ground: false,
            vy: DROP_SPEED,
            ..q
        }
    } else {
        q
    }
}

/// The world after player `idx` was readied.
pub open spec fn steered(w: World, idx: int, c: Controls) -> World {
    w.with_player(idx, readied(w.players[idx], c))
}

/// Whether a buffered jump succeeds: a jump was pressed within the buffer
/// window, the player is on the ground or within coyote time, and is not
/// dropping through the floor.
pub open spec fn can_jump(p: Player) -> bool {
    p.jump_buffer > 0 && (p.on_ground || p.coyote_timer > 0) && p.drop_timer == 0
}

/// The player taking off; the jump uses up buffer and coyote time.
pub open spec fn jumped(p: Player) -> Player {
    Player { vy: JUMP_FORCE, on_ground: false, coyote_timer: 0, jump_buffer: 0, ..p }
}

/// The world after the buffered jump of player `idx` was resolved.
pub open spec fn jump_resolved(w: World, idx: int) -> World {
    let p = w.players[idx];
    if can_jump(p) {
        w.with_player(idx, jumped(p)).cue(Cue::Jump { player: idx as u32, x: p.x })
    } else {
        w
    }
}

/// Whether a wall stands just left of the player.
pub open spec fn wall_on_left(platforms: Seq<Platform>, p: Player) -> bool {
    wall_at(platforms, p.x - WALL_PROBE, p.y as int, p.y + PLAYER_HEIGHT)
}

/// Whether a wall stands just right of the player.
pub open spec fn wall_on_right(platforms: Seq<Platform>, p: Player) -> bool {
    wall_at(platforms, p.x + PLAYER_WIDTH + WALL_PROBE, p.y as int, p.y + PLAYER_HEIGHT)
}

/// The player kicking off a wall, toward the right if `to_right`.
pub open spec fn kicked_off(p: Player, to_right: bool) -> Player {
    Player {
        vy: WALL_JUMP_FORCE,
        vx: if to_right {
            WALL_JUMP_KICK
        } else {
            (-WALL_JUMP_KICK) as i64
        },
        facing_right: to_right,
        ..p
    }
}

/// The world after the wall jump of player `idx` was resolved: a jump
/// pressed in the air beside a wall kicks the player away from it, a wall
/// on the left taking precedence.  The kick replaces the launch speed of a
/// jump taken in the same tick, and a platform that the player's feet
/// touch counts as a wall on both sides.
pub open spec fn wall_jump_resolved(w: World, idx: int, c: Controls) -> World {
    let p = w.players[idx];
    if c.jump_pressed && !p.on_ground && p.drop_timer == 0 {
        if wall_on_left(w.platforms, p) {
            w.with_player(idx, kicked_off(p, true)).cue(Cue::Jump { player: idx as u32, x: p.x })
        } else if wall_on_right(w.platforms, p) {
            w.with_player(idx, kicked_off(p, false)).cue(Cue::Jump { player: idx as u32, x: p.x })
        } else {
            w
        }
    } else {
        w
    }
}

/// The world with the wall slide of player `idx` marked: a player falling
/// beside a wall raises a cue at the side of the wall.
pub open spec fn wall_slide_marked(w: World, idx: int) -> World {
    let p = w.players[idx];
    if !p.on_ground && p.vy < DROP_SPEED {
        if wall_on_left(w.platforms, p) {
            w.cue(
                Cue::WallSlide {
                    player: idx as u32,
                    x: p.x,
                    y: (p.y + HALF_PLAYER_HEIGHT) as i64,
                    wall_on_right: false,
                },
            )
        } else if wall_on_right(w.platforms, p) {
            w.cue(
                Cue::WallSlide {
                    player: idx as u32,
                    x: (p.x + PLAYER_WIDTH) as i64,
                    y: (p.y + HALF_PLAYER_HEIGHT) as i64,
                    wall_on_right: true,
                },
            )
        } else {
            w
        }
    } else {
        w
    }
}

/// Vertical speed after one tick of falling: a rising player that let go
/// of jump keeps half its speed; gravity pulls always, and harder on a
/// player in the air that holds the stick down; the fall is no faster than
/// the speed limit.
pub open spec fn fall_speed(p: Player, c: Controls) -> int {
    let cut = if !c.jump_held && p.vy > 0 {
        half_of(p.vy as int)
    } else {
        p.vy as int
    };
    let pulled = if !p.on_ground && c.y < FAST_FALL_THRESHOLD {
        cut - GRAVITY - FAST_FALL_GRAVITY
    } else {
        cut - GRAVITY
    };
    if pulled < -SPEED_LIMIT {
        -SPEED_LIMIT as int
    } else {
        pulled
    }
}

/// The world after gravity acted on player `idx`.
pub open spec fn fall_resolved(w: World, idx: int, c: Controls) -> World {
    let p = w.players[idx];
    w.with_player(idx, Player { vy: fall_speed(p, c) as i64, ..p })
}

/// Whether the player may shoot: the trigger was pulled, there is ammo,
/// and neither melee state runs.
pub open spec fn can_shoot(p: Player, c: Controls) -> bool {
    c.shoot_pressed && p.ammo > 0 && p.melee_timer == 0 && p.melee_windup == 0
}

/// The world after the shot of player `idx` was resolved.  A shot costs
/// ammo even where the bullet pool is full.
pub open spec fn shot_resolved(w: World, idx: int, c: Controls) -> World {
    let p = w.players[idx];
    if can_shoot(p, c) {
        bullet_spawned(w, idx, c.x as int, c.y as int).with_player(
            idx,
            Player { ammo: (p.ammo - 1) as u32, shoot_flash: SHOOT_FLASH_DURATION, ..p },
        ).cue(Cue::Shoot { player: idx as u32, x: p.x })
    } else {
        w
    }
}

/// The player after its melee state advanced by one tick.  A press with no
/// melee state running starts the windup; the tick on which the windup
/// runs out starts the active swing and dashes the player forward; the
/// active swing and the presentation timers run down.
pub open spec fn melee_ticked(p: Player, c: Controls) -> Player {
    let windup_before = if c.melee_pressed && p.melee_timer == 0 && p.melee_windup == 0 {
        MELEE_WINDUP_DURATION
    } else {
        p.melee_windup
    };
    let swings = windup_before == 1;
    let timer_before = if swings {
        MELEE_DURATION
    } else {
        p.melee_timer
    };
    Player {
        melee_windup: run_down(windup_before),
        melee_timer: run_down(timer_before),
        vx: if swings {
            if p.facing_right {
                (p.vx + MELEE_DASH) as i64
            } else {
                (p.vx - MELEE_DASH) as i64
            }
        } else {
            p.vx
        },
        spawn_flash: run_down(p.spawn_flash),
        shoot_flash: run_down(p.shoot_flash),
        ..p
    }
}

/// The world after the melee state of player `idx` advanced.
pub open spec fn melee_advanced(w: World, idx: int, c: Controls) -> World {
    w.with_player(idx, melee_ticked(w.players[idx], c))
}

fn steer(sim: &mut Simulation, idx: usize, c: &Controls)
    requires
        old(sim).wf(),
        idx < MAX_PLAYERS,
        c.wf(),
    ensures
        final(sim)@ == steered(old(sim)@, idx as int, *c),
        final(sim).wf(),
{
    let mut p = sim.players[idx];
    assert(p.wf());
    let drop = p.on_ground && c.jump_pressed && c.y < DROP_THRESHOLD;
    p.invuln_timer = p.invuln_timer.saturating_sub(1);
    let push = if p.on_ground {
        div_round(c.x * GROUND_ACCEL, UNIT)
    } else {
        div_round(c.x * AIR_ACCEL, UNIT)
    };
    let slowed = percent(
        p.vx + push,
        if p.on_ground {
            FRICTION_PERCENT
        } else {
            AIR_FRICTION_PERCENT
        },
    );
    p.vx = clamp(slowed, -MOVE_SPEED, MOVE_SPEED);
    if abs(c.x) > FACING_DEADZONE {
        p.facing_right = c.x > 0;
    }
    if p.on_ground {
        p.coyote_timer = COYOTE_FRAMES;
    } else {
        p.coyote_timer = p.coyote_timer.saturating_sub(1);
    }
    if c.jump_pressed {
        p.jump_buffer = JUMP_BUFFER_FRAMES;
    } else {
        p.jump_buffer = p.jump_buffer.saturating_sub(1);
    }
    if drop {
        p.drop_timer = DROP_THROUGH_FRAMES;
        p.jump_buffer = 0;
        p.on_ground = false;
        p.vy = DROP_SPEED;
    }
    sim.players[idx] = p;
    assert(sim@.players =~= old(sim)@.players.update(idx as int, p));
}

fn resolve_jump(sim: &mut Simulation, idx: usize)
    requires
        old(sim).wf(),
        idx < MAX_PLAYERS,
    ensures
        final(sim)@ == jump_resolved(old(sim)@, idx as int),
        final(sim).wf(),
{
    let mut p = sim.players[idx];
    assert(p.wf());
    if p.jump_buffer > 0 && (p.on_ground || p.coyote_timer > 0) && p.drop_timer == 0 {
        let at = p.x;
        p.vy = JUMP_FORCE;
        p.on_ground = false;
        p.coyote_timer = 0;
        p.jump_buffer = 0;
        sim.players[idx] = p;
        assert(sim@.players =~= old(sim)@.players.update(idx as int, p));
        sim.emit(Cue::Jump { player: idx as u32, x: at });
    }
}

fn feel_wall_left(sim: &Simulation, idx: usize) -> (wall: bool)
    requires
        sim.wf(),
        idx < MAX_PLAYERS,
    ensures
        wall == wall_on_left(sim@.platforms, sim@.players[idx as int]),
{
    let p = sim.players[idx];
    assert(p.wf());
    check_wall_collision(sim, p.x - WALL_PROBE, p.y, p.y + PLAYER_HEIGHT)
}

fn feel_wall_right(sim: &Simulation, idx: usize) -> (wall: bool)
    requires
        sim.wf(),
        idx < MAX_PLAYERS,
    ensures
        wall == wall_on_right(sim@.platforms, sim@.players[idx as int]),
{
    let p = sim.players[idx];
    assert(p.wf());
    check_wall_collision(sim, p.x + PLAYER_WIDTH + WALL_PROBE, p.y, p.y + PLAYER_HEIGHT)
}

fn kick_off(sim: &mut Simulation, idx: usize, to_right: bool)
    requires
        old(sim).wf(),
        idx < MAX_PLAYERS,
    ensures
        final(sim)@ == old(sim)@.with_player(
            idx as int,
            kicked_off(old(sim)@.players[idx as int], to_right),
        ).cue(Cue::Jump { player: idx as u32, x: old(sim)@.players[idx as int].x }),
        final(sim).wf(),
{
    let mut p = sim.players[idx];
    assert(p.wf());
    p.vy = WALL_JUMP_FORCE;
    p.vx = if to_right {
        WALL_JUMP_KICK
    } else {
        -WALL_JUMP_KICK
    };
    p.facing_right = to_right;
    sim.players[idx] = p;
    assert(sim@.players =~= old(sim)@.players.update(idx as int, p));
    sim.emit(Cue::Jump { player: idx as u32, x: p.x });
}

fn resolve_wall_jump(sim: &mut Simulation, idx: usize, c: &Controls)
    requires
        old(sim).wf(),
        idx < MAX_PLAYERS,
    ensures
        final(sim)@ == wall_jump_resolved(old(sim)@, idx as int, *c),
        final(sim).wf(),
{
    let p = sim.players[idx];
    if c.jump_pressed && !p.on_ground && p.drop_timer == 0 {
        if feel_wall_left(sim, idx) {
            kick_off(sim, idx, true);
        } else if feel_wall_right(sim, idx) {
            kick_off(sim, idx, false);
        }
    }
}

fn mark_wall_slide(sim: &mut Simulation, idx: usize)
    requires
        old(sim).wf(),
        idx < MAX_PLAYERS,
    ensures
        final(sim)@ == wall_slide_marked(old(sim)@, idx as int),
        final(sim).wf(),
{
    let p = sim.players[idx];
    assert(p.wf());
    if !p.on_ground && p.vy < DROP_SPEED {
        if feel_wall_left(sim, idx) {
            sim.emit(
                Cue::WallSlide {
                    player: idx as u32,
                    x: p.x,
                    y: p.y + HALF_PLAYER_HEIGHT,
                    wall_on_right: false,
                },
            );
        } else if feel_wall_right(sim, idx) {
            sim.emit(
                Cue::WallSlide {
                    player: idx as u32,
                    x: p.x + PLAYER_WIDTH,
                    y: p.y + HALF_PLAYER_HEIGHT,
                    wall_on_right: true,
                },
            );
        }
    }
}

fn resolve_fall(sim: &mut Simulation, idx: usize, c: &Controls)
    requires
        old(sim).wf(),
        idx < MAX_PLAYERS,
    ensures
        final(sim)@ == fall_resolved(old(sim)@, idx as int, *c),
        final(sim).wf(),
{
    let mut p = sim.players[idx];
    assert(p.wf());
    let mut vy = p.vy;
    if !c.jump_held && vy > 0 {
        vy = div_round(vy, 2);
    }
    vy = vy - GRAVITY;
    if !p.on_ground && c.y < FAST_FALL_THRESHOLD {
        vy = vy - FAST_FALL_GRAVITY;
    }
    if vy < -SPEED_LIMIT {
        vy = -SPEED_LIMIT;
    }
    p.vy = vy;
    sim.players[idx] = p;
    assert(sim@.players =~= old(sim)@.players.update(idx as int, p));
}

fn resolve_shot(sim: &mut Simulation, idx: usize, c: &Controls)
    requires
        old(sim).wf(),
        idx < MAX_PLAYERS,
    ensures
        final(sim)@ == shot_resolved(old(sim)@, idx as int, *c),
        final(sim).wf(),
{
    let mut p = sim.players[idx];
    assert(p.wf());
    if c.shoot_pressed && p.ammo > 0 && p.melee_timer == 0 && p.melee_windup == 0 {
        spawn_bullet(sim, idx, c.x, c.y);
        let ghost w1 = sim@;
        p.ammo = p.ammo - 1;
        p.shoot_flash = SHOOT_FLASH_DURATION;
        sim.players[idx] = p;
        assert(sim@.players =~= w1.players.update(idx as int, p));
        sim.emit(Cue::Shoot { player: idx as u32, x: p.x });
    }
}

fn advance_melee(sim: &mut Simulation, idx: usize, c: &Controls)
    requires
        old(sim).wf(),
        idx < MAX_PLAYERS,
        -MOVE_SPEED <= old(sim)@.players[idx as int].vx <= MOVE_SPEED,
    ensures
        final(sim)@ == melee_advanced(old(sim)@, idx as int, *c),
        final(sim).wf(),
{
    let mut p = sim.players[idx];
    assert(p.wf());
    if c.melee_pressed && p.melee_timer == 0 && p.melee_windup == 0 {
        p.melee_windup = MELEE_WINDUP_DURATION;
    }
    if p.melee_windup > 0 {
        p.melee_windup = p.melee_windup - 1;
        if p.melee_windup == 0 {
            p.melee_timer = MELEE_DURATION;
            if p.facing_right {
                p.vx = p.vx + MELEE_DASH;
            } else {
                p.vx = p.vx - MELEE_DASH;
            }
        }
    }
    if p.melee_timer > 0 {
        p.melee_timer = p.melee_timer - 1;
    }
    p.spawn_flash = p.spawn_flash.saturating_sub(1);
    p.shoot_flash = p.shoot_flash.saturating_sub(1);
    sim.players[idx] = p;
    assert(sim@.players =~= old(sim)@.players.update(idx as int, p));
}

/// Where a moving player ends up standing: the horizontal position it is
/// heading for, its height and vertical speed, and whether it has landed.
#[derive(Clone, Copy, PartialEq, Eq, Structural, Debug)]
pub struct Footing {
    pub x: i64,
    pub y: i64,
    pub vy: i64,
    pub on_ground: bool,
}

/// Whether a player heading for `f.x`, `new_y` lands on `pl`: its box there
/// overlaps the platform, it is not rising, and it comes from no lower than
/// the landing tolerance below the platform's top.
pub open spec fn lands_on(f: Footing, pl: Platform, new_y: int) -> bool {
    &&& pl.active
    &&& boxes_overlap(
        (f.x as int, new_y, PLAYER_WIDTH as int, PLAYER_HEIGHT as int),
        (pl.x as int, pl.y as int, pl.width as int, pl.height as int),
    )
    &&& f.vy <= 0
    &&& f.y >= pl.y + pl.height - LANDING_TOLERANCE
}

/// The footing after platform `pl` was considered: a player that lands on
/// it stands on its top and is carried along by a moving platform.
pub open spec fn stepped_onto(f: Footing, pl: Platform, new_y: int) -> Footing {
    if lands_on(f, pl, new_y) {
        Footing {
            x: if pl.moving {
                (f.x + pl.move_speed) as i64
            } else {
                f.x
            },
            y: (pl.y + pl.height) as i64,
            vy: 0,
            on_ground: true,
        }
    } else {
        f
    }
}

/// The footing after the platforms from slot `from` on were considered in slot order.
pub open spec fn footing_after(platforms: Seq<Platform>, f: Footing, new_y: int, from: int) -> Footing
    decreases platforms.len() - from,
{
    if from < 0 || from >= platforms.len() {
        f
    } else {
        footing_after(platforms, stepped_onto(f, platforms[from], new_y), new_y, from + 1)
    }
}

/// The footing that player `p` finds this tick.  A player dropping through
/// the floor finds none.
pub open spec fn footing_of(p: Player, platforms: Seq<Platform>) -> Footing {
    let start = Footing { x: (p.x + p.vx) as i64, y: p.y, vy: p.vy, on_ground: false };
    if p.drop_timer > 0 {
        start
    } else {
        footing_after(platforms, start, p.y + p.vy, 0)
    }
}

/// Whether the arena bounds stop the player this tick.
pub open spec fn hits_wall(w: World, idx: int) -> bool {
    let f = footing_of(w.players[idx], w.platforms);
    f.x < w.state.arena_left || f.x > w.state.arena_right - PLAYER_WIDTH
}

/// The player after it moved by its velocity: landed where it found
/// footing, else carried on by its vertical speed (no farther than the
/// edge of the world), and held between the arena bounds.
pub open spec fn moved_player(p: Player, platforms: Seq<Platform>, left: int, right: int) -> Player {
    let f = footing_of(p, platforms);
    Player {
        x: clamp_int(f.x as int, left, right - PLAYER_WIDTH) as i64,
        y: if !f.on_ground || f.vy > 0 {
            clamp_int(p.y + p.vy, -WORLD_LIMIT as int, WORLD_LIMIT as int) as i64
        } else {
            f.y
        },
        vy: f.vy,
        on_ground: f.on_ground,
        drop_timer: run_down(p.drop_timer),
        ..p
    }
}

/// The world after player `idx` moved; a landing raises a cue at the
/// player's feet.
pub open spec fn moved(w: World, idx: int) -> World {
    let p = w.players[idx];
    let q = moved_player(p, w.platforms, w.state.arena_left as int, w.state.arena_right as int);
    let w1 = w.with_player(idx, q);
    if !p.on_ground && q.on_ground {
        w1.cue(Cue::Land { player: idx as u32, x: (p.x + HALF_PLAYER_WIDTH) as i64, y: q.y })
    } else {
        w1
    }
}

/// The world after the fate of player `idx` was settled: an overtime wall
/// kills the player it stops, to the credit of the nearest living
/// opponent; a player below `DEATH_Y` has fallen to its death.
pub open spec fn fate_resolved(w: World, idx: int, hit_wall: bool) -> World {
    if w.state.overtime && hit_wall {
        kill_resolved(w, idx, nearest_rival(w, idx))
    } else if w.players[idx].y < DEATH_Y {
        kill_resolved(w, idx, idx)
    } else {
        w
    }
}

/// Bounds that a footing keeps while the first `seen` platforms are considered.
pub open spec fn footing_in_reach(f: Footing, seen: int) -> bool {
    &&& -WORLD_LIMIT - SPEED_LIMIT * (seen + 1) <= f.x <= WORLD_LIMIT + SPEED_LIMIT * (seen + 1)
    &&& in_world(f.y as int)
    &&& in_speed(f.vy as int)
}

fn step_onto(f: Footing, pl: &Platform, new_y: i64, Ghost(seen): Ghost<int>) -> (g: Footing)
    requires
        pl.wf(),
        0 <= seen < MAX_PLATFORMS,
        footing_in_reach(f, seen),
        -WORLD_LIMIT - SPEED_LIMIT <= new_y <= WORLD_LIMIT + SPEED_LIMIT,
    ensures
        g == stepped_onto(f, *pl, new_y as int),
        footing_in_reach(g, seen + 1),
{
    if pl.active && aabb_overlap(
        (f.x, new_y, PLAYER_WIDTH, PLAYER_HEIGHT),
        (pl.x, pl.y, pl.width, pl.height),
    ) && f.vy <= 0 && f.y >= pl.y + pl.height - LANDING_TOLERANCE {
        Footing {
            x: if pl.moving {
                f.x + pl.move_speed
            } else {
                f.x
            },
            y: pl.y + pl.height,
            vy: 0,
            on_ground: true,
        }
    } else {
        f
    }
}

fn find_footing(sim: &Simulation, idx: usize) -> (f: Footing)
    requires
        sim.wf(),
        idx < MAX_PLAYERS,
    ensures
        f == footing_of(sim@.players[idx as int], sim@.platforms),
        footing_in_reach(f, MAX_PLATFORMS as int),
{
    let p = sim.players[idx];
    assert(p.wf());
    let new_y = p.y + p.vy;
    let mut f = Footing { x: p.x + p.vx, y: p.y, vy: p.vy, on_ground: false };
    if p.drop_timer > 0 {
        return f;
    }
    let mut j: usize = 0;
    while j < MAX_PLATFORMS
        invariant
            j <= MAX_PLATFORMS,
            sim.wf(),
            footing_in_reach(f, j as int),
            -WORLD_LIMIT - SPEED_LIMIT <= new_y <= WORLD_LIMIT + SPEED_LIMIT,
            footing_of(sim@.players[idx as int], sim@.platforms) == footing_after(
                sim@.platforms,
                f,
                new_y as int,
                j as int,
            ),
        decreases MAX_PLATFORMS - j,
    {
        let pl = sim.platforms[j];
        assert(pl.wf());
        f = step_onto(f, &pl, new_y, Ghost(j as int));
        j = j + 1;
    }
    f
}

fn move_player(sim: &mut Simulation, idx: usize) -> (hit_wall: bool)
    requires
        old(sim).wf(),
        idx < MAX_PLAYERS,
    ensures
        final(sim)@ == moved(old(sim)@, idx as int),
        hit_wall == hits_wall(old(sim)@, idx as int),
        final(sim).wf(),
{
    let mut p = sim.players[idx];
    assert(p.wf());
    let f = find_footing(sim, idx);
    let was_grounded = p.on_ground;
    let feet_x = p.x + HALF_PLAYER_WIDTH;
    if !f.on_ground || f.vy > 0 {
        p.y = to_world(p.y + p.vy);
    } else {
        p.y = f.y;
    }
    p.vy = f.vy;
    p.on_ground = f.on_ground;
    p.drop_timer = p.drop_timer.saturating_sub(1);
    let left = sim.state.arena_left;
    let right = sim.state.arena_right - PLAYER_WIDTH;
    let hit_wall = f.x < left || f.x > right;
    p.x = clamp(f.x, left, right);
    sim.players[idx] = p;
    assert(sim@.players =~= old(sim)@.players.update(idx as int, p));
    if !was_grounded && p.on_ground {
        sim.emit(Cue::Land { player: idx as u32, x: feet_x, y: p.y });
    }
    hit_wall
}

fn settle_fate(sim: &mut Simulation, idx: usize, hit_wall: bool)
    requires
        old(sim).wf(),
        idx < MAX_PLAYERS,
    ensures
        final(sim)@ == fate_resolved(old(sim)@, idx as int, hit_wall),
        final(sim).wf(),
{
    if sim.state.overtime && hit_wall {
        let killer = overtime_killer_for(sim, idx);
        kill_player(sim, idx, killer);
    } else if sim.players[idx].y < DEATH_Y {
        kill_player(sim, idx, idx as u32);
    }
}

/// The world after the living player `idx` did all that comes before it
/// moves: steering, jumps, gravity, shot and melee.
pub open spec fn before_move(w: World, idx: int, c: Controls) -> World {
    let w1 = steered(w, idx, c);
    let w2 = jump_resolved(w1, idx);
    let w3 = wall_jump_resolved(w2, idx, c);
    let w4 = wall_slide_marked(w3, idx);
    let w5 = fall_resolved(w4, idx, c);
    let w6 = shot_resolved(w5, idx, c);
    melee_advanced(w6, idx, c)
}

/// The world after one tick of the living player `idx` under the controls `c`.
pub open spec fn player_acted(w: World, idx: int, c: Controls) -> World {
    let ready = before_move(w, idx, c);
    fate_resolved(moved(ready, idx), idx, hits_wall(ready, idx))
}

fn act(sim: &mut Simulation, idx: usize, c: &Controls)
    requires
        old(sim).wf(),
        idx < MAX_PLAYERS,
        c.wf(),
    ensures
        final(sim)@ == player_acted(old(sim)@, idx as int, *c),
        final(sim).wf(),
{
    steer(sim, idx, c);
    resolve_jump(sim, idx);
    resolve_wall_jump(sim, idx, c);
    mark_wall_slide(sim, idx);
    resolve_fall(sim, idx, c);
    resolve_shot(sim, idx, c);
    advance_melee(sim, idx, c);
    let hit_wall = move_player(sim, idx);
    settle_fate(sim, idx, hit_wall);
}

/// The controls of player `idx` this tick: a bot decides for itself, a
/// human speaks through `pad`.
pub open spec fn controls_of(w: World, idx: int, pad: Pad) -> Controls {
    if w.players[idx].is_bot {
        bot_controls(w, idx)
    } else {
        human_controls(pad)
    }
}

/// The world after the controls of player `idx` were read: a bot has thought.
pub open spec fn controls_read(w: World, idx: int) -> World {
    if w.players[idx].is_bot {
        bot_thought(w, idx)
    } else {
        w
    }
}

/// Reads the controls of player `idx`.
pub fn read_controls(sim: &mut Simulation, idx: usize, pad: &Pad) -> (c: Controls)
    requires
        old(sim).wf(),
        idx < MAX_PLAYERS,
    ensures
        c == controls_of(old(sim)@, idx as int, *pad),
        final(sim)@ == controls_read(old(sim)@, idx as int),
        final(sim).wf(),
        c.wf(),
{
    if sim.players[idx].is_bot {
        ai_controls(sim, idx)
    } else {
        read_human_controls(pad)
    }
}

/// The world after one tick of player `idx`.  A slot out of the match
/// rests; a dead player waits for its respawn; a living player reads its
/// controls and acts.
pub open spec fn player_updated(w: World, idx: int, pad: Pad) -> World {
    let p = w.players[idx];
    if !p.active {
        w
    } else if p.dead {
        respawn_ticked(w, idx)
    } else {
        player_acted(controls_read(w, idx), idx, controls_of(w, idx, pad))
    }
}

/// Advances player `idx` by one tick.
pub fn update_player(sim: &mut Simulation, idx: usize, pad: &Pad)
    requires
        old(sim).wf(),
        idx < MAX_PLAYERS,
    ensures
        final(sim)@ == player_updated(old(sim)@, idx as int, *pad),
        final(sim).wf(),
{
    let p = sim.players[idx];
    if !p.active {
        return ;
    }
    if p.dead {
        tick_respawn(sim, idx);
        return ;
    }
    let c = read_controls(sim, idx, pad);
    act(sim, idx, &c);
}

} // verus!
