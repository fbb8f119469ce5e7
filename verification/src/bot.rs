//! The bot controller: a deterministic policy that turns what a bot sees
//! into the same controls a human gives with a pad.

use vstd::prelude::*;
use crate::combat::{Bullet, MAX_BULLETS};
use crate::fixed::{abs_int, dist_sq, dist_sq_int, UNIT};
use crate::game_state::{run_down, GameConfig};
use crate::player::{
    abs, find_nearest_rival, nearest_rival, Controls, Player, HALF_PLAYER_HEIGHT,
    HALF_PLAYER_WIDTH, MAX_PLAYERS,
};
use crate::world::{Simulation, World};

verus! {

/// Horizontal offset beyond which a bot aims sideways.
pub const AIM_DEADZONE_X: i64 = 25_000;

/// Vertical offset beyond which a bot aims up or down.
pub const AIM_DEADZONE_Y: i64 = 35_000;

/// Horizontal offset beyond which a bot walks toward its target.
pub const APPROACH_DEADZONE: i64 = 35_000;

/// Ticks a bot stays in one movement mode.
pub const MODE_TICKS: u32 = 45;

/// Height difference above which a bot jumps toward its target.
pub const JUMP_HEIGHT: i64 = 100_000;

/// Horizontal offset within which a bot jumps toward a higher target.
pub const JUMP_REACH: i64 = 500_000;

/// Ticks a bot holds jump.
pub const JUMP_HOLD_TICKS: u32 = 8;

/// Square of the distance within which a bullet makes a bot parry
/// (1.15 times the melee range).
pub const PARRY_RANGE_SQ: i64 = 42_849_000_000;

/// Horizontal offset within which a bot swings at its target.
pub const STRIKE_REACH_X: i64 = 170_000;

/// Vertical offset within which a bot swings at its target.
pub const STRIKE_REACH_Y: i64 = 120_000;

/// Horizontal offset within which a bot shoots at its target.
pub const SHOT_REACH_X: i64 = 1_000_000;

/// Vertical offset within which a bot shoots at its target.
pub const SHOT_REACH_Y: i64 = 600_000;

/// The difficulty in force: 0 easy, 1 normal, 2 hard.
pub open spec fn difficulty_of(c: GameConfig) -> int {
    if c.bot_difficulty > 2 {
        2
    } else {
        c.bot_difficulty as int
    }
}

/// Ticks a bot waits between shots.
pub open spec fn shoot_cooldown_for(difficulty: int) -> u32 {
    if difficulty == 0 {
        40
    } else if difficulty == 1 {
        25
    } else {
        15
    }
}

/// Ticks a bot waits between swings.
pub open spec fn melee_cooldown_for(difficulty: int) -> u32 {
    if difficulty == 0 {
        30
    } else if difficulty == 1 {
        20
    } else {
        12
    }
}

/// Horizontal distance inside which a bot in a strafing mode backs away.
pub open spec fn preferred_distance(difficulty: int) -> int {
    if difficulty == 0 {
        280_000
    } else if difficulty == 1 {
        230_000
    } else {
        180_000
    }
}

/// Whether a bot of this difficulty takes the shot at a target offset by
/// `dx`, `dy`: an easy bot wants the target more than 1.5 world units off
/// on some axis, a normal bot more than 0.9, a hard bot always shoots.
pub open spec fn aim_is_good(difficulty: int, dx: int, dy: int) -> bool {
    if difficulty == 0 {
        abs_int(dx) > 150_000 || abs_int(dy) > 150_000
    } else if difficulty == 1 {
        abs_int(dx) > 90_000 || abs_int(dy) > 90_000
    } else {
        true
    }
}

/// The movement mode of a bot at `tick`: it changes every `MODE_TICKS`
/// ticks and starts where the bot's seed puts it.
pub open spec fn movement_mode(tick: u32, seed: u32) -> int {
    (((tick / MODE_TICKS) as u32).wrapping_add(seed) % 4) as int
}

/// Full deflection toward `d` where its magnitude exceeds `deadzone`, else none.
pub open spec fn axis_toward(d: int, deadzone: int) -> int {
    if abs_int(d) <= deadzone {
        0
    } else if d > 0 {
        UNIT as int
    } else {
        -UNIT as int
    }
}

/// Whether a bullet that is not the bot's own flies within parry range of `cx`, `cy`.
pub open spec fn bullet_threatens(bullets: Seq<Bullet>, me: int, cx: int, cy: int) -> bool {
    exists|j: int|
        0 <= j < bullets.len() && threatens(#[trigger] bullets[j], me, cx, cy)
}

/// Whether `b` is in flight, not owned by `me`, and within parry range of `cx`, `cy`.
pub open spec fn threatens(b: Bullet, me: int, cx: int, cy: int) -> bool {
    b.active && b.owner != me && dist_sq_int(cx, cy, b.x as int, b.y as int) < PARRY_RANGE_SQ
}

/// The bot with its cooldowns run down by one tick.
pub open spec fn cooled(p: Player) -> Player {
    Player {
        ai_shoot_cooldown: run_down(p.ai_shoot_cooldown),
        ai_melee_cooldown: run_down(p.ai_melee_cooldown),
        ai_jump_hold: run_down(p.ai_jump_hold),
        ..p
    }
}

/// What a bot without a target does: nothing, but for a jump it still holds.
pub open spec fn idle_controls(p: Player) -> Controls {
    Controls {
        x: 0,
        y: 0,
        jump_pressed: false,
        jump_held: p.ai_jump_hold > 0,
        shoot_pressed: false,
        melee_pressed: false,
    }
}

/// Whether the bot `p` jumps toward a target offset by `dx`, `dy`.
pub open spec fn bot_jumps(p: Player, dx: int, dy: int) -> bool {
    p.on_ground && dy > JUMP_HEIGHT && abs_int(dx) < JUMP_REACH
}

/// Whether the bot `p` swings: to parry a threatening bullet, or at a target in reach.
pub open spec fn bot_swings(p: Player, dx: int, dy: int, threatened: bool) -> bool {
    p.ai_melee_cooldown == 0 && (threatened || (abs_int(dx) < STRIKE_REACH_X && abs_int(dy)
        < STRIKE_REACH_Y))
}

/// Whether the bot `p` shoots at a target offset by `dx`, `dy`.
pub open spec fn bot_shoots(p: Player, dx: int, dy: int, threatened: bool, difficulty: int) -> bool {
    &&& p.ai_shoot_cooldown == 0
    &&& p.ammo > 0
    &&& p.melee_timer == 0
    &&& p.melee_windup == 0
    &&& abs_int(dx) < SHOT_REACH_X
    &&& abs_int(dy) < SHOT_REACH_Y
    &&& !bot_swings(p, dx, dy, threatened)
    &&& aim_is_good(difficulty, dx, dy)
}

/// The horizontal intent of the bot `p`: toward the target where it is off
/// to a side; else away from it in a strafing mode inside the preferred
/// distance.
pub open spec fn bot_heading(p: Player, dx: int, difficulty: int, tick: u32) -> int {
    let aim = axis_toward(dx, AIM_DEADZONE_X as int);
    let mode = movement_mode(tick, p.ai_seed);
    let away = abs_int(dx) < preferred_distance(difficulty) && (mode == 1 || mode == 2);
    if aim != 0 {
        aim
    } else if away {
        if dx > 0 {
            -UNIT as int
        } else {
            UNIT as int
        }
    } else {
        axis_toward(dx, APPROACH_DEADZONE as int)
    }
}

/// The controls of the bot `p`, cooldowns already run down, toward a
/// target offset by `dx`, `dy`.
pub open spec fn bot_controls_toward(
    p: Player,
    dx: int,
    dy: int,
    threatened: bool,
    difficulty: int,
    tick: u32,
) -> Controls {
    Controls {
        x: bot_heading(p, dx, difficulty, tick) as i64,
        y: axis_toward(dy, AIM_DEADZONE_Y as int) as i64,
        jump_pressed: bot_jumps(p, dx, dy),
        jump_held: bot_jumps(p, dx, dy) || p.ai_jump_hold > 0,
        shoot_pressed: bot_shoots(p, dx, dy, threatened, difficulty),
        melee_pressed: bot_swings(p, dx, dy, threatened),
    }
}

/// The bot `p`, cooldowns already run down, after it decided what to do
/// about a target offset by `dx`, `dy`: each action taken restarts its cooldown.
pub open spec fn bot_after_plan(
    p: Player,
    dx: int,
    dy: int,
    threatened: bool,
    difficulty: int,
) -> Player {
    Player {
        ai_jump_hold: if bot_jumps(p, dx, dy) {
            JUMP_HOLD_TICKS
        } else {
            p.ai_jump_hold
        },
        ai_melee_cooldown: if bot_swings(p, dx, dy, threatened) {
            melee_cooldown_for(difficulty)
        } else {
            p.ai_melee_cooldown
        },
        ai_shoot_cooldown: if bot_shoots(p, dx, dy, threatened, difficulty) {
            shoot_cooldown_for(difficulty)
        } else {
            p.ai_shoot_cooldown
        },
        ..p
    }
}

/// Horizontal offset from the bot `me` to its target.
pub open spec fn target_dx(w: World, me: int) -> int {
    w.players[nearest_rival(w, me)].center_x() - w.players[me].center_x()
}

/// Vertical offset from the bot `me` to its target.
pub open spec fn target_dy(w: World, me: int) -> int {
    w.players[nearest_rival(w, me)].center_y() - w.players[me].center_y()
}

/// Whether a bullet threatens the bot `me`.
pub open spec fn bot_threatened(w: World, me: int) -> bool {
    bullet_threatens(w.bullets, me, w.players[me].center_x(), w.players[me].center_y())
}

/// The controls that the bot `me` gives this tick.  Its target is the
/// nearest living opponent; without one it stands idle.
pub open spec fn bot_controls(w: World, me: int) -> Controls {
    let p = cooled(w.players[me]);
    if nearest_rival(w, me) == me {
        idle_controls(p)
    } else {
        bot_controls_toward(
            p,
            target_dx(w, me),
            target_dy(w, me),
            bot_threatened(w, me),
            difficulty_of(w.config),
            w.tick,
        )
    }
}

/// The record of the bot `me` after it thought: its cooldowns ran down,
/// and each action it takes restarted its cooldown.
pub open spec fn bot_after(w: World, me: int) -> Player {
    let p = cooled(w.players[me]);
    if nearest_rival(w, me) == me {
        p
    } else {
        bot_after_plan(
            p,
            target_dx(w, me),
            target_dy(w, me),
            bot_threatened(w, me),
            difficulty_of(w.config),
        )
    }
}

/// The world after the bot `me` thought.
pub open spec fn bot_thought(w: World, me: int) -> World {
    w.with_player(me, bot_after(w, me))
}

fn toward(d: i64, deadzone: i64) -> (r: i64)
    requires
        d > i64::MIN,
    ensures
        r == axis_toward(d as int, deadzone as int),
        -UNIT <= r <= UNIT,
{
    if abs(d) > deadzone {
        if d > 0 {
            UNIT
        } else {
            -UNIT
        }
    } else {
        0
    }
}

fn aim_ok(difficulty: u32, dx: i64, dy: i64) -> (ok: bool)
    requires
        dx > i64::MIN,
        dy > i64::MIN,
    ensures
        ok == aim_is_good(difficulty as int, dx as int, dy as int),
{
    if difficulty == 0 {
        abs(dx) > 150_000 || abs(dy) > 150_000
    } else if difficulty == 1 {
        abs(dx) > 90_000 || abs(dy) > 90_000
    } else {
        true
    }
}

fn heading(p: &Player, dx: i64, difficulty: u32, tick: u32) -> (r: i64)
    requires
        dx > i64::MIN,
        difficulty <= 2,
    ensures
        r == bot_heading(*p, dx as int, difficulty as int, tick),
        -UNIT <= r <= UNIT,
{
    let aim = toward(dx, AIM_DEADZONE_X);
    let mode = (tick / MODE_TICKS).wrapping_add(p.ai_seed) % 4;
    let prefer: i64 = if difficulty == 0 {
        280_000
    } else if difficulty == 1 {
        230_000
    } else {
        180_000
    };
    let away = abs(dx) < prefer && (mode == 1 || mode == 2);
    if aim != 0 {
        aim
    } else if away {
        if dx > 0 {
            -UNIT
        } else {
            UNIT
        }
    } else {
        toward(dx, APPROACH_DEADZONE)
    }
}

fn jumps(p: &Player, dx: i64, dy: i64) -> (r: bool)
    requires
        dx > i64::MIN,
    ensures
        r == bot_jumps(*p, dx as int, dy as int),
{
    p.on_ground && dy > JUMP_HEIGHT && abs(dx) < JUMP_REACH
}

fn swings(p: &Player, dx: i64, dy: i64, threatened: bool) -> (r: bool)
    requires
        dx > i64::MIN,
        dy > i64::MIN,
    ensures
        r == bot_swings(*p, dx as int, dy as int, threatened),
{
    p.ai_melee_cooldown == 0 && (threatened || (abs(dx) < STRIKE_REACH_X && abs(dy)
        < STRIKE_REACH_Y))
}

fn shoots(p: &Player, dx: i64, dy: i64, threatened: bool, difficulty: u32) -> (r: bool)
    requires
        dx > i64::MIN,
        dy > i64::MIN,
    ensures
        r == bot_shoots(*p, dx as int, dy as int, threatened, difficulty as int),
{
    p.ai_shoot_cooldown == 0 && p.ammo > 0 && p.melee_timer == 0 && p.melee_windup == 0 && abs(dx)
        < SHOT_REACH_X && abs(dy) < SHOT_REACH_Y && !swings(p, dx, dy, threatened) && aim_ok(
        difficulty,
        dx,
        dy,
    )
}

fn shoot_cooldown(difficulty: u32) -> (ticks: u32)
    ensures
        ticks == shoot_cooldown_for(difficulty as int),
{
    if difficulty == 0 {
        40
    } else if difficulty == 1 {
        25
    } else {
        15
    }
}

fn melee_cooldown(difficulty: u32) -> (ticks: u32)
    ensures
        ticks == melee_cooldown_for(difficulty as int),
{
    if difficulty == 0 {
        30
    } else if difficulty == 1 {
        20
    } else {
        12
    }
}

fn plan_controls(p: &Player, dx: i64, dy: i64, threatened: bool, difficulty: u32, tick: u32) -> (c:
    Controls)
    requires
        dx > i64::MIN,
        dy > i64::MIN,
        difficulty <= 2,
    ensures
        c == bot_controls_toward(*p, dx as int, dy as int, threatened, difficulty as int, tick),
        c.wf(),
{
    let jump = jumps(p, dx, dy);
    Controls {
        x: heading(p, dx, difficulty, tick),
        y: toward(dy, AIM_DEADZONE_Y),
        jump_pressed: jump,
        jump_held: jump || p.ai_jump_hold > 0,
        shoot_pressed: shoots(p, dx, dy, threatened, difficulty),
        melee_pressed: swings(p, dx, dy, threatened),
    }
}

fn plan_cooldowns(p: Player, dx: i64, dy: i64, threatened: bool, difficulty: u32) -> (q: Player)
    requires
        dx > i64::MIN,
        dy > i64::MIN,
    ensures
        q == bot_after_plan(p, dx as int, dy as int, threatened, difficulty as int),
{
    let mut q = p;
    if jumps(&p, dx, dy) {
        q.ai_jump_hold = JUMP_HOLD_TICKS;
    }
    if swings(&p, dx, dy, threatened) {
        q.ai_melee_cooldown = melee_cooldown(difficulty);
    }
    if shoots(&p, dx, dy, threatened, difficulty) {
        q.ai_shoot_cooldown = shoot_cooldown(difficulty);
    }
    q
}

fn is_threatened(sim: &Simulation, me: usize) -> (threatened: bool)
    requires
        sim.wf(),
        me < MAX_PLAYERS,
    ensures
        threatened == bot_threatened(sim@, me as int),
{
    let p = sim.players[me];
    assert(p.wf());
    let cx = p.x + HALF_PLAYER_WIDTH;
    let cy = p.y + HALF_PLAYER_HEIGHT;
    let mut j: usize = 0;
    while j < MAX_BULLETS
        invariant
            j <= MAX_BULLETS,
            me < MAX_PLAYERS,
            sim.wf(),
            p.wf(),
            p == sim@.players[me as int],
            cx == p.x + HALF_PLAYER_WIDTH,
            cy == p.y + HALF_PLAYER_HEIGHT,
            forall|k: int|
                0 <= k < j ==> !threatens(#[trigger] sim@.bullets[k], me as int, cx as int, cy as int),
        decreases MAX_BULLETS - j,
    {
        let b = sim.bullets[j];
        assert(b.wf());
        if b.active && b.owner != me as u32 && dist_sq(cx, cy, b.x, b.y) < PARRY_RANGE_SQ {
            assert(threatens(sim@.bullets[j as int], me as int, cx as int, cy as int));
            return true;
        }
        j = j + 1;
    }
    false
}

fn cool(p: Player) -> (q: Player)
    ensures
        q == cooled(p),
{
    let mut q = p;
    q.ai_shoot_cooldown = p.ai_shoot_cooldown.saturating_sub(1);
    q.ai_melee_cooldown = p.ai_melee_cooldown.saturating_sub(1);
    q.ai_jump_hold = p.ai_jump_hold.saturating_sub(1);
    q
}

fn idle(p: &Player) -> (c: Controls)
    ensures
        c == idle_controls(*p),
        c.wf(),
{
    Controls {
        x: 0,
        y: 0,
        jump_pressed: false,
        jump_held: p.ai_jump_hold > 0,
        shoot_pressed: false,
        melee_pressed: false,
    }
}

fn offset_to_target(sim: &Simulation, me: usize, target: usize) -> (d: (i64, i64))
    requires
        sim.wf(),
        me < MAX_PLAYERS,
        target < MAX_PLAYERS,
        target == nearest_rival(sim@, me as int),
    ensures
        d.0 == target_dx(sim@, me as int),
        d.1 == target_dy(sim@, me as int),
        d.0 > i64::MIN,
        d.1 > i64::MIN,
{
    let p = sim.players[me];
    let t = sim.players[target];
    assert(p.wf());
    assert(t.wf());
    (
        t.x + HALF_PLAYER_WIDTH - (p.x + HALF_PLAYER_WIDTH),
        t.y + HALF_PLAYER_HEIGHT - (p.y + HALF_PLAYER_HEIGHT),
    )
}

fn difficulty(sim: &Simulation) -> (d: u32)
    ensures
        d == difficulty_of(sim@.config),
        d <= 2,
{
    if sim.config.bot_difficulty > 2 {
        2
    } else {
        sim.config.bot_difficulty
    }
}

fn decide(sim: &Simulation, idx: usize) -> (r: (Controls, Player))
    requires
        sim.wf(),
        idx < MAX_PLAYERS,
    ensures
        r.0 == bot_controls(sim@, idx as int),
        r.1 == bot_after(sim@, idx as int),
        r.0.wf(),
{
    let p = cool(sim.players[idx]);
    let target = find_nearest_rival(sim, idx);
    if target == idx {
        (idle(&p), p)
    } else {
        let (dx, dy) = offset_to_target(sim, idx, target);
        let threatened = is_threatened(sim, idx);
        let level = difficulty(sim);
        (
            plan_controls(&p, dx, dy, threatened, level, sim.tick),
            plan_cooldowns(p, dx, dy, threatened, level),
        )
    }
}

/// Lets the bot in slot `idx` think for one tick and returns its controls.
pub fn ai_controls(sim: &mut Simulation, idx: usize) -> (c: Controls)
    requires
        old(sim).wf(),
        idx < MAX_PLAYERS,
    ensures
        c == bot_controls(old(sim)@, idx as int),
        final(sim)@ == bot_thought(old(sim)@, idx as int),
        final(sim).wf(),
        c.wf(),
{
    let (c, q) = decide(sim, idx);
    assert(old(sim)@.players[idx as int].wf());
    sim.players[idx] = q;
    assert(sim@.players =~= old(sim)@.players.update(idx as int, q));
    c
}

} // verus!
