//! Combat: the bullet pool, aiming, deflection, hits and melee.

use vstd::prelude::*;
use crate::fixed::{
    dist_sq, dist_sq_int, in_speed, percent, percent_of, SPEED_LIMIT, UNIT, WORLD_LIMIT,
};
use crate::game_state::{longer, trigger_hit_freeze, trigger_impact_flash, IMPACT_FLASH_DURATION};
use crate::player::{
    aabb_overlap, boxes_overlap, kill_player, kill_resolved, Player, HALF_MELEE_RANGE,
    HALF_PLAYER_HEIGHT, HALF_PLAYER_WIDTH, MAX_PLAYERS, MELEE_RANGE, PLAYER_HEIGHT, PLAYER_WIDTH,
};
use crate::stage::{Platform, MAX_PLATFORMS};
use crate::world::{Cue, Simulation, World};

verus! {

/// Slots of the bullet pool.
pub const MAX_BULLETS: usize = 32;

/// Distance a bullet on a cardinal course covers per tick (0.4 world units).
pub const BULLET_SPEED: i64 = 40_000;

/// Distance per axis a bullet on a diagonal course covers per tick
/// (`BULLET_SPEED / sqrt(2)`, rounded).
pub const BULLET_SPEED_DIAGONAL: i64 = 28_284;

/// Ticks a bullet lives unless it is deflected (two seconds).
pub const BULLET_LIFETIME: u32 = 120;

/// Speed of a bullet as a percentage of one world unit per tick.
pub const BULLET_SPEED_PERCENT: i64 = 40;

/// Each component of a diagonal unit vector (`UNIT / sqrt(2)`, rounded).
pub const DIAGONAL: i64 = 70_711;

/// An aim axis counts as pushed beyond this magnitude (0.3).
pub const AIM_THRESHOLD: i64 = 30_000;

/// Bullets farther than this from the origin horizontally are removed.
pub const BULLET_BOUND_X: i64 = 1_200_000;

/// Bullets farther than this from the origin vertically are removed.
pub const BULLET_BOUND_Y: i64 = 1_000_000;

/// Square of the melee range.
pub const MELEE_RANGE_SQ: i64 = 32_400_000_000;

/// A bullet leaves a trail mark whenever its remaining life is a multiple of this.
pub const TRAIL_INTERVAL: u32 = 3;

/// Ticks of hit freeze after a deflection.
pub const DEFLECT_FREEZE: u32 = 3;

/// Ticks of hit freeze after a bullet hit.
pub const BULLET_HIT_FREEZE: u32 = 5;

/// Ticks of hit freeze after a melee hit.
pub const MELEE_HIT_FREEZE: u32 = 6;

/// A slot of the bullet pool.
#[derive(Clone, Copy, PartialEq, Eq, Structural, Debug)]
pub struct Bullet {
    pub x: i64,
    pub y: i64,
    pub vx: i64,
    pub vy: i64,
    /// Index of the player the bullet belongs to.
    pub owner: u32,
    /// Ticks left to live.
    pub lifetime: u32,
    pub active: bool,
}

impl Bullet {
    /// A free slot.
    pub open spec fn empty() -> Bullet {
        Bullet { x: 0, y: 0, vx: 0, vy: 0, owner: 0, lifetime: 0, active: false }
    }

    /// A free slot.
    pub fn new() -> (b: Bullet)
        ensures
            b == Bullet::empty(),
    {
        Bullet { x: 0, y: 0, vx: 0, vy: 0, owner: 0, lifetime: 0, active: false }
    }

    /// A bullet in flight is at most one world unit outside the world, no
    /// faster than the speed limit, has time left to live and an owner in
    /// the player table; a free slot may hold anything.
    pub open spec fn wf(self) -> bool {
        self.active ==> {
            &&& -WORLD_LIMIT - UNIT <= self.x <= WORLD_LIMIT + UNIT
            &&& -WORLD_LIMIT - UNIT <= self.y <= WORLD_LIMIT + UNIT
            &&& in_speed(self.vx as int)
            &&& in_speed(self.vy as int)
            &&& 1 <= self.lifetime <= BULLET_LIFETIME
            &&& self.owner < MAX_PLAYERS
        }
    }

    /// Whether the slot is well formed.
    pub fn is_valid(&self) -> (ok: bool)
        ensures
            ok == self.wf(),
    {
        !self.active || (-WORLD_LIMIT - UNIT <= self.x && self.x <= WORLD_LIMIT + UNIT
            && -WORLD_LIMIT - UNIT <= self.y && self.y <= WORLD_LIMIT + UNIT && -SPEED_LIMIT
            <= self.vx && self.vx <= SPEED_LIMIT && -SPEED_LIMIT <= self.vy && self.vy
            <= SPEED_LIMIT && 1 <= self.lifetime && self.lifetime <= BULLET_LIFETIME && self.owner
            < 4)
    }
}

/// Whether the point `px`, `py` lies in the box with corner `x`, `y` and
/// extent `w`, `h`, its border included.
pub open spec fn point_in_box(px: int, py: int, x: int, y: int, w: int, h: int) -> bool {
    px >= x && px <= x + w && py >= y && py <= y + h
}

/// Whether a point lies in a box, its border included.
pub fn point_in_aabb(px: i64, py: i64, x: i64, y: i64, w: i64, h: i64) -> (inside: bool)
    ensures
        inside == point_in_box(px as int, py as int, x as int, y as int, w as int, h as int),
{
    px >= x && px as i128 <= x as i128 + w as i128 && py >= y && py as i128 <= y as i128 + h as i128
}

/// The direction an aim axis asks for: 1, -1 or, inside the threshold, 0.
pub open spec fn aim_axis(v: int) -> int {
    if v > AIM_THRESHOLD {
        1
    } else if v < -AIM_THRESHOLD {
        -1
    } else {
        0
    }
}

/// The aim snapped to one of eight directions, as a fixed-point unit vector.
/// With both axes inside the threshold the shot goes where the shooter faces.
pub open spec fn aim_direction(x: int, y: int, facing_right: bool) -> (int, int) {
    let ax = aim_axis(x);
    let ay = aim_axis(y);
    if ax == 0 && ay == 0 {
        (
            if facing_right {
                UNIT as int
            } else {
                -UNIT as int
            },
            0,
        )
    } else if ax != 0 && ay != 0 {
        (ax * DIAGONAL, ay * DIAGONAL)
    } else {
        (ax * UNIT, ay * UNIT)
    }
}

/// Snaps an aim to one of eight directions.
pub fn normalize_aim(x: i64, y: i64, facing_right: bool) -> (d: (i64, i64))
    ensures
        d.0 == aim_direction(x as int, y as int, facing_right).0,
        d.1 == aim_direction(x as int, y as int, facing_right).1,
        -UNIT <= d.0 <= UNIT,
        -UNIT <= d.1 <= UNIT,
{
    let ax: i64 = if x > AIM_THRESHOLD {
        1
    } else if x < -AIM_THRESHOLD {
        -1
    } else {
        0
    };
    let ay: i64 = if y > AIM_THRESHOLD {
        1
    } else if y < -AIM_THRESHOLD {
        -1
    } else {
        0
    };
    if ax == 0 && ay == 0 {
        return (
            if facing_right {
                UNIT
            } else {
                -UNIT
            },
            0,
        );
    }
    if ax != 0 && ay != 0 {
        return (ax * DIAGONAL, ay * DIAGONAL);
    }
    (ax * UNIT, ay * UNIT)
}

/// The bullet that `shooter`, player `owner`, fires with the given aim.
pub open spec fn fired_bullet(shooter: Player, owner: int, aim_x: int, aim_y: int) -> Bullet {
    let d = aim_direction(aim_x, aim_y, shooter.facing_right);
    Bullet {
        x: shooter.center_x() as i64,
        y: shooter.center_y() as i64,
        vx: percent_of(d.0, BULLET_SPEED_PERCENT as int) as i64,
        vy: percent_of(d.1, BULLET_SPEED_PERCENT as int) as i64,
        owner: owner as u32,
        lifetime: BULLET_LIFETIME,
        active: true,
    }
}

/// Index of the first free slot at or after `from`; the length of the pool if there is none.
pub open spec fn first_free(bullets: Seq<Bullet>, from: int) -> int
    decreases bullets.len() - from,
{
    if from < 0 || from >= bullets.len() {
        bullets.len() as int
    } else if !bullets[from].active {
        from
    } else {
        first_free(bullets, from + 1)
    }
}

/// The world after player `player_idx` fired: the first free slot of the
/// pool holds the new bullet.  With a full pool nothing happens.
pub open spec fn bullet_spawned(w: World, player_idx: int, aim_x: int, aim_y: int) -> World {
    let slot = first_free(w.bullets, 0);
    if slot >= w.bullets.len() {
        w
    } else {
        let b = fired_bullet(w.players[player_idx], player_idx, aim_x, aim_y);
        w.with_bullet(slot, b).cue(Cue::MuzzleFlash { x: b.x, y: b.y })
    }
}

/// `first_free` names a free slot before which every slot is taken, or the
/// length of a pool in which every slot is taken.
pub proof fn lemma_first_free(bullets: Seq<Bullet>, from: int)
    requires
        0 <= from <= bullets.len(),
    ensures
        from <= first_free(bullets, from) <= bullets.len(),
        first_free(bullets, from) < bullets.len() ==> !bullets[first_free(bullets, from)].active,
        forall|j: int| from <= j < first_free(bullets, from) ==> (#[trigger] bullets[j]).active,
    decreases bullets.len() - from,
{
    if from < bullets.len() && bullets[from].active {
        lemma_first_free(bullets, from + 1);
    }
}

/// Index of the first free slot of the pool, or `MAX_BULLETS`.
fn find_free_slot(sim: &Simulation) -> (slot: usize)
    ensures
        slot == first_free(sim@.bullets, 0),
        slot <= MAX_BULLETS,
{
    let mut slot: usize = 0;
    while slot < MAX_BULLETS
        invariant
            slot <= MAX_BULLETS,
            first_free(sim@.bullets, 0) == first_free(sim@.bullets, slot as int),
        decreases MAX_BULLETS - slot,
    {
        if !sim.bullets[slot].active {
            return slot;
        }
        slot = slot + 1;
    }
    slot
}

/// Fires a bullet for player `player_idx` with the given aim.
pub fn spawn_bullet(sim: &mut Simulation, player_idx: usize, aim_x: i64, aim_y: i64)
    requires
        old(sim).wf(),
        player_idx < MAX_PLAYERS,
    ensures
        final(sim)@ == bullet_spawned(old(sim)@, player_idx as int, aim_x as int, aim_y as int),
        final(sim).wf(),
{
    let slot = find_free_slot(sim);
    if slot >= MAX_BULLETS {
        return ;
    }
    let p = sim.players[player_idx];
    let (dx, dy) = normalize_aim(aim_x, aim_y, p.facing_right);
    let bullet = Bullet {
        x: p.x + HALF_PLAYER_WIDTH,
        y: p.y + HALF_PLAYER_HEIGHT,
        vx: percent(dx, BULLET_SPEED_PERCENT),
        vy: percent(dy, BULLET_SPEED_PERCENT),
        owner: player_idx as u32,
        lifetime: BULLET_LIFETIME,
        active: true,
    };
    sim.bullets[slot] = bullet;
    assert(sim@.bullets =~= old(sim)@.bullets.update(slot as int, bullet));
    sim.emit(Cue::MuzzleFlash { x: bullet.x, y: bullet.y });
}

/// Whether the point `x`, `y` lies in an active platform.
pub open spec fn point_hits_platform(platforms: Seq<Platform>, x: int, y: int) -> bool {
    exists|j: int|
        0 <= j < platforms.len() && (#[trigger] platforms[j]).active && point_in_box(
            x,
            y,
            platforms[j].x as int,
            platforms[j].y as int,
            platforms[j].width as int,
            platforms[j].height as int,
        )
}

/// Horizontal centre of the melee swing of `p`.
pub open spec fn melee_center_x(p: Player) -> int {
    if p.facing_right {
        p.center_x() + HALF_MELEE_RANGE
    } else {
        p.center_x() - HALF_MELEE_RANGE
    }
}

/// Whether the point `x`, `y` is closer than the melee range to the centre
/// of the melee swing of `p`.
pub open spec fn in_melee_reach(p: Player, x: int, y: int) -> bool {
    dist_sq_int(melee_center_x(p), p.center_y(), x, y) < MELEE_RANGE_SQ
}

/// The bullet after one tick of flight: moved by its velocity, one tick older.
pub open spec fn flown(b: Bullet) -> Bullet {
    Bullet { x: (b.x + b.vx) as i64, y: (b.y + b.vy) as i64, lifetime: (b.lifetime - 1) as u32, ..b }
}

/// Whether the bullet has left the field.
pub open spec fn out_of_field(b: Bullet) -> bool {
    b.x < -BULLET_BOUND_X || b.x > BULLET_BOUND_X || b.y < -BULLET_BOUND_Y || b.y > BULLET_BOUND_Y
}

/// The bullet after player `by` deflected it: flying back where it came
/// from, owned by the deflector, with a full life ahead.
pub open spec fn deflected(b: Bullet, by: int) -> Bullet {
    Bullet {
        vx: (-b.vx) as i64,
        vy: (-b.vy) as i64,
        owner: by as u32,
        lifetime: BULLET_LIFETIME,
        ..b
    }
}

/// The bullet taken out of play.
pub open spec fn spent(b: Bullet) -> Bullet {
    Bullet { active: false, ..b }
}

/// The world after player `i` deflected bullet `b`.
pub open spec fn bullet_deflected(w: World, b: int, i: int) -> World {
    let bullet = w.bullets[b];
    (World { hit_freeze: longer(w.hit_freeze, DEFLECT_FREEZE), ..w }).with_bullet(
        b,
        deflected(bullet, i),
    ).cue(Cue::Deflect { player: i as u32, x: bullet.x, y: bullet.y })
}

/// The world with the feedback of a hit on player `i` started: hit freeze of
/// `freeze` ticks, the impact flash, and the cue `c`.
pub open spec fn hit_feedback(w: World, freeze: u32, c: Cue) -> World {
    (World {
        hit_freeze: longer(w.hit_freeze, freeze),
        impact_flash: if w.options.screen_flash {
            IMPACT_FLASH_DURATION
        } else {
            w.impact_flash
        },
        ..w
    }).cue(c)
}

/// The world after bullet `b` hit player `i`: the player is killed by the
/// bullet's owner and the bullet is spent.
pub open spec fn bullet_struck(w: World, b: int, i: int) -> World {
    let bullet = w.bullets[b];
    let p = w.players[i];
    let w1 = hit_feedback(
        w,
        BULLET_HIT_FREEZE,
        Cue::BulletHit { victim: i as u32, x: p.center_x() as i64, y: p.center_y() as i64 },
    );
    let w2 = kill_resolved(w1, i, bullet.owner as int);
    w2.with_bullet(b, spent(bullet))
}

/// The world after bullet `b`, in flight, met player `i`.  A player that is
/// out of the match, dead or the bullet's owner is passed over; a player in
/// active melee whose swing the bullet is within reach of deflects it; a
/// player whose box holds the bullet is hit.
pub open spec fn bullet_met_player(w: World, b: int, i: int) -> World {
    let bullet = w.bullets[b];
    let p = w.players[i];
    if !p.alive() || i == bullet.owner {
        w
    } else if p.melee_timer > 0 && in_melee_reach(p, bullet.x as int, bullet.y as int) {
        bullet_deflected(w, b, i)
    } else if point_in_box(
        bullet.x as int,
        bullet.y as int,
        p.x as int,
        p.y as int,
        PLAYER_WIDTH as int,
        PLAYER_HEIGHT as int,
    ) {
        bullet_struck(w, b, i)
    } else {
        w
    }
}

/// The world after bullet `b` met the players from `i` on in index order,
/// up to the one it hit.
pub open spec fn bullet_met_players(w: World, b: int, i: int) -> World
    decreases MAX_PLAYERS - i,
{
    if i < 0 || i >= MAX_PLAYERS || !w.bullets[b].active {
        w
    } else {
        bullet_met_players(bullet_met_player(w, b, i), b, i + 1)
    }
}

/// The world after one tick of bullet `b`: a bullet in flight moves, ages,
/// and is spent when its life ends, when it leaves the field or when it
/// enters a platform; otherwise it meets the players.
pub open spec fn bullet_stepped(w: World, b: int) -> World {
    let bullet = w.bullets[b];
    if !bullet.active {
        w
    } else {
        let m = flown(bullet);
        let w1 = if bullet.lifetime % TRAIL_INTERVAL == 0 {
            w.cue(Cue::BulletTrail { x: m.x, y: m.y })
        } else {
            w
        };
        if m.lifetime == 0 || out_of_field(m) || point_hits_platform(
            w.platforms,
            m.x as int,
            m.y as int,
        ) {
            w1.with_bullet(b, spent(m))
        } else {
            bullet_met_players(w1.with_bullet(b, m), b, 0)
        }
    }
}

/// The world after one tick of the bullets from slot `from` on, in slot order.
pub open spec fn bullets_stepped(w: World, from: int) -> World
    decreases MAX_BULLETS - from,
{
    if from < 0 || from >= MAX_BULLETS {
        w
    } else {
        bullets_stepped(bullet_stepped(w, from), from + 1)
    }
}

/// The world after one tick of every bullet.
pub open spec fn bullets_updated(w: World) -> World {
    bullets_stepped(w, 0)
}

/// Whether the point `x`, `y` lies in an active platform.
fn hits_platform(sim: &Simulation, x: i64, y: i64) -> (hit: bool)
    ensures
        hit == point_hits_platform(sim@.platforms, x as int, y as int),
{
    let mut j: usize = 0;
    while j < MAX_PLATFORMS
        invariant
            j <= MAX_PLATFORMS,
            forall|k: int|
                0 <= k < j ==> !((#[trigger] sim@.platforms[k]).active && point_in_box(
                    x as int,
                    y as int,
                    sim@.platforms[k].x as int,
                    sim@.platforms[k].y as int,
                    sim@.platforms[k].width as int,
                    sim@.platforms[k].height as int,
                )),
        decreases MAX_PLATFORMS - j,
    {
        let p = sim.platforms[j];
        if p.active && point_in_aabb(x, y, p.x, p.y, p.width, p.height) {
            assert(sim@.platforms[j as int].active);
            return true;
        }
        j = j + 1;
    }
    false
}

/// Whether the point `x`, `y` is within melee reach of `p`.
fn within_melee_reach(p: &Player, x: i64, y: i64) -> (within: bool)
    requires
        p.wf(),
        -WORLD_LIMIT - UNIT <= x <= WORLD_LIMIT + UNIT,
        -WORLD_LIMIT - UNIT <= y <= WORLD_LIMIT + UNIT,
    ensures
        within == in_melee_reach(*p, x as int, y as int),
{
    let mx: i64 = if p.facing_right {
        p.x + HALF_PLAYER_WIDTH + HALF_MELEE_RANGE
    } else {
        p.x + HALF_PLAYER_WIDTH - HALF_MELEE_RANGE
    };
    let my: i64 = p.y + HALF_PLAYER_HEIGHT;
    dist_sq(mx, my, x, y) < MELEE_RANGE_SQ
}

fn deflect_bullet(sim: &mut Simulation, b: usize, i: usize)
    requires
        old(sim).wf(),
        b < MAX_BULLETS,
        i < MAX_PLAYERS,
        old(sim).bullets@[b as int].active,
    ensures
        final(sim)@ == bullet_deflected(old(sim)@, b as int, i as int),
        final(sim).wf(),
{
    let mut bullet = sim.bullets[b];
    let at_x = bullet.x;
    let at_y = bullet.y;
    assert(bullet.wf());
    bullet.vx = -bullet.vx;
    bullet.vy = -bullet.vy;
    bullet.owner = i as u32;
    bullet.lifetime = BULLET_LIFETIME;
    trigger_hit_freeze(sim, DEFLECT_FREEZE);
    sim.bullets[b] = bullet;
    assert(sim@.bullets =~= old(sim)@.bullets.update(b as int, bullet));
    sim.emit(Cue::Deflect { player: i as u32, x: at_x, y: at_y });
}

fn start_hit_feedback(sim: &mut Simulation, freeze: u32, c: Cue)
    ensures
        final(sim)@ == hit_feedback(old(sim)@, freeze, c),
        old(sim).wf() ==> final(sim).wf(),
{
    trigger_hit_freeze(sim, freeze);
    trigger_impact_flash(sim);
    sim.emit(c);
}

fn strike_with_bullet(sim: &mut Simulation, b: usize, i: usize)
    requires
        old(sim).wf(),
        b < MAX_BULLETS,
        i < MAX_PLAYERS,
        old(sim).bullets@[b as int].active,
    ensures
        final(sim)@ == bullet_struck(old(sim)@, b as int, i as int),
        final(sim).wf(),
{
    let mut bullet = sim.bullets[b];
    let p = sim.players[i];
    assert(bullet.wf());
    assert(p.wf());
    start_hit_feedback(
        sim,
        BULLET_HIT_FREEZE,
        Cue::BulletHit { victim: i as u32, x: p.x + HALF_PLAYER_WIDTH, y: p.y + HALF_PLAYER_HEIGHT },
    );
    kill_player(sim, i, bullet.owner);
    let ghost w2 = sim@;
    bullet.active = false;
    sim.bullets[b] = bullet;
    assert(sim@.bullets =~= w2.bullets.update(b as int, bullet));
}

fn bullet_meets_player(sim: &mut Simulation, b: usize, i: usize)
    requires
        old(sim).wf(),
        b < MAX_BULLETS,
        i < MAX_PLAYERS,
        old(sim).bullets@[b as int].active,
    ensures
        final(sim)@ == bullet_met_player(old(sim)@, b as int, i as int),
        final(sim).wf(),
{
    let bullet = sim.bullets[b];
    let p = sim.players[i];
    assert(bullet.wf());
    assert(p.wf());
    if !p.active || p.dead || i as u32 == bullet.owner {
        return ;
    }
    if p.melee_timer > 0 && within_melee_reach(&p, bullet.x, bullet.y) {
        deflect_bullet(sim, b, i);
    } else if point_in_aabb(bullet.x, bullet.y, p.x, p.y, PLAYER_WIDTH, PLAYER_HEIGHT) {
        strike_with_bullet(sim, b, i);
    }
}

fn bullet_meets_players(sim: &mut Simulation, b: usize)
    requires
        old(sim).wf(),
        b < MAX_BULLETS,
    ensures
        final(sim)@ == bullet_met_players(old(sim)@, b as int, 0),
        final(sim).wf(),
{
    let mut i: usize = 0;
    while i < MAX_PLAYERS && sim.bullets[b].active
        invariant
            i <= MAX_PLAYERS,
            b < MAX_BULLETS,
            sim.wf(),
            bullet_met_players(old(sim)@, b as int, 0) == bullet_met_players(sim@, b as int, i as int),
        decreases MAX_PLAYERS - i,
    {
        bullet_meets_player(sim, b, i);
        i = i + 1;
    }
}

fn step_bullet(sim: &mut Simulation, b: usize)
    requires
        old(sim).wf(),
        b < MAX_BULLETS,
    ensures
        final(sim)@ == bullet_stepped(old(sim)@, b as int),
        final(sim).wf(),
{
    let mut bullet = sim.bullets[b];
    if !bullet.active {
        return ;
    }
    assert(bullet.wf());
    let trail = bullet.lifetime % TRAIL_INTERVAL == 0;
    bullet.x = bullet.x + bullet.vx;
    bullet.y = bullet.y + bullet.vy;
    bullet.lifetime = bullet.lifetime - 1;
    if trail {
        sim.emit(Cue::BulletTrail { x: bullet.x, y: bullet.y });
    }
    let ghost w1 = sim@;
    let gone = bullet.lifetime == 0 || bullet.x < -BULLET_BOUND_X || bullet.x > BULLET_BOUND_X
        || bullet.y < -BULLET_BOUND_Y || bullet.y > BULLET_BOUND_Y || hits_platform(
        sim,
        bullet.x,
        bullet.y,
    );
    if gone {
        bullet.active = false;
        sim.bullets[b] = bullet;
        assert(sim@.bullets =~= w1.bullets.update(b as int, bullet));
    } else {
        sim.bullets[b] = bullet;
        assert(sim@.bullets =~= w1.bullets.update(b as int, bullet));
        bullet_meets_players(sim, b);
    }
}

/// Advances every bullet by one tick, in slot order.
pub fn update_bullets(sim: &mut Simulation)
    requires
        old(sim).wf(),
    ensures
        final(sim)@ == bullets_updated(old(sim)@),
        final(sim).wf(),
{
    let mut b: usize = 0;
    while b < MAX_BULLETS
        invariant
            b <= MAX_BULLETS,
            sim.wf(),
            bullets_updated(old(sim)@) == bullets_stepped(sim@, b as int),
        decreases MAX_BULLETS - b,
    {
        step_bullet(sim, b);
        b = b + 1;
    }
}

/// The box that the melee swing of `p` covers, as `(x, y, width, height)`:
/// as tall as the player and `MELEE_RANGE` wide, in front of the player.
pub open spec fn melee_box(p: Player) -> (int, int, int, int) {
    (
        if p.facing_right {
            p.x + PLAYER_WIDTH
        } else {
            p.x - MELEE_RANGE
        },
        p.y as int,
        MELEE_RANGE as int,
        PLAYER_HEIGHT as int,
    )
}

/// The box of `p`, as `(x, y, width, height)`.
pub open spec fn player_box(p: Player) -> (int, int, int, int) {
    (p.x as int, p.y as int, PLAYER_WIDTH as int, PLAYER_HEIGHT as int)
}

/// The world after the swing of attacker `a` struck player `t`.
pub open spec fn melee_struck(w: World, a: int, t: int) -> World {
    let p = w.players[t];
    kill_resolved(
        hit_feedback(
            w,
            MELEE_HIT_FREEZE,
            Cue::MeleeHit { victim: t as u32, x: p.center_x() as i64, y: p.center_y() as i64 },
        ),
        t,
        a,
    )
}

/// The world after the swing of attacker `a` met player `t`: another player
/// who is alive and whose box overlaps the swing is killed.
pub open spec fn melee_met_player(w: World, a: int, t: int) -> World {
    if t == a || !w.players[t].alive() {
        w
    } else if boxes_overlap(melee_box(w.players[a]), player_box(w.players[t])) {
        melee_struck(w, a, t)
    } else {
        w
    }
}

/// The world after the swing of attacker `a` met the players from `t` on.
pub open spec fn melee_swept(w: World, a: int, t: int) -> World
    decreases MAX_PLAYERS - t,
{
    if t < 0 || t >= MAX_PLAYERS {
        w
    } else {
        melee_swept(melee_met_player(w, a, t), a, t + 1)
    }
}

/// The world after player `a` had its turn as attacker: only a living
/// player in active melee swings.
pub open spec fn attacker_swung(w: World, a: int) -> World {
    let p = w.players[a];
    if !p.alive() || p.melee_timer == 0 {
        w
    } else {
        melee_swept(w, a, 0)
    }
}

/// The world after the players from `a` on had their turns as attackers.
pub open spec fn melee_resolved(w: World, a: int) -> World
    decreases MAX_PLAYERS - a,
{
    if a < 0 || a >= MAX_PLAYERS {
        w
    } else {
        melee_resolved(attacker_swung(w, a), a + 1)
    }
}

/// The world after all melee hits of one tick.
pub open spec fn melee_hits_updated(w: World) -> World {
    melee_resolved(w, 0)
}

fn strike_with_melee(sim: &mut Simulation, a: usize, t: usize)
    requires
        old(sim).wf(),
        a < MAX_PLAYERS,
        t < MAX_PLAYERS,
    ensures
        final(sim)@ == melee_struck(old(sim)@, a as int, t as int),
        final(sim).wf(),
{
    let p = sim.players[t];
    assert(p.wf());
    start_hit_feedback(
        sim,
        MELEE_HIT_FREEZE,
        Cue::MeleeHit { victim: t as u32, x: p.x + HALF_PLAYER_WIDTH, y: p.y + HALF_PLAYER_HEIGHT },
    );
    kill_player(sim, t, a as u32);
}

fn melee_meets_player(sim: &mut Simulation, a: usize, t: usize)
    requires
        old(sim).wf(),
        a < MAX_PLAYERS,
        t < MAX_PLAYERS,
    ensures
        final(sim)@ == melee_met_player(old(sim)@, a as int, t as int),
        final(sim).wf(),
{
    let attacker = sim.players[a];
    let target = sim.players[t];
    assert(attacker.wf());
    assert(target.wf());
    if t == a || !target.active || target.dead {
        return ;
    }
    let melee_x: i64 = if attacker.facing_right {
        attacker.x + PLAYER_WIDTH
    } else {
        attacker.x - MELEE_RANGE
    };
    if aabb_overlap(
        (melee_x, attacker.y, MELEE_RANGE, PLAYER_HEIGHT),
        (target.x, target.y, PLAYER_WIDTH, PLAYER_HEIGHT),
    ) {
        strike_with_melee(sim, a, t);
    }
}

fn attacker_swings(sim: &mut Simulation, a: usize)
    requires
        old(sim).wf(),
        a < MAX_PLAYERS,
    ensures
        final(sim)@ == attacker_swung(old(sim)@, a as int),
        final(sim).wf(),
{
    let attacker = sim.players[a];
    if !attacker.active || attacker.dead || attacker.melee_timer == 0 {
        return ;
    }
    let mut t: usize = 0;
    while t < MAX_PLAYERS
        invariant
            t <= MAX_PLAYERS,
            a < MAX_PLAYERS,
            sim.wf(),
            melee_swept(old(sim)@, a as int, 0) == melee_swept(sim@, a as int, t as int),
        decreases MAX_PLAYERS - t,
    {
        melee_meets_player(sim, a, t);
        t = t + 1;
    }
}

/// Resolves the melee swings of one tick: every living player in active
/// melee, in index order, kills each other living player its swing overlaps.
pub fn update_melee_hits(sim: &mut Simulation)
    requires
        old(sim).wf(),
    ensures
        final(sim)@ == melee_hits_updated(old(sim)@),
        final(sim).wf(),
{
    let mut a: usize = 0;
    while a < MAX_PLAYERS
        invariant
            a <= MAX_PLAYERS,
            sim.wf(),
            melee_hits_updated(old(sim)@) == melee_resolved(sim@, a as int),
        decreases MAX_PLAYERS - a,
    {
        attacker_swings(sim, a);
        a = a + 1;
    }
}

} // verus!
