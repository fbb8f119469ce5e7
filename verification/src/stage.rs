//! Stages: platform layouts, the moving-platform oscillator and spawn points.

use vstd::prelude::*;
use crate::fixed::{abs_int, clamp_int, in_speed, in_world, SPEED_LIMIT, WORLD_LIMIT};
use crate::game_state::NUM_STAGES;
use crate::player::{clamp, PLAYER_WIDTH};
use crate::world::{Simulation, World};

verus! {

/// Slots of the platform table.
pub const MAX_PLATFORMS: usize = 16;

/// Stage used where a stage index names no built-in stage.
pub const DEFAULT_STAGE: u32 = 0;

/// Pit depth recorded for a stage without a pit.
pub const NO_PIT_Y: i64 = -1_000_000;

/// An axis-aligned platform; `x`, `y` is its lower left corner.
///
/// A moving platform slides horizontally by `move_speed` per tick, its
/// span staying between `move_min` and `move_max`: it turns round when
/// its left edge reaches the one or its right edge the other.
#[derive(Clone, Copy, PartialEq, Eq, Structural, Debug)]
pub struct Platform {
    pub x: i64,
    pub y: i64,
    pub width: i64,
    pub height: i64,
    pub active: bool,
    pub moving: bool,
    pub move_speed: i64,
    pub move_min: i64,
    pub move_max: i64,
}

impl Platform {
    /// An unused slot of the platform table.
    pub open spec fn empty() -> Platform {
        Platform {
            x: 0,
            y: 0,
            width: 0,
            height: 0,
            active: false,
            moving: false,
            move_speed: 0,
            move_min: 0,
            move_max: 0,
        }
    }

    /// A platform that stays where it is.
    pub open spec fn fixed_at(x: int, y: int, width: int, height: int) -> Platform {
        Platform {
            x: x as i64,
            y: y as i64,
            width: width as i64,
            height: height as i64,
            active: true,
            moving: false,
            move_speed: 0,
            move_min: 0,
            move_max: 0,
        }
    }

    /// An unused slot of the platform table.
    pub fn new() -> (p: Platform)
        ensures
            p == Platform::empty(),
    {
        Platform {
            x: 0,
            y: 0,
            width: 0,
            height: 0,
            active: false,
            moving: false,
            move_speed: 0,
            move_min: 0,
            move_max: 0,
        }
    }

    /// All four edges lie in the world, the extent is not negative, and the
    /// speed is within the speed limit.
    pub open spec fn wf(self) -> bool {
        &&& in_world(self.x as int)
        &&& in_world(self.y as int)
        &&& 0 <= self.width <= WORLD_LIMIT
        &&& 0 <= self.height <= WORLD_LIMIT
        &&& in_world(self.x + self.width)
        &&& in_world(self.y + self.height)
        &&& in_speed(self.move_speed as int)
        &&& in_world(self.move_min as int)
        &&& in_world(self.move_max as int)
    }

    /// Whether the platform is well formed.
    pub fn is_valid(&self) -> (ok: bool)
        ensures
            ok == self.wf(),
    {
        -WORLD_LIMIT <= self.x && self.x <= WORLD_LIMIT && -WORLD_LIMIT <= self.y && self.y
            <= WORLD_LIMIT && 0 <= self.width && self.width <= WORLD_LIMIT && 0 <= self.height
            && self.height <= WORLD_LIMIT && self.x + self.width <= WORLD_LIMIT && self.y
            + self.height <= WORLD_LIMIT && -SPEED_LIMIT <= self.move_speed && self.move_speed
            <= SPEED_LIMIT && -WORLD_LIMIT <= self.move_min && self.move_min <= WORLD_LIMIT
            && -WORLD_LIMIT <= self.move_max && self.move_max <= WORLD_LIMIT
    }

    /// The platform after one tick: an active moving platform advances by its
    /// speed (stopping where an edge meets the edge of the world) and reverses
    /// where its span has reached a bound of its track: its left edge
    /// `move_min`, or its right edge `move_max`; any other platform rests.
    pub open spec fn advanced(self) -> Platform {
        if !self.active || !self.moving {
            self
        } else {
            let x = clamp_int(
                self.x + self.move_speed,
                -WORLD_LIMIT as int,
                WORLD_LIMIT - self.width,
            );
            let turn = x <= self.move_min || x + self.width >= self.move_max;
            Platform {
                x: x as i64,
                move_speed: if turn {
                    (-self.move_speed) as i64
                } else {
                    self.move_speed
                },
                ..self
            }
        }
    }

    /// The span lies strictly between the bounds of the track, or reaches
    /// beyond one of them on its way back in, and one step is shorter than
    /// the room that the track leaves the platform.
    pub open spec fn on_track(self) -> bool {
        let s = self.move_speed;
        let room = self.move_max - self.move_min - self.width;
        &&& -s < room
        &&& s < room
        &&& {
            ||| self.move_min < self.x && self.x + self.width < self.move_max
            ||| self.x <= self.move_min && s > 0 && self.x + s > self.move_min
            ||| self.x + self.width >= self.move_max && s < 0 && self.x + self.width + s
                < self.move_max
        }
    }

    /// Advances the platform by one tick.
    pub fn advance(&mut self)
        requires
            old(self).wf(),
        ensures
            *final(self) == old(self).advanced(),
            final(self).wf(),
    {
        if self.active && self.moving {
            self.x = clamp(self.x + self.move_speed, -WORLD_LIMIT, WORLD_LIMIT - self.width);
            if self.x <= self.move_min || self.x + self.width >= self.move_max {
                self.move_speed = -self.move_speed;
            }
        }
    }
}

/// The platform that the layout of `stage` puts into `slot`.
pub open spec fn layout_platform(stage: int, slot: int) -> Platform {
    if stage == 1 {
        if slot == 0 {
            Platform::fixed_at(-900_000, 0, 400_000, 40_000)
        } else if slot == 1 {
            Platform::fixed_at(-300_000, -100_000, 300_000, 40_000)
        } else if slot == 2 {
            Platform::fixed_at(200_000, 50_000, 350_000, 40_000)
        } else if slot == 3 {
            Platform::fixed_at(600_000, -50_000, 300_000, 40_000)
        } else if slot == 4 {
            Platform::fixed_at(-600_000, 300_000, 300_000, 40_000)
        } else if slot == 5 {
            Platform::fixed_at(0, 400_000, 400_000, 40_000)
        } else if slot == 6 {
            Platform::fixed_at(500_000, 250_000, 300_000, 40_000)
        } else {
            Platform::empty()
        }
    } else if stage == 2 {
        if slot == 0 {
            Platform::fixed_at(-800_000, 0, 300_000, 40_000)
        } else if slot == 1 {
            Platform::fixed_at(500_000, 0, 300_000, 40_000)
        } else if slot == 2 {
            Platform {
                moving: true,
                move_speed: 2_000,
                move_min: (-400_000) as i64,
                move_max: 400_000,
                ..Platform::fixed_at(-150_000, 100_000, 300_000, 40_000)
            }
        } else if slot == 3 {
            Platform::fixed_at(-700_000, 350_000, 250_000, 40_000)
        } else if slot == 4 {
            Platform::fixed_at(450_000, 350_000, 250_000, 40_000)
        } else if slot == 5 {
            Platform::fixed_at(-200_000, 500_000, 400_000, 40_000)
        } else {
            Platform::empty()
        }
    } else {
        if slot == 0 {
            Platform::fixed_at(-1_000_000, -200_000, 2_000_000, 50_000)
        } else if slot == 1 {
            Platform::fixed_at(-700_000, 100_000, 400_000, 40_000)
        } else if slot == 2 {
            Platform::fixed_at(300_000, 100_000, 400_000, 40_000)
        } else if slot == 3 {
            Platform::fixed_at(-300_000, 400_000, 600_000, 40_000)
        } else {
            Platform::empty()
        }
    }
}

/// Whether the layout of `stage` has a pit below its platforms.
pub open spec fn layout_has_pit(stage: int) -> bool {
    stage == 1 || stage == 2
}

/// Depth of the pit of `stage`.
pub open spec fn layout_pit_y(stage: int) -> int {
    if stage == 1 {
        -500_000
    } else if stage == 2 {
        -600_000
    } else {
        NO_PIT_Y as int
    }
}

/// The whole platform table of `stage`.
pub open spec fn layout(stage: int) -> Seq<Platform> {
    Seq::new(MAX_PLATFORMS as nat, |slot: int| layout_platform(stage, slot))
}

/// Spawn point of `slot` (0 to 3) on `stage` (0 to 2): the lower left corner
/// of a player standing there.
pub open spec fn spawn_point(stage: int, slot: int) -> (int, int) {
    if stage == 1 {
        if slot == 0 {
            (-700_000, 50_000)
        } else if slot == 1 {
            (350_000, 100_000)
        } else if slot == 2 {
            (-450_000, 350_000)
        } else {
            (150_000, 450_000)
        }
    } else if stage == 2 {
        if slot == 0 {
            (-650_000, 50_000)
        } else if slot == 1 {
            (600_000, 50_000)
        } else if slot == 2 {
            (-550_000, 400_000)
        } else {
            (550_000, 400_000)
        }
    } else {
        if slot == 0 {
            (-500_000, 150_000)
        } else if slot == 1 {
            (500_000, 150_000)
        } else if slot == 2 {
            (-200_000, 450_000)
        } else {
            (200_000, 450_000)
        }
    }
}

fn fixed_platform(x: i64, y: i64, width: i64, height: i64) -> (p: Platform)
    ensures
        p == Platform::fixed_at(x as int, y as int, width as int, height as int),
{
    Platform {
        x,
        y,
        width,
        height,
        active: true,
        moving: false,
        move_speed: 0,
        move_min: 0,
        move_max: 0,
    }
}

fn grid_arena_platform(slot: usize) -> (p: Platform)
    ensures
        p == layout_platform(0, slot as int),
{
    match slot {
        0 => fixed_platform(-1_000_000, -200_000, 2_000_000, 50_000),
        1 => fixed_platform(-700_000, 100_000, 400_000, 40_000),
        2 => fixed_platform(300_000, 100_000, 400_000, 40_000),
        3 => fixed_platform(-300_000, 400_000, 600_000, 40_000),
        _ => Platform::new(),
    }
}

fn scatter_field_platform(slot: usize) -> (p: Platform)
    ensures
        p == layout_platform(1, slot as int),
{
    match slot {
        0 => fixed_platform(-900_000, 0, 400_000, 40_000),
        1 => fixed_platform(-300_000, -100_000, 300_000, 40_000),
        2 => fixed_platform(200_000, 50_000, 350_000, 40_000),
        3 => fixed_platform(600_000, -50_000, 300_000, 40_000),
        4 => fixed_platform(-600_000, 300_000, 300_000, 40_000),
        5 => fixed_platform(0, 400_000, 400_000, 40_000),
        6 => fixed_platform(500_000, 250_000, 300_000, 40_000),
        _ => Platform::new(),
    }
}

fn ring_void_platform(slot: usize) -> (p: Platform)
    ensures
        p == layout_platform(2, slot as int),
{
    match slot {
        0 => fixed_platform(-800_000, 0, 300_000, 40_000),
        1 => fixed_platform(500_000, 0, 300_000, 40_000),
        2 => {
            let mut p = fixed_platform(-150_000, 100_000, 300_000, 40_000);
            p.moving = true;
            p.move_speed = 2_000;
            p.move_min = -400_000;
            p.move_max = 400_000;
            p
        },
        3 => fixed_platform(-700_000, 350_000, 250_000, 40_000),
        4 => fixed_platform(450_000, 350_000, 250_000, 40_000),
        5 => fixed_platform(-200_000, 500_000, 400_000, 40_000),
        _ => Platform::new(),
    }
}

/// A table index held to `0..=max`.
pub open spec fn clamp_index(i: int, max: int) -> int {
    if i > max {
        max
    } else {
        i
    }
}

/// The world after its platform table was filled from the layout of the
/// current stage; a stage index that names no stage gives the default stage.
pub open spec fn stage_set_up(w: World) -> World {
    World {
        platforms: layout(w.state.current_stage as int),
        has_pit: layout_has_pit(w.state.current_stage as int),
        pit_y: layout_pit_y(w.state.current_stage as int) as i64,
        ..w
    }
}

/// The world after every platform advanced by one tick.
pub open spec fn platforms_advanced(w: World) -> World {
    World { platforms: Seq::new(w.platforms.len(), |i: int| w.platforms[i].advanced()), ..w }
}

/// The stage whose layout and spawn points a stage index stands for: the
/// stage itself, or the default stage where the index names no stage.
pub open spec fn stage_in_force(stage: int) -> int {
    if 0 <= stage < NUM_STAGES {
        stage
    } else {
        DEFAULT_STAGE as int
    }
}

/// Where player `player_idx` first appears on the current stage.  A stage
/// index that names no stage gives the default stage; a player index
/// beyond the table is held to its last slot.
pub open spec fn spawn_position(w: World, player_idx: int) -> (int, int) {
    spawn_point(stage_in_force(w.state.current_stage as int), clamp_index(player_idx, 3))
}

/// The platform that the layout of `stage` puts into `slot`.
pub fn stage_platform(stage: u32, slot: usize) -> (p: Platform)
    ensures
        p == layout_platform(stage as int, slot as int),
{
    match stage {
        1 => scatter_field_platform(slot),
        2 => ring_void_platform(slot),
        _ => grid_arena_platform(slot),
    }
}

/// Spawn point of `slot` on `stage`.
pub fn stage_spawn_point(stage: usize, slot: usize) -> (at: (i64, i64))
    ensures
        at.0 == spawn_point(stage as int, slot as int).0,
        at.1 == spawn_point(stage as int, slot as int).1,
{
    match stage {
        1 => match slot {
            0 => (-700_000, 50_000),
            1 => (350_000, 100_000),
            2 => (-450_000, 350_000),
            _ => (150_000, 450_000),
        },
        2 => match slot {
            0 => (-650_000, 50_000),
            1 => (600_000, 50_000),
            2 => (-550_000, 400_000),
            _ => (550_000, 400_000),
        },
        _ => match slot {
            0 => (-500_000, 150_000),
            1 => (500_000, 150_000),
            2 => (-200_000, 450_000),
            _ => (200_000, 450_000),
        },
    }
}

/// Clears the platform table and fills it from the layout of the current stage.
pub fn setup_current_stage(sim: &mut Simulation)
    ensures
        final(sim)@ == stage_set_up(old(sim)@),
        old(sim).wf() ==> final(sim).wf(),
{
    let stage = sim.state.current_stage;
    sim.has_pit = stage == 1 || stage == 2;
    sim.pit_y = if stage == 1 {
        -500_000
    } else if stage == 2 {
        -600_000
    } else {
        NO_PIT_Y
    };
    let mut slot: usize = 0;
    while slot < MAX_PLATFORMS
        invariant
            slot <= MAX_PLATFORMS,
            stage == old(sim).state.current_stage,
            forall|j: int| 0 <= j < slot ==> sim.platforms@[j] == layout_platform(stage as int, j),
            (World { platforms: old(sim)@.platforms, ..sim@ }) == (World {
                has_pit: layout_has_pit(stage as int),
                pit_y: layout_pit_y(stage as int) as i64,
                ..old(sim)@
            }),
        decreases MAX_PLATFORMS - slot,
    {
        sim.platforms[slot] = stage_platform(stage, slot);
        slot = slot + 1;
    }
    proof {
        assert(sim@.platforms =~= layout(stage as int));
        assert forall|j: int| 0 <= j < MAX_PLATFORMS implies (#[trigger] sim@.platforms[j]).wf() by {
            lemma_layout_wf(stage as int, j);
        }
    }
}

/// Advances every moving platform by one tick.
pub fn update_platforms(sim: &mut Simulation)
    requires
        old(sim).wf(),
    ensures
        final(sim)@ == platforms_advanced(old(sim)@),
        final(sim).wf(),
{
    let mut slot: usize = 0;
    while slot < MAX_PLATFORMS
        invariant
            slot <= MAX_PLATFORMS,
            old(sim).wf(),
            forall|j: int| 0 <= j < slot ==> sim.platforms@[j] == old(sim).platforms@[j].advanced(),
            forall|j: int| slot <= j < MAX_PLATFORMS ==> sim.platforms@[j] == old(sim).platforms@[j],
            (World { platforms: old(sim)@.platforms, ..sim@ }) == old(sim)@,
        decreases MAX_PLATFORMS - slot,
    {
        let mut p = sim.platforms[slot];
        assert(p == old(sim)@.platforms[slot as int]);
        p.advance();
        sim.platforms[slot] = p;
        slot = slot + 1;
    }
    proof {
        assert(sim@.platforms =~= platforms_advanced(old(sim)@).platforms);
    }
}

/// Where player `player_idx` first appears on the current stage.
pub fn get_spawn_position(sim: &Simulation, player_idx: usize) -> (at: (i64, i64))
    ensures
        at.0 == spawn_position(sim@, player_idx as int).0,
        at.1 == spawn_position(sim@, player_idx as int).1,
{
    let stage: usize = if sim.state.current_stage < NUM_STAGES {
        sim.state.current_stage as usize
    } else {
        DEFAULT_STAGE as usize
    };
    let slot: usize = if player_idx > 3 {
        3
    } else {
        player_idx
    };
    stage_spawn_point(stage, slot)
}

/// Index of a platform of `stage` under the spawn point of `slot`.
pub open spec fn platform_under_spawn(stage: int, slot: int) -> int {
    if stage == 1 {
        if slot == 0 {
            0
        } else if slot == 1 {
            2
        } else if slot == 2 {
            4
        } else {
            5
        }
    } else if stage == 2 {
        if slot == 0 {
            0
        } else if slot == 1 {
            1
        } else if slot == 2 {
            3
        } else {
            4
        }
    } else {
        if slot == 0 {
            1
        } else if slot == 1 {
            2
        } else {
            3
        }
    }
}

/// Every spawn point lies above a platform of its stage, whatever the
/// stage index: the platform is active in the layout that the index gives,
/// spans the whole width of a player standing at the spawn point, and its
/// top is not above the player's feet.
pub proof fn lemma_spawn_above_platform(stage: int, slot: int)
    requires
        0 <= slot < 4,
    ensures
        ({
            let under = platform_under_spawn(stage_in_force(stage), slot);
            let p = layout_platform(stage, under);
            let at = spawn_point(stage_in_force(stage), slot);
            &&& 0 <= under < MAX_PLATFORMS
            &&& p.active
            &&& p.x <= at.0
            &&& at.0 + PLAYER_WIDTH <= p.x + p.width
            &&& p.y + p.height <= at.1
        }),
{
}

/// On a stage that was set up, every player first appears above one of
/// its platforms, whatever the stage index and the player index.
pub proof fn lemma_spawn_position_above_platform(w: World, player_idx: int)
    requires
        0 <= player_idx,
    ensures
        ({
            let at = spawn_position(w, player_idx);
            let platforms = stage_set_up(w).platforms;
            exists|j: int|
                0 <= j < platforms.len() && (#[trigger] platforms[j]).active && platforms[j].x
                    <= at.0 && at.0 + PLAYER_WIDTH <= platforms[j].x + platforms[j].width
                    && platforms[j].y + platforms[j].height <= at.1
        }),
{
    let stage = w.state.current_stage as int;
    let slot = clamp_index(player_idx, 3);
    lemma_spawn_above_platform(stage, slot);
    let under = platform_under_spawn(stage_in_force(stage), slot);
    let platforms = stage_set_up(w).platforms;
    assert(platforms[under] == layout_platform(stage, under));
    assert(platforms[under].active);
}

/// A moving platform on its track stays on it: its span never leaves the
/// stretch from one step before `move_min` to one step beyond `move_max`.
pub proof fn lemma_platform_stays_on_track(p: Platform)
    requires
        p.wf(),
        p.active,
        p.moving,
        p.on_track(),
        -WORLD_LIMIT + SPEED_LIMIT <= p.move_min,
        p.move_max <= WORLD_LIMIT - SPEED_LIMIT,
    ensures
        p.advanced().on_track(),
        p.advanced().x == p.x + p.move_speed,
        p.move_min - abs_int(p.move_speed as int) < p.advanced().x,
        p.advanced().x + p.width < p.move_max + abs_int(p.move_speed as int),
        p.advanced().move_speed == p.move_speed || p.advanced().move_speed == -p.move_speed,
{
}

/// Every platform of every layout is well formed, and a moving one is on its track.
pub proof fn lemma_layout_wf(stage: int, slot: int)
    ensures
        layout_platform(stage, slot).wf(),
        layout_platform(stage, slot).moving ==> layout_platform(stage, slot).on_track(),
{
}

} // verus!
