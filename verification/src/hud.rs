//! What the heads-up display derives from the simulation: labels, colours,
//! numbers as decimal digits, and the seconds that the timers stand for.

use vstd::prelude::*;
use crate::game_state::{STAGE_SELECT_RANDOM, STAGE_SELECT_ROTATE, TICKS_PER_SECOND};
use crate::player::MAX_PLAYERS;
use crate::world::{Simulation, World};

verus! {

/// Amount by which `brighten_color` raises each colour channel.
pub const BRIGHTEN_STEP: u32 = 40;

/// ASCII code of the digit zero.
pub const DIGIT_ZERO: u8 = 48;

/// ASCII code of the colon.
pub const COLON: u8 = 58;

/// Name of a stage; a stage index that names no stage is simply an arena.
pub open spec fn stage_title(stage: u32) -> Seq<char> {
    if stage == 0 {
        "GRID ARENA"@
    } else if stage == 1 {
        "SCATTER FIELD"@
    } else if stage == 2 {
        "RING VOID"@
    } else {
        "ARENA"@
    }
}

/// Label of a stage-select setting: a policy or the name of the fixed stage.
pub open spec fn stage_select_title(sel: u32) -> Seq<char> {
    if sel == STAGE_SELECT_RANDOM {
        "RANDOM"@
    } else if sel == STAGE_SELECT_ROTATE {
        "ROTATE"@
    } else {
        stage_title(sel)
    }
}

/// Name of a stage.
pub fn stage_name(stage: u32) -> (name: &'static str)
    ensures
        name@ == stage_title(stage),
{
    match stage {
        0 => "GRID ARENA",
        1 => "SCATTER FIELD",
        2 => "RING VOID",
        _ => "ARENA",
    }
}

/// Label of a stage-select setting.
pub fn stage_select_label(sel: u32) -> (label: &'static str)
    ensures
        label@ == stage_select_title(sel),
{
    if sel == STAGE_SELECT_RANDOM {
        "RANDOM"
    } else if sel == STAGE_SELECT_ROTATE {
        "ROTATE"
    } else {
        stage_name(sel)
    }
}

/// The colour channel `index` of an RGBA colour: 3 is red, 2 green, 1 blue, 0 alpha.
pub open spec fn channel(color: u32, index: u32) -> u32 {
    (color >> (8 * index) as u32) & 0xFF
}

/// The RGBA colour with the given channels, each at most 255.
pub open spec fn rgba(r: u32, g: u32, b: u32, a: u32) -> u32 {
    (r << 24) | (g << 16) | (b << 8) | a
}

/// A channel raised by `BRIGHTEN_STEP`, held to 255.
pub open spec fn brightened(c: u32) -> u32 {
    if c + BRIGHTEN_STEP > 255 {
        255
    } else {
        (c + BRIGHTEN_STEP) as u32
    }
}

/// A colour is the colour of its four channels, and a colour made of four
/// channels has those channels.
pub proof fn lemma_channels(color: u32, r: u32, g: u32, b: u32, a: u32)
    requires
        r <= 255,
        g <= 255,
        b <= 255,
        a <= 255,
    ensures
        channel(color, 0) <= 255,
        channel(color, 1) <= 255,
        channel(color, 2) <= 255,
        channel(color, 3) <= 255,
        rgba(channel(color, 3), channel(color, 2), channel(color, 1), channel(color, 0)) == color,
        channel(rgba(r, g, b, a), 3) == r,
        channel(rgba(r, g, b, a), 2) == g,
        channel(rgba(r, g, b, a), 1) == b,
        channel(rgba(r, g, b, a), 0) == a,
{
    assert(((color >> 0u32) & 0xFF) <= 255 && ((color >> 8u32) & 0xFF) <= 255 && ((color >> 16u32)
        & 0xFF) <= 255 && ((color >> 24u32) & 0xFF) <= 255) by (bit_vector);
    assert(((((color >> 24u32) & 0xFF) << 24) | (((color >> 16u32) & 0xFF) << 16) | (((color
        >> 8u32) & 0xFF) << 8) | ((color >> 0u32) & 0xFF)) == color) by (bit_vector);
    assert((((r << 24) | (g << 16) | (b << 8) | a) >> 24u32) & 0xFF == r && (((r << 24) | (g << 16)
        | (b << 8) | a) >> 16u32) & 0xFF == g && (((r << 24) | (g << 16) | (b << 8) | a) >> 8u32)
        & 0xFF == b && (((r << 24) | (g << 16) | (b << 8) | a) >> 0u32) & 0xFF == a)
        by (bit_vector)
        requires
            r <= 255,
            g <= 255,
            b <= 255,
            a <= 255,
    ;
}

/// The colour with red, green and blue raised by `BRIGHTEN_STEP` each, no
/// channel beyond 255, and the alpha as it was.
pub fn brighten_color(color: u32) -> (bright: u32)
    ensures
        bright == rgba(
            brightened(channel(color, 3)),
            brightened(channel(color, 2)),
            brightened(channel(color, 1)),
            channel(color, 0),
        ),
        channel(bright, 3) == brightened(channel(color, 3)),
        channel(bright, 2) == brightened(channel(color, 2)),
        channel(bright, 1) == brightened(channel(color, 1)),
        channel(bright, 0) == channel(color, 0),
{
    let r = (color >> 24) & 0xFF;
    let g = (color >> 16) & 0xFF;
    let b = (color >> 8) & 0xFF;
    let a = color & 0xFF;
    proof {
        lemma_channels(color, 0, 0, 0, 0);
        assert(color & 0xFF == (color >> 0u32) & 0xFF) by (bit_vector);
    }
    let r = if r + BRIGHTEN_STEP > 255 {
        255
    } else {
        r + BRIGHTEN_STEP
    };
    let g = if g + BRIGHTEN_STEP > 255 {
        255
    } else {
        g + BRIGHTEN_STEP
    };
    let b = if b + BRIGHTEN_STEP > 255 {
        255
    } else {
        b + BRIGHTEN_STEP
    };
    proof {
        lemma_channels(color, r, g, b, a);
    }
    (r << 24) | (g << 16) | (b << 8) | a
}

/// The colour with its alpha replaced by the low eight bits of `alpha`.
pub fn with_alpha(color: u32, alpha: u32) -> (result: u32)
    ensures
        result == (color & 0xFFFFFF00) | (alpha & 0xFF),
        channel(result, 0) == alpha & 0xFF,
        channel(result, 1) == channel(color, 1),
        channel(result, 2) == channel(color, 2),
        channel(result, 3) == channel(color, 3),
{
    proof {
        assert((((color & 0xFFFFFF00) | (alpha & 0xFF)) >> 0u32) & 0xFF == alpha & 0xFF && (((color
            & 0xFFFFFF00) | (alpha & 0xFF)) >> 8u32) & 0xFF == (color >> 8u32) & 0xFF && (((color
            & 0xFFFFFF00) | (alpha & 0xFF)) >> 16u32) & 0xFF == (color >> 16u32) & 0xFF && (((color
            & 0xFFFFFF00) | (alpha & 0xFF)) >> 24u32) & 0xFF == (color >> 24u32) & 0xFF)
            by (bit_vector);
    }
    (color & 0xFFFFFF00) | (alpha & 0xFF)
}

/// The decimal digits of `n` as ASCII codes, most significant first.
pub open spec fn decimal(n: nat) -> Seq<u8>
    decreases n,
{
    if n < 10 {
        seq![(DIGIT_ZERO + n) as u8]
    } else {
        decimal(n / 10).push((DIGIT_ZERO + n % 10) as u8)
    }
}

fn push_decimal(v: u32, out: &mut Vec<u8>)
    ensures
        final(out)@ == old(out)@ + decimal(v as nat),
    decreases v,
{
    if v >= 10 {
        push_decimal(v / 10, out);
    }
    out.push(DIGIT_ZERO + (v % 10) as u8);
    proof {
        if v < 10 {
            assert(final(out)@ =~= old(out)@ + decimal(v as nat));
        } else {
            assert(final(out)@ =~= old(out)@ + decimal(v as nat));
        }
    }
}

/// The decimal digits of `v` as ASCII text.
pub fn u32_to_str(v: u32) -> (text: Vec<u8>)
    ensures
        text@ == decimal(v as nat),
{
    let mut text: Vec<u8> = Vec::new();
    push_decimal(v, &mut text);
    assert(text@ =~= decimal(v as nat));
    text
}

/// `total_secs` as minutes and seconds, `MM:SS`; more than 99 minutes show as 99.
pub open spec fn clock_text(total_secs: u32) -> Seq<u8> {
    let minutes = if total_secs / 60 > 99 {
        99
    } else {
        total_secs / 60
    };
    let seconds = total_secs % 60;
    seq![
        (DIGIT_ZERO + minutes / 10) as u8,
        (DIGIT_ZERO + minutes % 10) as u8,
        COLON,
        (DIGIT_ZERO + seconds / 10) as u8,
        (DIGIT_ZERO + seconds % 10) as u8,
    ]
}

/// A number of seconds as ASCII text `MM:SS`.
pub fn mmss_to_str(total_secs: u32) -> (text: Vec<u8>)
    ensures
        text@ == clock_text(total_secs),
{
    let minutes = if total_secs / 60 > 99 {
        99
    } else {
        total_secs / 60
    };
    let seconds = total_secs % 60;
    let mut text: Vec<u8> = Vec::new();
    text.push(DIGIT_ZERO + (minutes / 10) as u8);
    text.push(DIGIT_ZERO + (minutes % 10) as u8);
    text.push(COLON);
    text.push(DIGIT_ZERO + (seconds / 10) as u8);
    text.push(DIGIT_ZERO + (seconds % 10) as u8);
    assert(text@ =~= clock_text(total_secs));
    text
}

/// Whole seconds that a timer of `ticks` ticks still shows: any started second counts.
pub open spec fn seconds_shown(ticks: u32) -> u32 {
    ((ticks + TICKS_PER_SECOND - 1) / (TICKS_PER_SECOND as int)) as u32
}

/// Whole seconds that a timer still shows.
pub fn seconds_left(ticks: u32) -> (secs: u32)
    ensures
        secs == seconds_shown(ticks),
{
    ticks / TICKS_PER_SECOND + if ticks % TICKS_PER_SECOND > 0 {
        1
    } else {
        0
    }
}

/// Whether an invulnerable player is drawn this tick: it blinks, four ticks on, four off.
pub fn blink_visible(invuln_timer: u32) -> (visible: bool)
    ensures
        visible == (invuln_timer == 0 || (invuln_timer / 4) % 2 == 0),
{
    invuln_timer == 0 || (invuln_timer / 4) % 2 == 0
}

/// The first of the first `upto` players that takes part and has reached
/// the kill target; `fallback` if there is none.
pub open spec fn winner_among(w: World, upto: int, fallback: int) -> int
    decreases upto,
{
    if upto <= 0 {
        fallback
    } else {
        let earlier = winner_among(w, upto - 1, -1);
        if earlier >= 0 {
            earlier
        } else if w.players[upto - 1].active && w.players[upto - 1].kills
            >= w.config.kill_target() {
            upto - 1
        } else {
            fallback
        }
    }
}

/// The player to show as winner: the first that takes part and has
/// reached the kill target, else the recorded winner.
pub fn winner_index(sim: &Simulation) -> (winner: usize)
    requires
        sim.state.winner_idx < MAX_PLAYERS,
    ensures
        winner < MAX_PLAYERS,
        winner == winner_among(sim@, MAX_PLAYERS as int, sim.state.winner_idx as int),
{
    let target = if sim.config.kills_to_win < 1 {
        1
    } else {
        sim.config.kills_to_win
    };
    let mut i: usize = 0;
    while i < MAX_PLAYERS
        invariant
            i <= MAX_PLAYERS,
            target == sim@.config.kill_target(),
            winner_among(sim@, i as int, -1) == -1,
        decreases MAX_PLAYERS - i,
    {
        if sim.players[i].active && sim.players[i].kills >= target {
            assert(winner_among(sim@, i as int + 1, -1) == i);
            proof {
                lemma_winner_found(sim@, i as int + 1, MAX_PLAYERS as int, sim.state.winner_idx as int);
            }
            return i;
        }
        i = i + 1;
    }
    proof {
        lemma_winner_fallback(sim@, MAX_PLAYERS as int, sim.state.winner_idx as int);
    }
    sim.state.winner_idx as usize
}

proof fn lemma_winner_found(w: World, found: int, upto: int, fallback: int)
    requires
        0 < found <= upto,
        winner_among(w, found, -1) >= 0,
    ensures
        winner_among(w, upto, fallback) == winner_among(w, found, -1),
    decreases upto - found,
{
    if found < upto {
        lemma_winner_found(w, found, upto - 1, -1);
    } else {
        lemma_winner_fallback_free(w, found, fallback);
    }
}

proof fn lemma_winner_fallback_free(w: World, upto: int, fallback: int)
    requires
        0 < upto,
        winner_among(w, upto, -1) >= 0,
    ensures
        winner_among(w, upto, fallback) == winner_among(w, upto, -1),
{
}

proof fn lemma_winner_fallback(w: World, upto: int, fallback: int)
    requires
        0 <= upto,
        winner_among(w, upto, -1) == -1,
    ensures
        winner_among(w, upto, fallback) == fallback,
{
}

} // verus!
