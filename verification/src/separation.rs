//! Play and picture are kept apart: what the simulation keeps for sound
//! and picture alone (the cues, the impact flash, the deflect popup and the
//! screen fade) is written by play and never read by it.

use vstd::prelude::*;
use crate::combat::{
    attacker_swung, bullet_met_player, bullet_met_players, bullet_stepped, bullets_stepped,
    bullets_updated, flown, hit_feedback, melee_hits_updated, melee_met_player, melee_resolved,
    melee_swept, out_of_field, point_hits_platform, spent, BULLET_HIT_FREEZE, MAX_BULLETS,
    MELEE_HIT_FREEZE, TRAIL_INTERVAL,
};
use crate::flow::{
    bullets_cleared, countdown_ticked, cursor_moved, demo_roster, final_ko_ticked, first_pad,
    first_stage, gameplay_ticked, host_readied, lobby_ticked, match_end_ticked, match_reset,
    menu_pad, next_stage, paused_ticked, players_updated_from, playing_ticked, ready_toggled,
    roster_set, round_clock_advanced, round_reset, round_ticked, scores_wiped, setting_changed,
    tick_started, ticked, title_ticked, LOBBY_ROWS, PAUSE_ROWS,
};
use crate::game_state::{next_count, GameState, TransitionPhase};
use crate::player::{
    before_move, controls_of, controls_read, fall_resolved, fate_resolved, hits_wall, jump_resolved,
    kill_resolved, melee_advanced, moved, nearest_rival, player_spawned, player_updated,
    players_spawned, players_spawned_from, preferred_slot, respawn_position, respawn_ticked,
    safest_place, shot_resolved, steered, threat_distance, wall_jump_resolved, wall_slide_marked,
    Controls, MAX_PLAYERS,
};
use crate::stage::{platforms_advanced, stage_set_up};
use crate::world::{Cue, Pad, TickInput, World};

verus! {

/// The world without what is kept for sound and picture alone: the cues,
/// the impact flash, the deflect popup and the screen fade.
pub open spec fn play_of(w: World) -> World {
    World {
        cues: Seq::empty(),
        impact_flash: 0,
        deflect_popup_ticks: 0,
        deflect_player: 0,
        transition_phase: TransitionPhase::Idle,
        transition_progress: 0,
        ..w
    }
}

/// Two worlds in which the same is in play.
pub open spec fn same_play(a: World, b: World) -> bool {
    play_of(a) == play_of(b)
}

/// A kill depends on nothing that is kept for sound and picture.
pub proof fn lemma_kill_ignores_picture(w: World, victim: int, killer: int)
    ensures
        same_play(kill_resolved(w, victim, killer), kill_resolved(play_of(w), victim, killer)),
{
}

/// A bullet that meets a player depends on nothing that is kept for sound and picture.
#[verifier::rlimit(50)]
pub proof fn lemma_meeting_ignores_picture(w: World, b: int, i: int)
    ensures
        same_play(bullet_met_player(w, b, i), bullet_met_player(play_of(w), b, i)),
{
    let bullet = w.bullets[b];
    let p = w.players[i];
    let c = Cue::BulletHit { victim: i as u32, x: p.center_x() as i64, y: p.center_y() as i64 };
    let a1 = hit_feedback(w, BULLET_HIT_FREEZE, c);
    let b1 = hit_feedback(play_of(w), BULLET_HIT_FREEZE, c);
    assert(same_play(a1, b1));
    lemma_kill_ignores_picture(a1, i, bullet.owner as int);
    lemma_kill_ignores_picture(b1, i, bullet.owner as int);
}

/// Worlds in which the same is in play stay so where the same bullet
/// meets the same players.
#[verifier::rlimit(50)]
pub proof fn lemma_meetings_keep_same_play(a: World, z: World, b: int, i: int)
    requires
        same_play(a, z),
    ensures
        same_play(bullet_met_players(a, b, i), bullet_met_players(z, b, i)),
    decreases MAX_PLAYERS - i,
{
    assert(a.bullets == z.bullets) by {
        assert(play_of(a).bullets == play_of(z).bullets);
    }
    if 0 <= i < MAX_PLAYERS && a.bullets[b].active {
        lemma_meeting_ignores_picture(a, b, i);
        lemma_meeting_ignores_picture(z, b, i);
        lemma_meetings_keep_same_play(bullet_met_player(a, b, i), bullet_met_player(z, b, i), b, i + 1);
    }
}

/// Worlds in which the same is in play agree on all that is in play.
pub proof fn lemma_same_play(a: World, z: World)
    requires
        same_play(a, z),
    ensures
        a.players == z.players,
        a.bullets == z.bullets,
        a.platforms == z.platforms,
        a.has_pit == z.has_pit,
        a.pit_y == z.pit_y,
        a.state == z.state,
        a.config == z.config,
        a.options == z.options,
        a.tick == z.tick,
        a.round_number == z.round_number,
        a.title_idle_ticks == z.title_idle_ticks,
        a.match_end_tick == z.match_end_tick,
        a.pause_page == z.pause_page,
        a.pause_index == z.pause_index,
        a.lobby_index == z.lobby_index,
        a.hit_freeze == z.hit_freeze,
{
    assert(play_of(a).players == play_of(z).players);
    assert(play_of(a).bullets == play_of(z).bullets);
    assert(play_of(a).platforms == play_of(z).platforms);
    assert(play_of(a).state == play_of(z).state);
    assert(play_of(a).config == play_of(z).config);
    assert(play_of(a).options == play_of(z).options);
}

/// Worlds in which the same is in play stay so through the tick of a bullet.
#[verifier::rlimit(50)]
pub proof fn lemma_bullet_keeps_same_play(a: World, z: World, b: int)
    requires
        same_play(a, z),
    ensures
        same_play(bullet_stepped(a, b), bullet_stepped(z, b)),
{
    lemma_same_play(a, z);
    let bullet = a.bullets[b];
    if bullet.active {
        let m = flown(bullet);
        let trail = Cue::BulletTrail { x: m.x, y: m.y };
        let a1 = if bullet.lifetime % TRAIL_INTERVAL == 0 {
            a.cue(trail)
        } else {
            a
        };
        let z1 = if bullet.lifetime % TRAIL_INTERVAL == 0 {
            z.cue(trail)
        } else {
            z
        };
        assert(same_play(a1, z1));
        if m.lifetime == 0 || out_of_field(m) || point_hits_platform(
            a.platforms,
            m.x as int,
            m.y as int,
        ) {
            assert(same_play(a1.with_bullet(b, spent(m)), z1.with_bullet(b, spent(m))));
        } else {
            assert(same_play(a1.with_bullet(b, m), z1.with_bullet(b, m)));
            lemma_meetings_keep_same_play(a1.with_bullet(b, m), z1.with_bullet(b, m), b, 0);
        }
    }
}

/// Worlds in which the same is in play stay so through the update of the bullets.
pub proof fn lemma_bullets_keep_same_play(a: World, z: World, from: int)
    requires
        same_play(a, z),
    ensures
        same_play(bullets_stepped(a, from), bullets_stepped(z, from)),
    decreases MAX_BULLETS - from,
{
    if 0 <= from < MAX_BULLETS {
        lemma_bullet_keeps_same_play(a, z, from);
        lemma_bullets_keep_same_play(bullet_stepped(a, from), bullet_stepped(z, from), from + 1);
    }
}

/// Worlds in which the same is in play stay so where a swing meets a player.
#[verifier::rlimit(50)]
pub proof fn lemma_swing_keeps_same_play(a: World, z: World, attacker: int, t: int)
    requires
        same_play(a, z),
    ensures
        same_play(melee_met_player(a, attacker, t), melee_met_player(z, attacker, t)),
{
    lemma_same_play(a, z);
    let p = a.players[t];
    let c = Cue::MeleeHit { victim: t as u32, x: p.center_x() as i64, y: p.center_y() as i64 };
    let a1 = hit_feedback(a, MELEE_HIT_FREEZE, c);
    let z1 = hit_feedback(z, MELEE_HIT_FREEZE, c);
    assert(same_play(a1, z1));
    lemma_kill_ignores_picture(a1, t, attacker);
    lemma_kill_ignores_picture(z1, t, attacker);
}

/// Worlds in which the same is in play stay so through a swing.
pub proof fn lemma_sweep_keeps_same_play(a: World, z: World, attacker: int, t: int)
    requires
        same_play(a, z),
    ensures
        same_play(melee_swept(a, attacker, t), melee_swept(z, attacker, t)),
    decreases MAX_PLAYERS - t,
{
    if 0 <= t < MAX_PLAYERS {
        lemma_swing_keeps_same_play(a, z, attacker, t);
        lemma_sweep_keeps_same_play(
            melee_met_player(a, attacker, t),
            melee_met_player(z, attacker, t),
            attacker,
            t + 1,
        );
    }
}

/// Worlds in which the same is in play stay so through the melee hits.
pub proof fn lemma_melee_keeps_same_play(a: World, z: World, attacker: int)
    requires
        same_play(a, z),
    ensures
        same_play(melee_resolved(a, attacker), melee_resolved(z, attacker)),
    decreases MAX_PLAYERS - attacker,
{
    if 0 <= attacker < MAX_PLAYERS {
        lemma_same_play(a, z);
        lemma_sweep_keeps_same_play(a, z, attacker, 0);
        lemma_melee_keeps_same_play(
            attacker_swung(a, attacker),
            attacker_swung(z, attacker),
            attacker + 1,
        );
    }
}

/// Worlds in which the same is in play agree on where a player respawns.
pub proof fn lemma_same_respawn(a: World, z: World, me: int)
    requires
        same_play(a, z),
    ensures
        respawn_position(a, me) == respawn_position(z, me),
{
    lemma_same_play(a, z);
    assert(preferred_slot(a, me) == preferred_slot(z, me));
    lemma_same_safest_place(a, z, me, 4);
}

/// Worlds in which the same is in play agree on the safest place of the rotation.
pub proof fn lemma_same_safest_place(a: World, z: World, me: int, upto: int)
    requires
        same_play(a, z),
    ensures
        safest_place(a, me, upto) == safest_place(z, me, upto),
    decreases upto,
{
    lemma_same_play(a, z);
    assert(preferred_slot(a, me) == preferred_slot(z, me));
    assert forall|slot: int| threat_distance(a, me, slot) == threat_distance(z, me, slot) by {}
    if upto > 1 {
        lemma_same_safest_place(a, z, me, upto - 1);
    }
}

/// Worlds in which the same is in play stay so through all that a living
/// player does before it moves.
#[verifier::rlimit(50)]
pub proof fn lemma_before_move_keeps_same_play(a: World, z: World, idx: int, c: Controls)
    requires
        same_play(a, z),
    ensures
        same_play(before_move(a, idx, c), before_move(z, idx, c)),
{
    lemma_same_play(a, z);
    let a1 = steered(a, idx, c);
    let z1 = steered(z, idx, c);
    assert(same_play(a1, z1));
    lemma_same_play(a1, z1);
    let a2 = jump_resolved(a1, idx);
    let z2 = jump_resolved(z1, idx);
    assert(same_play(a2, z2));
    lemma_same_play(a2, z2);
    let a3 = wall_jump_resolved(a2, idx, c);
    let z3 = wall_jump_resolved(z2, idx, c);
    assert(same_play(a3, z3));
    lemma_same_play(a3, z3);
    let a4 = wall_slide_marked(a3, idx);
    let z4 = wall_slide_marked(z3, idx);
    assert(same_play(a4, z4));
    lemma_same_play(a4, z4);
    let a5 = fall_resolved(a4, idx, c);
    let z5 = fall_resolved(z4, idx, c);
    assert(same_play(a5, z5));
    lemma_same_play(a5, z5);
    let a6 = shot_resolved(a5, idx, c);
    let z6 = shot_resolved(z5, idx, c);
    assert(same_play(a6, z6));
    lemma_same_play(a6, z6);
    let a7 = melee_advanced(a6, idx, c);
    let z7 = melee_advanced(z6, idx, c);
    assert(same_play(a7, z7));
    assert(a7 == before_move(a, idx, c));
    assert(z7 == before_move(z, idx, c));
}

/// Worlds in which the same is in play stay so through the tick of a player.
#[verifier::rlimit(50)]
pub proof fn lemma_player_keeps_same_play(a: World, z: World, idx: int, pad: Pad)
    requires
        same_play(a, z),
    ensures
        same_play(player_updated(a, idx, pad), player_updated(z, idx, pad)),
{
    lemma_same_play(a, z);
    let p = a.players[idx];
    if p.active && p.dead {
        lemma_same_respawn(a, z, idx);
        assert(same_play(respawn_ticked(a, idx), respawn_ticked(z, idx)));
    } else if p.active {
        let c = controls_of(a, idx, pad);
        assert(c == controls_of(z, idx, pad));
        let a0 = controls_read(a, idx);
        let z0 = controls_read(z, idx);
        assert(same_play(a0, z0));
        lemma_before_move_keeps_same_play(a0, z0, idx, c);
        let a1 = before_move(a0, idx, c);
        let z1 = before_move(z0, idx, c);
        lemma_same_play(a1, z1);
        let a2 = moved(a1, idx);
        let z2 = moved(z1, idx);
        assert(same_play(a2, z2));
        lemma_same_play(a2, z2);
        let hit = hits_wall(a1, idx);
        assert(hit == hits_wall(z1, idx));
        lemma_fate_keeps_same_play(a2, z2, idx, hit);
        assert(player_updated(a, idx, pad) == fate_resolved(a2, idx, hit));
        assert(player_updated(z, idx, pad) == fate_resolved(z2, idx, hit));
    }
}

/// Worlds in which the same is in play stay so where the fate of a player is settled.
pub proof fn lemma_fate_keeps_same_play(a: World, z: World, idx: int, hit_wall: bool)
    requires
        same_play(a, z),
    ensures
        same_play(fate_resolved(a, idx, hit_wall), fate_resolved(z, idx, hit_wall)),
{
    lemma_same_play(a, z);
    let killer = nearest_rival(a, idx);
    assert(killer == nearest_rival(z, idx));
    lemma_kill_ignores_picture(a, idx, killer);
    lemma_kill_ignores_picture(z, idx, killer);
    lemma_kill_ignores_picture(a, idx, idx);
    lemma_kill_ignores_picture(z, idx, idx);
}

/// Worlds in which the same is in play stay so through the ticks of the players.
pub proof fn lemma_players_keep_same_play(a: World, z: World, pads: Seq<Pad>, from: int)
    requires
        same_play(a, z),
    ensures
        same_play(players_updated_from(a, pads, from), players_updated_from(z, pads, from)),
    decreases MAX_PLAYERS - from,
{
    if 0 <= from < MAX_PLAYERS {
        lemma_player_keeps_same_play(a, z, from, pads[from]);
        lemma_players_keep_same_play(
            player_updated(a, from, pads[from]),
            player_updated(z, from, pads[from]),
            pads,
            from + 1,
        );
    }
}

/// Worlds in which the same is in play stay so where the players are spawned.
pub proof fn lemma_spawn_keeps_same_play(a: World, z: World, from: int)
    requires
        same_play(a, z),
    ensures
        same_play(players_spawned_from(a, from), players_spawned_from(z, from)),
    decreases MAX_PLAYERS - from,
{
    if 0 <= from < MAX_PLAYERS {
        lemma_same_play(a, z);
        assert(same_play(player_spawned(a, from), player_spawned(z, from)));
        lemma_spawn_keeps_same_play(player_spawned(a, from), player_spawned(z, from), from + 1);
    }
}

/// Worlds in which the same is in play stay so where a round is reset.
#[verifier::rlimit(50)]
pub proof fn lemma_round_reset_keeps_same_play(a: World, z: World)
    requires
        same_play(a, z),
    ensures
        same_play(round_reset(a), round_reset(z)),
{
    lemma_same_play(a, z);
    let a1 = (World { bullets: bullets_cleared(a.bullets), ..a }).cue(Cue::ClearParticles);
    let z1 = (World { bullets: bullets_cleared(z.bullets), ..z }).cue(Cue::ClearParticles);
    assert(same_play(a1, z1));
    lemma_same_play(a1, z1);
    assert(same_play(stage_set_up(a1), stage_set_up(z1)));
    lemma_spawn_keeps_same_play(stage_set_up(a1), stage_set_up(z1), 0);
    lemma_same_play(players_spawned(stage_set_up(a1)), players_spawned(stage_set_up(z1)));
}

/// Worlds in which the same is in play stay so where a match is reset.
#[verifier::rlimit(50)]
pub proof fn lemma_match_reset_keeps_same_play(a: World, z: World, random: u32)
    requires
        same_play(a, z),
    ensures
        same_play(match_reset(a, random), match_reset(z, random)),
{
    lemma_same_play(a, z);
    let fresh = |w: World|
        World {
            players: scores_wiped(w.players),
            round_number: 1,
            state: GameState {
                current_stage: first_stage(w.config.stage_select, random),
                winner_idx: 0,
                final_ko_timer: 0,
                ..w.state
            },
            ..w
        };
    assert(same_play(fresh(a), fresh(z)));
    lemma_round_reset_keeps_same_play(fresh(a), fresh(z));
}

/// Worlds in which the same is in play stay so through the clocks of a round.
#[verifier::rlimit(50)]
pub proof fn lemma_round_keeps_same_play(a: World, z: World, random: u32)
    requires
        same_play(a, z),
    ensures
        same_play(round_ticked(a, random), round_ticked(z, random)),
{
    lemma_same_play(a, z);
    let a5 = World { state: round_clock_advanced(a.state, a.config), ..a };
    let z5 = World { state: round_clock_advanced(z.state, z.config), ..z };
    assert(same_play(a5, z5));
    let next = |w: World|
        World {
            round_number: next_count(w.round_number),
            state: GameState {
                current_stage: next_stage(w.config.stage_select, w.state.current_stage, random),
                ..w.state
            },
            ..w
        };
    assert(same_play(next(a5), next(z5)));
    lemma_round_reset_keeps_same_play(next(a5), next(z5));
}

/// Worlds in which the same is in play stay so through a tick of gameplay.
#[verifier::rlimit(50)]
pub proof fn lemma_gameplay_keeps_same_play(a: World, z: World, input: TickInput)
    requires
        same_play(a, z),
    ensures
        same_play(gameplay_ticked(a, input), gameplay_ticked(z, input)),
{
    lemma_same_play(a, z);
    let a1 = platforms_advanced(a);
    let z1 = platforms_advanced(z);
    assert(same_play(a1, z1));
    lemma_players_keep_same_play(a1, z1, input.pads@, 0);
    let a2 = players_updated_from(a1, input.pads@, 0);
    let z2 = players_updated_from(z1, input.pads@, 0);
    lemma_bullets_keep_same_play(a2, z2, 0);
    let a3 = bullets_updated(a2);
    let z3 = bullets_updated(z2);
    lemma_melee_keeps_same_play(a3, z3, 0);
    let a4 = melee_hits_updated(a3);
    let z4 = melee_hits_updated(z3);
    lemma_round_keeps_same_play(a4, z4, input.random);
}

/// Worlds in which the same is in play stay so through the tick of each phase.
#[verifier::rlimit(50)]
pub proof fn lemma_phases_keep_same_play(a: World, z: World, input: TickInput)
    requires
        same_play(a, z),
    ensures
        same_play(title_ticked(a, input), title_ticked(z, input)),
        same_play(lobby_ticked(a, input), lobby_ticked(z, input)),
        same_play(countdown_ticked(a, input), countdown_ticked(z, input)),
        same_play(playing_ticked(a, input), playing_ticked(z, input)),
        same_play(paused_ticked(a, input), paused_ticked(z, input)),
        same_play(final_ko_ticked(a), final_ko_ticked(z)),
        same_play(match_end_ticked(a, input), match_end_ticked(z, input)),
{
    lemma_same_play(a, z);
    lemma_title_keeps_same_play(a, z, input);
    lemma_lobby_keeps_same_play(a, z, input);
    assert(same_play(countdown_ticked(a, input), countdown_ticked(z, input))) by {
        reveal(countdown_ticked);
    }
    assert(same_play(playing_ticked(a, input), playing_ticked(z, input))) by {
        reveal(playing_ticked);
        lemma_gameplay_keeps_same_play(a, z, input);
    }
    lemma_paused_keeps_same_play(a, z, input);
    assert(same_play(final_ko_ticked(a), final_ko_ticked(z))) by {
        reveal(final_ko_ticked);
    }
    lemma_match_end_keeps_same_play(a, z, input);
}

/// Worlds in which the same is in play stay so through a tick of the title screen.
#[verifier::rlimit(50)]
pub proof fn lemma_title_keeps_same_play(a: World, z: World, input: TickInput)
    requires
        same_play(a, z),
    ensures
        same_play(title_ticked(a, input), title_ticked(z, input)),
{
    reveal(title_ticked);
    lemma_same_play(a, z);
    let demo = |w: World|
        World {
            players: demo_roster(w.players),
            state: GameState { demo_mode: true, ..w.state },
            title_idle_ticks: 0,
            ..w
        };
    assert(same_play(demo(a), demo(z)));
    lemma_match_reset_keeps_same_play(demo(a), demo(z), input.random);
}

/// Worlds in which the same is in play stay so through a tick of the lobby.
#[verifier::rlimit(50)]
pub proof fn lemma_lobby_keeps_same_play(a: World, z: World, input: TickInput)
    requires
        same_play(a, z),
    ensures
        same_play(lobby_ticked(a, input), lobby_ticked(z, input)),
{
    reveal(lobby_ticked);
    lemma_same_play(a, z);
    let host = first_pad(input);
    let row = cursor_moved(a.lobby_index, LOBBY_ROWS, host);
    let joined = |w: World|
        World {
            players: ready_toggled(w.players, input),
            lobby_index: row,
            config: setting_changed(w.config, row, host),
            ..w
        };
    assert(same_play(joined(a), joined(z)));
    let a1 = joined(a);
    let z1 = joined(z);
    let players = host_readied(a1.players, input);
    let begun = |w: World| World { players: roster_set(players, w.config, input), ..w };
    assert(same_play(begun(a1), begun(z1)));
    lemma_match_reset_keeps_same_play(begun(a1), begun(z1), input.random);
}

/// Worlds in which the same is in play stay so through a tick of the pause menu.
#[verifier::rlimit(50)]
pub proof fn lemma_paused_keeps_same_play(a: World, z: World, input: TickInput)
    requires
        same_play(a, z),
    ensures
        same_play(paused_ticked(a, input), paused_ticked(z, input)),
{
    reveal(paused_ticked);
    lemma_same_play(a, z);
    let pad = menu_pad(input);
    let row = cursor_moved(a.pause_index, PAUSE_ROWS, pad);
    let a1 = World { pause_index: row, ..a };
    let z1 = World { pause_index: row, ..z };
    assert(same_play(a1, z1));
    lemma_match_reset_keeps_same_play(a1, z1, input.random);
    lemma_round_reset_keeps_same_play(a1, z1);
}

/// Worlds in which the same is in play stay so through a tick of the match-end screen.
#[verifier::rlimit(50)]
pub proof fn lemma_match_end_keeps_same_play(a: World, z: World, input: TickInput)
    requires
        same_play(a, z),
    ensures
        same_play(match_end_ticked(a, input), match_end_ticked(z, input)),
{
    reveal(match_end_ticked);
    lemma_same_play(a, z);
    let a1 = World { match_end_tick: next_count(a.match_end_tick), ..a };
    let z1 = World { match_end_tick: next_count(z.match_end_tick), ..z };
    assert(same_play(a1, z1));
    lemma_match_reset_keeps_same_play(a1, z1, input.random);
}

/// Nothing that is kept for sound and picture flows back into play: two
/// worlds that differ in cues, impact flash, deflect popup and screen fade
/// alone differ in nothing else after a tick on the same input, and so
/// after any number of ticks.
#[verifier::rlimit(50)]
pub proof fn lemma_picture_does_not_flow_back(a: World, z: World, input: TickInput)
    requires
        same_play(a, z),
    ensures
        same_play(ticked(a, input), ticked(z, input)),
{
    lemma_same_play(a, z);
    let a1 = tick_started(a);
    let z1 = tick_started(z);
    assert(same_play(a1, z1));
    lemma_phases_keep_same_play(a1, z1, input);
    lemma_same_play(a1, z1);
}

/// Cues are output only: whatever cues are left in the simulation from
/// earlier ticks, performed or not, the next tick gives the same world.
pub proof fn lemma_cues_do_not_flow_back(w: World, cues: Seq<Cue>, input: TickInput)
    ensures
        ticked(World { cues, ..w }, input) == ticked(w, input),
{
    assert(tick_started(World { cues, ..w }) == tick_started(w));
}

} // verus!
