//! What holds of the simulation in general, proved from the definitions
//! that the contracts of the library are stated in.

use vstd::prelude::*;
use crate::combat::{
    aim_axis, attacker_swung, bullet_deflected, bullet_met_player, bullet_met_players,
    bullet_spawned, bullet_stepped, bullet_struck, bullets_stepped, bullets_updated, deflected,
    fired_bullet, first_free, flown, hit_feedback, in_melee_reach, lemma_first_free,
    melee_hits_updated, melee_met_player, melee_resolved, melee_swept, out_of_field,
    point_hits_platform, point_in_box, spent, Bullet, BULLET_HIT_FREEZE, BULLET_LIFETIME,
    BULLET_SPEED, BULLET_SPEED_DIAGONAL, MAX_BULLETS, TRAIL_INTERVAL,
};
use crate::fixed::{in_world, SPEED_LIMIT};
use crate::flow::{
    arena_shrunk, bot_fill, bullets_cleared, connected, countdown_ticked, cursor_moved, demo_roster,
    final_ko_ticked, first_pad, first_stage, gameplay_ticked, host_readied, lobby_ticked,
    match_end_ticked, match_reset, menu_pad, next_stage, paused_ticked, players_updated_from,
    playing_ticked, ready_count, ready_toggled, roster_set, round_clock_advanced, round_reset,
    round_ticked, scores_wiped, setting_changed, start_tried, tick_started, ticked, title_ticked,
    LOBBY_ROWS, PAUSE_ROWS,
};
use crate::game_state::{
    next_count, GamePhase, GameState, ARENA_MIN_WIDTH, FINAL_KO_TICKS, NUM_STAGES, ROUND_END_TICKS,
    STAGE_SELECT_ROTATE,
};
use crate::player::{
    before_move, can_shoot, controls_of, controls_read, fall_resolved, fall_speed, fate_resolved,
    footing_after, footing_of, hits_wall, jump_resolved, kill_resolved, lemma_nearest_rival,
    melee_advanced, melee_ticked, moved, nearest_rival, one_more_kill, player_acted, player_spawned,
    player_updated, players_spawned_from, rival_distance, run_speed, shot_resolved, steered,
    stepped_onto, wall_jump_resolved, wall_slide_marked, Controls, Footing, Player, GRAVITY,
    MAX_PLAYERS, MOVE_SPEED, PLAYER_HEIGHT, PLAYER_WIDTH, RESPAWN_DELAY,
};
use crate::stage::{platforms_advanced, stage_set_up, Platform};
use crate::world::{Cue, Pad, TickInput, World};

verus! {

/// Player `j` was alive in `before` and is dead in `after`.
pub open spec fn died_between(before: World, after: World, j: int) -> bool {
    !before.players[j].dead && after.players[j].dead
}

/// A kill changes who is dead for the victim alone and adds at most one
/// kill to the killer's score alone; it moves nobody, takes nobody's ammo,
/// ends nobody's swing, and leaves the bullets, platforms and rules as
/// they are.
#[verifier::rlimit(50)]
pub proof fn lemma_kill_touches_victim_only(w: World, victim: int, killer: int)
    requires
        w.wf(),
        0 <= victim < MAX_PLAYERS,
        0 <= killer < MAX_PLAYERS,
    ensures
        ({
            let after = kill_resolved(w, victim, killer);
            &&& after.wf()
            &&& after.players[victim].dead
            &&& forall|j: int|
                0 <= j < MAX_PLAYERS && j != victim ==> (#[trigger] after.players[j]).dead
                    == w.players[j].dead
            &&& forall|j: int|
                0 <= j < MAX_PLAYERS ==> {
                    let p = w.players[j];
                    let q = #[trigger] after.players[j];
                    q.x == p.x && q.y == p.y && q.vx == p.vx && q.vy == p.vy && q.ammo == p.ammo
                        && q.melee_timer == p.melee_timer && q.active == p.active
                }
            &&& forall|j: int|
                0 <= j < MAX_PLAYERS && j != killer ==> (#[trigger] after.players[j]).kills
                    == w.players[j].kills
            &&& w.players[killer].kills <= after.players[killer].kills <= w.players[killer].kills
                + 1
            &&& w.players[victim].dead ==> after == w
            &&& after.bullets == w.bullets
            &&& after.platforms == w.platforms
            &&& after.config == w.config
        }),
{
}

/// Killing a player a second time changes nothing: whoever is named as
/// the killer, a victim that is already dead leaves the world as it is,
/// so no kill is scored twice.
pub proof fn lemma_kill_is_idempotent(w: World, victim: int, killer: int, again: int)
    requires
        w.wf(),
        0 <= victim < MAX_PLAYERS,
        0 <= killer < MAX_PLAYERS,
        0 <= again < MAX_PLAYERS,
    ensures
        w.players[victim].dead ==> kill_resolved(w, victim, killer) == w,
        kill_resolved(kill_resolved(w, victim, killer), victim, again) == kill_resolved(
            w,
            victim,
            killer,
        ),
{
    lemma_kill_touches_victim_only(w, victim, killer);
}

/// The final-KO hold is entered exactly once.  The first kill that brings
/// a killer's score to the kill target enters the hold, names that killer
/// as the winner and starts the timer of the hold; no kill ever enters the
/// match-end phase; and a kill during the hold leaves the state of the
/// match, the winner and the timer included, and the hit freeze as they
/// are, raising no cue but the death.
#[verifier::rlimit(50)]
pub proof fn lemma_winning_kill(w: World, victim: int, killer: int)
    requires
        w.wf(),
        0 <= victim < MAX_PLAYERS,
        0 <= killer < MAX_PLAYERS,
    ensures
        ({
            let after = kill_resolved(w, victim, killer);
            let p = w.players[victim];
            &&& (!p.dead && killer != victim && w.state.phase != GamePhase::FinalKo
                && one_more_kill(w.players[killer].kills) >= w.config.kill_target())
                ==> after.state.phase == GamePhase::FinalKo && after.state.winner_idx == killer
                && after.state.final_ko_timer == FINAL_KO_TICKS && after.state.round_end_timer
                == 0
            &&& after.state.phase == w.state.phase || after.state.phase == GamePhase::FinalKo
            &&& after.state.phase == GamePhase::FinalKo && w.state.phase != GamePhase::FinalKo
                ==> after.players[killer].kills >= w.config.kill_target()
            &&& w.state.phase == GamePhase::FinalKo ==> after.state == w.state && after.hit_freeze
                == w.hit_freeze && (after.cues == w.cues || after.cues == w.cues.push(
                Cue::Death { victim: victim as u32, x: p.center_x() as i64, y: p.center_y() as i64 },
            ))
        }),
{
}

/// What a kill in play scores: the killer has one kill more and nobody
/// else's score changes; the victim is dead and waits `RESPAWN_DELAY`
/// ticks; the final-KO hold is entered exactly if the new score reaches
/// the kill target, with the killer as winner, and otherwise play goes on
/// into the pause before the next round.
#[verifier::rlimit(50)]
pub proof fn lemma_kill_scores(w: World, victim: int, killer: int)
    requires
        w.wf(),
        0 <= victim < MAX_PLAYERS,
        0 <= killer < MAX_PLAYERS,
        killer != victim,
        !w.players[victim].dead,
        w.state.phase == GamePhase::Playing,
        w.players[killer].kills < u32::MAX,
    ensures
        ({
            let after = kill_resolved(w, victim, killer);
            let score = w.players[killer].kills + 1;
            &&& after.players[killer].kills == score
            &&& forall|j: int|
                0 <= j < MAX_PLAYERS && j != killer ==> (#[trigger] after.players[j]).kills
                    == w.players[j].kills
            &&& after.players[victim].dead
            &&& after.players[victim].respawn_timer == RESPAWN_DELAY
            &&& after.state.phase == GamePhase::FinalKo <==> score >= w.config.kill_target()
            &&& after.state.phase == GamePhase::FinalKo || after.state.phase == GamePhase::Playing
            &&& after.state.phase == GamePhase::FinalKo ==> after.state.winner_idx == killer
                && after.state.final_ko_timer == FINAL_KO_TICKS && after.state.round_end_timer
                == 0
            &&& after.state.phase == GamePhase::Playing ==> after.state.round_end_timer
                == ROUND_END_TICKS && after.state.winner_idx == w.state.winner_idx
        }),
{
}

/// Deflection is reflection and re-ownership: a bullet that meets a
/// living player other than its owner, in active melee and with the bullet
/// within reach of the swing, flies on with its velocity negated, belongs
/// to the deflector and has its full lifetime again; nobody is killed.
pub proof fn lemma_deflection(w: World, b: int, i: int)
    requires
        w.wf(),
        0 <= b < MAX_BULLETS,
        0 <= i < MAX_PLAYERS,
        w.bullets[b].active,
        w.players[i].alive(),
        i != w.bullets[b].owner,
        w.players[i].melee_timer > 0,
        in_melee_reach(w.players[i], w.bullets[b].x as int, w.bullets[b].y as int),
    ensures
        ({
            let after = bullet_met_player(w, b, i);
            let bullet = after.bullets[b];
            &&& bullet.vx == -w.bullets[b].vx
            &&& bullet.vy == -w.bullets[b].vy
            &&& bullet.owner == i
            &&& bullet.lifetime == BULLET_LIFETIME
            &&& bullet.active
            &&& bullet.x == w.bullets[b].x
            &&& bullet.y == w.bullets[b].y
            &&& after.players == w.players
            &&& after.state == w.state
        }),
{
}

/// Number of dead players in a table of four.
pub open spec fn dead_count(players: Seq<Player>) -> int {
    (if players[0].dead {
        1int
    } else {
        0int
    }) + (if players[1].dead {
        1int
    } else {
        0int
    }) + (if players[2].dead {
        1int
    } else {
        0int
    }) + (if players[3].dead {
        1int
    } else {
        0int
    })
}

/// Sum of the scores of a table of four players.
pub open spec fn kills_total(players: Seq<Player>) -> int {
    players[0].kills + players[1].kills + players[2].kills + players[3].kills
}

/// Number of bullets in flight among the first `upto` slots.
pub open spec fn flying_among(bullets: Seq<Bullet>, upto: int) -> int
    decreases upto,
{
    if upto <= 0 {
        0
    } else {
        flying_among(bullets, upto - 1) + if bullets[upto - 1].active {
            1int
        } else {
            0int
        }
    }
}

/// Number of bullets in flight in the whole pool.
pub open spec fn flying_count(bullets: Seq<Bullet>) -> int {
    flying_among(bullets, MAX_BULLETS as int)
}

/// No player is in active melee, so that nobody can deflect a bullet.
pub open spec fn nobody_swings(w: World) -> bool {
    forall|j: int| 0 <= j < MAX_PLAYERS ==> (#[trigger] w.players[j]).melee_timer == 0
}

/// 1 if the bullet in slot `b` was in flight `before` and is spent `after`, else 0.
pub open spec fn spent_between(before: World, after: World, b: int) -> int {
    if before.bullets[b].active && !after.bullets[b].active {
        1
    } else {
        0
    }
}

/// What the play of the bullet in slot `b` may change from `before` to
/// `after`: no other bullet and no platform; nobody's swing; the dead stay
/// dead; at most one player dies, and only by a bullet that is spent in
/// the same step; and the scores grow by no more than the deaths.
pub open spec fn played_one_bullet(before: World, after: World, b: int) -> bool {
    &&& after.wf()
    &&& forall|j: int|
        0 <= j < MAX_BULLETS && j != b ==> (#[trigger] after.bullets[j]) == before.bullets[j]
    &&& after.platforms == before.platforms
    &&& forall|j: int|
        0 <= j < MAX_PLAYERS ==> (#[trigger] after.players[j]).melee_timer
            == before.players[j].melee_timer
    &&& forall|j: int|
        0 <= j < MAX_PLAYERS && before.players[j].dead ==> (#[trigger] after.players[j]).dead
    &&& after.bullets[b].active ==> before.bullets[b].active
    &&& 0 <= dead_count(after.players) - dead_count(before.players) <= spent_between(
        before,
        after,
        b,
    )
    &&& 0 <= kills_total(after.players) - kills_total(before.players) <= dead_count(after.players)
        - dead_count(before.players)
}

/// Whether player `i` deflects `bullet`: it is alive, not the owner, in
/// active melee, and the bullet is within reach of its swing.
pub open spec fn deflects(p: Player, bullet: Bullet, i: int) -> bool {
    p.alive() && i != bullet.owner && p.melee_timer > 0 && in_melee_reach(
        p,
        bullet.x as int,
        bullet.y as int,
    )
}

/// Whether `bullet` passes player `i` untouched: the player is out of the
/// match, dead or the owner, or neither deflects the bullet nor holds it
/// in its box.
pub open spec fn lets_pass(p: Player, bullet: Bullet, i: int) -> bool {
    ||| !p.alive()
    ||| i == bullet.owner
    ||| !deflects(p, bullet, i) && !point_in_box(
        bullet.x as int,
        bullet.y as int,
        p.x as int,
        p.y as int,
        PLAYER_WIDTH as int,
        PLAYER_HEIGHT as int,
    )
}

/// A bullet that passes the players from `from` up to `to` untouched
/// leaves the world as it is on its way.
pub proof fn lemma_bullet_passes(w: World, b: int, from: int, to: int)
    requires
        0 <= from <= to <= MAX_PLAYERS,
        forall|k: int| from <= k < to ==> lets_pass(#[trigger] w.players[k], w.bullets[b], k),
    ensures
        bullet_met_players(w, b, from) == bullet_met_players(w, b, to),
    decreases to - from,
{
    if from < to {
        if w.bullets[b].active {
            assert(lets_pass(w.players[from], w.bullets[b], from));
            assert(bullet_met_player(w, b, from) == w);
            lemma_bullet_passes(w, b, from + 1, to);
        }
    }
}

/// Deflection, for a bullet on its way past all players: where player `i`
/// deflects the bullet, the players before `i` let it pass and the players
/// after `i` let the deflected bullet pass, the bullet ends with its
/// velocity exactly negated, owned by `i`, with its full lifetime, still
/// in flight where it was; and nobody is hurt.
#[verifier::rlimit(50)]
pub proof fn lemma_lone_deflection(w: World, b: int, i: int)
    requires
        w.wf(),
        0 <= b < MAX_BULLETS,
        0 <= i < MAX_PLAYERS,
        w.bullets[b].active,
        deflects(w.players[i], w.bullets[b], i),
        forall|k: int| 0 <= k < i ==> lets_pass(#[trigger] w.players[k], w.bullets[b], k),
        forall|k: int|
            i < k < MAX_PLAYERS ==> lets_pass(#[trigger] w.players[k], deflected(w.bullets[b], i), k),
    ensures
        ({
            let after = bullet_met_players(w, b, 0);
            let bullet = after.bullets[b];
            &&& bullet == deflected(w.bullets[b], i)
            &&& bullet.vx == -w.bullets[b].vx
            &&& bullet.vy == -w.bullets[b].vy
            &&& bullet.owner == i
            &&& bullet.lifetime == BULLET_LIFETIME
            &&& bullet.active
            &&& bullet.x == w.bullets[b].x
            &&& bullet.y == w.bullets[b].y
            &&& after.players == w.players
            &&& after.state == w.state
        }),
{
    assert(w.bullets[b].wf());
    lemma_bullet_passes(w, b, 0, i);
    let turned = bullet_met_player(w, b, i);
    assert(turned.players == w.players);
    assert(turned.bullets[b] == deflected(w.bullets[b], i));
    assert(bullet_met_players(w, b, i) == bullet_met_players(turned, b, i + 1));
    lemma_bullet_passes(turned, b, i + 1, MAX_PLAYERS as int);
    assert(bullet_met_players(turned, b, MAX_PLAYERS as int) == turned);
}

/// Deflection, for one tick of a bullet: a bullet with more than one tick
/// to live that flies on to a place in the field and outside every
/// platform, where player `i` deflects it and every other player lets it
/// pass, ends the tick at that place with the velocity it came with
/// exactly negated, owned by `i`, with its full lifetime; and nobody is
/// hurt.
#[verifier::rlimit(50)]
pub proof fn lemma_deflection_in_flight(w: World, b: int, i: int)
    requires
        w.wf(),
        0 <= b < MAX_BULLETS,
        0 <= i < MAX_PLAYERS,
        w.bullets[b].active,
        w.bullets[b].lifetime >= 2,
        !out_of_field(flown(w.bullets[b])),
        !point_hits_platform(
            w.platforms,
            flown(w.bullets[b]).x as int,
            flown(w.bullets[b]).y as int,
        ),
        deflects(w.players[i], flown(w.bullets[b]), i),
        forall|k: int| 0 <= k < i ==> lets_pass(#[trigger] w.players[k], flown(w.bullets[b]), k),
        forall|k: int|
            i < k < MAX_PLAYERS ==> lets_pass(
                #[trigger] w.players[k],
                deflected(flown(w.bullets[b]), i),
                k,
            ),
    ensures
        ({
            let after = bullet_stepped(w, b);
            let bullet = after.bullets[b];
            &&& bullet.vx == -w.bullets[b].vx
            &&& bullet.vy == -w.bullets[b].vy
            &&& bullet.owner == i
            &&& bullet.lifetime == BULLET_LIFETIME
            &&& bullet.active
            &&& bullet.x == w.bullets[b].x + w.bullets[b].vx
            &&& bullet.y == w.bullets[b].y + w.bullets[b].vy
            &&& after.players == w.players
            &&& !after.players[i].dead
        }),
{
    let old = w.bullets[b];
    assert(old.wf());
    let m = flown(old);
    let w1 = if old.lifetime % TRAIL_INTERVAL == 0 {
        w.cue(Cue::BulletTrail { x: m.x, y: m.y })
    } else {
        w
    };
    let w2 = w1.with_bullet(b, m);
    assert(w2.players == w.players);
    assert(w2.bullets[b] == m);
    assert(m.wf());
    assert(w2.wf());
    assert(bullet_stepped(w, b) == bullet_met_players(w2, b, 0));
    lemma_lone_deflection(w2, b, i);
}

/// What a hit in play scores: the player that is hit is dead and waits
/// for its respawn, nobody else dies, the bullet is spent, and its owner,
/// if its score can still grow, has one kill more; the match enters the
/// final-KO hold with the owner as winner exactly if that score reaches
/// the kill target, and otherwise goes on.
#[verifier::rlimit(50)]
pub proof fn lemma_hit_scores(w: World, b: int, i: int)
    requires
        w.wf(),
        0 <= b < MAX_BULLETS,
        0 <= i < MAX_PLAYERS,
        w.state.phase == GamePhase::Playing,
        w.bullets[b].active,
        !w.players[i].dead,
        i != w.bullets[b].owner,
        w.players[w.bullets[b].owner as int].kills < u32::MAX,
    ensures
        ({
            let after = bullet_struck(w, b, i);
            let owner = w.bullets[b].owner as int;
            let score = w.players[owner].kills + 1;
            &&& !after.bullets[b].active
            &&& after.bullets[b].owner == owner
            &&& after.players[i].dead
            &&& after.players[i].respawn_timer == RESPAWN_DELAY
            &&& forall|j: int|
                0 <= j < MAX_PLAYERS && j != i ==> (#[trigger] after.players[j]).dead
                    == w.players[j].dead
            &&& after.players[owner].kills == score
            &&& after.state.phase == GamePhase::FinalKo <==> score >= w.config.kill_target()
            &&& after.state.phase == GamePhase::FinalKo || after.state.phase == GamePhase::Playing
            &&& after.state.phase == GamePhase::FinalKo ==> after.state.winner_idx == owner
        }),
{
    let bullet = w.bullets[b];
    let p = w.players[i];
    assert(bullet.wf());
    let w1 = hit_feedback(
        w,
        BULLET_HIT_FREEZE,
        Cue::BulletHit { victim: i as u32, x: p.center_x() as i64, y: p.center_y() as i64 },
    );
    assert(w1.players == w.players);
    assert(w1.state == w.state);
    assert(w1.config == w.config);
    assert(w1.wf());
    lemma_kill_scores(w1, i, bullet.owner as int);
    let w2 = kill_resolved(w1, i, bullet.owner as int);
    assert(bullet_struck(w, b, i) == w2.with_bullet(b, spent(bullet)));
    assert(w2.with_bullet(b, spent(bullet)).players == w2.players);
    assert(w2.with_bullet(b, spent(bullet)).state == w2.state);
}

/// A hit, for one tick of a bullet in play: a bullet with more than one
/// tick to live that flies on to a place in the field and outside every
/// platform, passes the players before `i` and enters the box of the
/// living player `i`, who is not its owner and does not deflect it, kills
/// that player and nobody else and is spent.  The owner, if its score can
/// still grow, has one kill more; the match enters the final-KO hold with
/// the owner as winner exactly if that score reaches the kill target, and
/// otherwise goes on into the pause before the next round.
#[verifier::rlimit(50)]
pub proof fn lemma_bullet_hit_kills(w: World, b: int, i: int)
    requires
        w.wf(),
        0 <= b < MAX_BULLETS,
        0 <= i < MAX_PLAYERS,
        w.state.phase == GamePhase::Playing,
        w.bullets[b].active,
        w.bullets[b].lifetime >= 2,
        !out_of_field(flown(w.bullets[b])),
        !point_hits_platform(
            w.platforms,
            flown(w.bullets[b]).x as int,
            flown(w.bullets[b]).y as int,
        ),
        forall|k: int| 0 <= k < i ==> lets_pass(#[trigger] w.players[k], flown(w.bullets[b]), k),
        w.players[i].alive(),
        i != w.bullets[b].owner,
        !deflects(w.players[i], flown(w.bullets[b]), i),
        point_in_box(
            flown(w.bullets[b]).x as int,
            flown(w.bullets[b]).y as int,
            w.players[i].x as int,
            w.players[i].y as int,
            PLAYER_WIDTH as int,
            PLAYER_HEIGHT as int,
        ),
        w.players[w.bullets[b].owner as int].kills < u32::MAX,
    ensures
        ({
            let after = bullet_stepped(w, b);
            let owner = w.bullets[b].owner as int;
            let score = w.players[owner].kills + 1;
            &&& !after.bullets[b].active
            &&& after.bullets[b].owner == owner
            &&& after.players[i].dead
            &&& after.players[i].respawn_timer == RESPAWN_DELAY
            &&& forall|j: int|
                0 <= j < MAX_PLAYERS && j != i ==> (#[trigger] after.players[j]).dead
                    == w.players[j].dead
            &&& after.players[owner].kills == score
            &&& after.state.phase == GamePhase::FinalKo <==> score >= w.config.kill_target()
            &&& after.state.phase == GamePhase::FinalKo || after.state.phase == GamePhase::Playing
            &&& after.state.phase == GamePhase::FinalKo ==> after.state.winner_idx == owner
        }),
{
    let old = w.bullets[b];
    assert(old.wf());
    let m = flown(old);
    let w1 = if old.lifetime % TRAIL_INTERVAL == 0 {
        w.cue(Cue::BulletTrail { x: m.x, y: m.y })
    } else {
        w
    };
    let w2 = w1.with_bullet(b, m);
    assert(w2.players == w.players);
    assert(w2.state == w.state);
    assert(w2.config == w.config);
    assert(w2.bullets[b] == m);
    assert(m.wf());
    assert(w2.wf());
    assert(bullet_stepped(w, b) == bullet_met_players(w2, b, 0));
    lemma_bullet_passes(w2, b, 0, i);
    let hit = bullet_struck(w2, b, i);
    assert(bullet_met_player(w2, b, i) == hit);
    lemma_hit_scores(w2, b, i);
    assert(bullet_met_players(w2, b, i) == bullet_met_players(hit, b, i + 1));
    assert(bullet_met_players(hit, b, i + 1) == hit);
}

/// A pool whose slots from `from` up to `to` are free has nothing to do there.
pub proof fn lemma_free_slots_rest(w: World, from: int, to: int)
    requires
        0 <= from <= to <= MAX_BULLETS,
        forall|j: int| from <= j < to ==> !(#[trigger] w.bullets[j]).active,
    ensures
        bullets_stepped(w, from) == bullets_stepped(w, to),
    decreases to - from,
{
    if from < to {
        assert(!w.bullets[from].active);
        assert(bullet_stepped(w, from) == w);
        lemma_free_slots_rest(w, from + 1, to);
    }
}

/// Deflection, for the update of the pool: where the bullet in slot `b`
/// is the only one in flight, the update of the bullets does to it what
/// its own tick does.
#[verifier::rlimit(50)]
pub proof fn lemma_lone_bullet(w: World, b: int)
    requires
        w.wf(),
        0 <= b < MAX_BULLETS,
        forall|j: int| 0 <= j < MAX_BULLETS && j != b ==> !(#[trigger] w.bullets[j]).active,
    ensures
        bullets_updated(w) == bullet_stepped(w, b),
{
    lemma_free_slots_rest(w, 0, b);
    let mid = bullet_stepped(w, b);
    lemma_bullet_step(w, b);
    assert(bullets_stepped(w, b) == bullets_stepped(mid, b + 1));
    assert forall|j: int| b + 1 <= j < MAX_BULLETS implies !(#[trigger] mid.bullets[j]).active by {
        assert(mid.bullets[j] == w.bullets[j]);
    }
    lemma_free_slots_rest(mid, b + 1, MAX_BULLETS as int);
}

/// What a hit does: the player that is hit dies, and nobody else; the
/// bullet is spent with the lifetime it had; and the score of its owner
/// alone grows, by one at most.
#[verifier::rlimit(50)]
pub proof fn lemma_bullet_struck(w: World, b: int, i: int)
    requires
        w.wf(),
        0 <= b < MAX_BULLETS,
        0 <= i < MAX_PLAYERS,
        w.bullets[b].active,
        !w.players[i].dead,
    ensures
        ({
            let after = bullet_struck(w, b, i);
            &&& played_one_bullet(w, after, b)
            &&& forall|j: int|
                0 <= j < MAX_PLAYERS && j != i ==> (#[trigger] after.players[j]).dead
                    == w.players[j].dead
            &&& !after.bullets[b].active
            &&& after.bullets[b].lifetime == w.bullets[b].lifetime
            &&& died_between(w, after, i)
        }),
{
    let bullet = w.bullets[b];
    let p = w.players[i];
    assert(bullet.wf());
    let w1 = hit_feedback(
        w,
        BULLET_HIT_FREEZE,
        Cue::BulletHit { victim: i as u32, x: p.center_x() as i64, y: p.center_y() as i64 },
    );
    assert(w1.players == w.players);
    assert(w1.bullets == w.bullets);
    assert(w1.wf());
    lemma_kill_touches_victim_only(w1, i, bullet.owner as int);
    let w2 = kill_resolved(w1, i, bullet.owner as int);
    let after = w2.with_bullet(b, spent(bullet));
    assert(after == bullet_struck(w, b, i));
    assert(after.players == w2.players);
    assert(after.players[0].dead == (w.players[0].dead || i == 0));
    assert(after.players[1].dead == (w.players[1].dead || i == 1));
    assert(after.players[2].dead == (w.players[2].dead || i == 2));
    assert(after.players[3].dead == (w.players[3].dead || i == 3));
    assert(dead_count(after.players) == dead_count(w.players) + 1);
    assert(after.players[0].kills == w.players[0].kills || bullet.owner == 0);
    assert(after.players[1].kills == w.players[1].kills || bullet.owner == 1);
    assert(after.players[2].kills == w.players[2].kills || bullet.owner == 2);
    assert(after.players[3].kills == w.players[3].kills || bullet.owner == 3);
    assert(0 <= kills_total(after.players) - kills_total(w.players) <= 1);
    assert(after.bullets[b].wf());
    assert forall|j: int| 0 <= j < MAX_BULLETS implies (#[trigger] after.bullets[j]).wf() by {
        if j != b {
            assert(after.bullets[j] == w.bullets[j]);
        }
    }
}

/// What a deflection does: it turns the bullet round and hurts nobody.
pub proof fn lemma_bullet_deflected(w: World, b: int, i: int)
    requires
        w.wf(),
        0 <= b < MAX_BULLETS,
        0 <= i < MAX_PLAYERS,
        w.bullets[b].active,
    ensures
        ({
            let after = bullet_deflected(w, b, i);
            &&& played_one_bullet(w, after, b)
            &&& after.players == w.players
            &&& after.bullets[b] == deflected(w.bullets[b], i)
            &&& after.bullets[b].active
            &&& after.bullets[b].lifetime == BULLET_LIFETIME
        }),
{
    let bullet = w.bullets[b];
    assert(bullet.wf());
    let after = bullet_deflected(w, b, i);
    assert(after.players == w.players);
    assert(after.bullets[b].wf());
    assert forall|j: int| 0 <= j < MAX_BULLETS implies (#[trigger] after.bullets[j]).wf() by {
        if j != b {
            assert(after.bullets[j] == w.bullets[j]);
        }
    }
}

/// What one meeting of a bullet with a player can do: nothing, a
/// deflection by a player in active melee, or a hit that kills that player
/// alone and spends the bullet with the lifetime it had.
#[verifier::rlimit(50)]
pub proof fn lemma_bullet_met_player(w: World, b: int, i: int)
    requires
        w.wf(),
        0 <= b < MAX_BULLETS,
        0 <= i < MAX_PLAYERS,
        w.bullets[b].active,
    ensures
        ({
            let after = bullet_met_player(w, b, i);
            &&& played_one_bullet(w, after, b)
            &&& forall|j: int|
                0 <= j < MAX_PLAYERS && j != i ==> (#[trigger] after.players[j]).dead
                    == w.players[j].dead
            &&& {
                ||| after == w
                ||| after.bullets[b].active && after.bullets[b].lifetime == BULLET_LIFETIME
                    && after.players == w.players && w.players[i].melee_timer > 0
                ||| !after.bullets[b].active && after.bullets[b].lifetime
                    == w.bullets[b].lifetime && died_between(w, after, i)
            }
        }),
{
    let bullet = w.bullets[b];
    let p = w.players[i];
    if !p.alive() || i == bullet.owner {
        assert(bullet_met_player(w, b, i) == w);
    } else if p.melee_timer > 0 && in_melee_reach(p, bullet.x as int, bullet.y as int) {
        assert(bullet_met_player(w, b, i) == bullet_deflected(w, b, i));
        lemma_bullet_deflected(w, b, i);
    } else if point_in_box(
        bullet.x as int,
        bullet.y as int,
        p.x as int,
        p.y as int,
        PLAYER_WIDTH as int,
        PLAYER_HEIGHT as int,
    ) {
        assert(bullet_met_player(w, b, i) == bullet_struck(w, b, i));
        lemma_bullet_struck(w, b, i);
    } else {
        assert(bullet_met_player(w, b, i) == w);
    }
}

/// At most one kill per bullet per tick: when a bullet has met the
/// players, at most one player has died of it, and if one has, the bullet
/// is spent.  The bullet has the lifetime it came with, or its full
/// lifetime after a deflection; with nobody in active melee it is not
/// deflected.
#[verifier::rlimit(50)]
pub proof fn lemma_one_kill_per_bullet(w: World, b: int, i: int)
    requires
        w.wf(),
        0 <= b < MAX_BULLETS,
        0 <= i <= MAX_PLAYERS,
    ensures
        ({
            let after = bullet_met_players(w, b, i);
            &&& played_one_bullet(w, after, b)
            &&& forall|j: int, k: int|
                0 <= j < MAX_PLAYERS && 0 <= k < MAX_PLAYERS && died_between(w, after, j)
                    && died_between(w, after, k) ==> j == k
            &&& forall|j: int|
                0 <= j < MAX_PLAYERS && died_between(w, after, j) ==> !after.bullets[b].active
            &&& forall|j: int|
                0 <= j < MAX_PLAYERS && !died_between(w, after, j) ==> (
                #[trigger] after.players[j]).dead == w.players[j].dead
            &&& after.bullets[b].lifetime == w.bullets[b].lifetime || after.bullets[b].lifetime
                == BULLET_LIFETIME
            &&& nobody_swings(w) ==> after.bullets[b].lifetime == w.bullets[b].lifetime
        }),
    decreases MAX_PLAYERS - i,
{
    if i < MAX_PLAYERS && w.bullets[b].active {
        let mid = bullet_met_player(w, b, i);
        lemma_bullet_met_player(w, b, i);
        lemma_one_kill_per_bullet(mid, b, i + 1);
        let after = bullet_met_players(mid, b, i + 1);
        assert(after == bullet_met_players(w, b, i));
        if !mid.bullets[b].active {
            assert(after == mid);
        } else {
            assert forall|j: int| 0 <= j < MAX_PLAYERS implies mid.players[j].dead
                == w.players[j].dead by {
                if j != i {
                    assert(mid.players[j].dead == w.players[j].dead);
                }
            }
            assert(dead_count(mid.players) == dead_count(w.players));
            assert(nobody_swings(w) ==> nobody_swings(mid));
        }
    }
}

/// What one tick does to a bullet: a free slot rests; a bullet in flight
/// grows one tick older, also where it is spent in this tick, unless a
/// deflection gives it its full lifetime again; a bullet with no life left
/// is out of play.  No other bullet is touched, and at most one player
/// dies, of a bullet that is then spent.
#[verifier::rlimit(50)]
pub proof fn lemma_bullet_step(w: World, b: int)
    requires
        w.wf(),
        0 <= b < MAX_BULLETS,
    ensures
        ({
            let after = bullet_stepped(w, b);
            &&& played_one_bullet(w, after, b)
            &&& !w.bullets[b].active ==> after == w
            &&& w.bullets[b].active ==> after.bullets[b].lifetime == w.bullets[b].lifetime - 1
                || after.bullets[b].lifetime == BULLET_LIFETIME
            &&& w.bullets[b].active && nobody_swings(w) ==> after.bullets[b].lifetime
                == w.bullets[b].lifetime - 1
            &&& after.bullets[b].lifetime == 0 ==> !after.bullets[b].active
            &&& after.bullets[b].active ==> w.bullets[b].active && (after.bullets[b].lifetime
                == w.bullets[b].lifetime - 1 || after.bullets[b].lifetime == BULLET_LIFETIME)
            &&& forall|j: int, k: int|
                0 <= j < MAX_PLAYERS && 0 <= k < MAX_PLAYERS && died_between(w, after, j)
                    && died_between(w, after, k) ==> j == k
            &&& forall|j: int|
                0 <= j < MAX_PLAYERS && died_between(w, after, j) ==> !after.bullets[b].active
        }),
{
    let bullet = w.bullets[b];
    assert(bullet.wf());
    if bullet.active {
        let m = flown(bullet);
        let w1 = if bullet.lifetime % TRAIL_INTERVAL == 0 {
            w.cue(Cue::BulletTrail { x: m.x, y: m.y })
        } else {
            w
        };
        if m.lifetime == 0 || out_of_field(m) || point_hits_platform(
            w.platforms,
            m.x as int,
            m.y as int,
        ) {
            assert(bullet_stepped(w, b) == w1.with_bullet(b, spent(m)));
        } else {
            let w2 = w1.with_bullet(b, m);
            assert(w2.players == w.players);
            assert(nobody_swings(w) ==> nobody_swings(w2));
            lemma_one_kill_per_bullet(w2, b, 0);
            let after = bullet_met_players(w2, b, 0);
            assert(after.bullets[b].wf());
        }
    }
}

/// Replacing one slot of the pool changes the number of bullets in flight
/// by what that slot changes.
pub proof fn lemma_flying_one_slot(before: Seq<Bullet>, after: Seq<Bullet>, b: int, upto: int)
    requires
        before.len() == after.len(),
        0 <= b < before.len(),
        0 <= upto <= before.len(),
        forall|j: int| 0 <= j < before.len() && j != b ==> after[j] == before[j],
    ensures
        flying_among(after, upto) - flying_among(before, upto) == if upto > b {
            (if after[b].active {
                1int
            } else {
                0int
            }) - (if before[b].active {
                1int
            } else {
                0int
            })
        } else {
            0int
        },
    decreases upto,
{
    if upto > 0 {
        lemma_flying_one_slot(before, after, b, upto - 1);
    }
}

/// What one tick of the whole pool does, seen from the step of slot
/// `from`.  Slots before `from` have had their turn and rest.  A bullet in
/// a later slot grows one tick older, also where it is spent, unless a
/// deflection gives it its full lifetime; no free slot comes into play.
/// And for every player that dies a bullet is spent: the deaths are no
/// more than the bullets that leave play, and the scores grow by no more
/// than the deaths.
#[verifier::rlimit(50)]
pub proof fn lemma_bullets_step_from(w: World, from: int, b: int)
    requires
        w.wf(),
        0 <= from <= MAX_BULLETS,
        0 <= b < MAX_BULLETS,
    ensures
        ({
            let after = bullets_stepped(w, from);
            &&& after.wf()
            &&& b < from ==> after.bullets[b] == w.bullets[b]
            &&& b >= from && after.bullets[b].active ==> w.bullets[b].active && (
            after.bullets[b].lifetime == w.bullets[b].lifetime - 1 || after.bullets[b].lifetime
                == BULLET_LIFETIME)
            &&& b >= from && w.bullets[b].active ==> after.bullets[b].lifetime
                == w.bullets[b].lifetime - 1 || after.bullets[b].lifetime == BULLET_LIFETIME
            &&& b >= from && w.bullets[b].active && nobody_swings(w) ==> after.bullets[b].lifetime
                == w.bullets[b].lifetime - 1
            &&& !w.bullets[b].active ==> after.bullets[b] == w.bullets[b]
            &&& after.bullets[b].lifetime == 0 ==> !after.bullets[b].active
            &&& nobody_swings(w) ==> nobody_swings(after)
            &&& 0 <= dead_count(after.players) - dead_count(w.players) <= flying_count(w.bullets)
                - flying_count(after.bullets)
            &&& 0 <= kills_total(after.players) - kills_total(w.players) <= dead_count(
                after.players,
            ) - dead_count(w.players)
        }),
    decreases MAX_BULLETS - from,
{
    if from < MAX_BULLETS {
        let mid = bullet_stepped(w, from);
        lemma_bullet_step(w, from);
        lemma_bullets_step_from(mid, from + 1, b);
        lemma_flying_one_slot(w.bullets, mid.bullets, from, MAX_BULLETS as int);
        assert(nobody_swings(w) ==> nobody_swings(mid));
    } else {
        assert(w.bullets[b].wf());
    }
}

/// Bullet lifetime, one tick: a bullet that is still in flight after the
/// bullets were updated was in flight before, and its lifetime has gone
/// down by exactly one unless a deflection has reset it.
pub proof fn lemma_bullet_ages(w: World, b: int)
    requires
        w.wf(),
        0 <= b < MAX_BULLETS,
    ensures
        bullets_updated(w).wf(),
        bullets_updated(w).bullets[b].active ==> w.bullets[b].active && (bullets_updated(
            w,
        ).bullets[b].lifetime == w.bullets[b].lifetime - 1 || bullets_updated(
            w,
        ).bullets[b].lifetime == BULLET_LIFETIME),
{
    lemma_bullets_step_from(w, 0, b);
}

/// Bullet lifetime, every bullet: in one update of the pool a bullet in
/// flight grows older by exactly one tick, whether it flies on, runs out
/// of life, leaves the field, stops in a platform or hits a player, unless
/// a player deflects it, which leaves it with its full lifetime (no other
/// bullet has more than one tick less after an update); with nobody in
/// active melee no bullet is deflected.  A bullet without life left is out
/// of play, and a free slot stays as it is.
pub proof fn lemma_bullet_always_ages(w: World, b: int)
    requires
        w.wf(),
        0 <= b < MAX_BULLETS,
    ensures
        ({
            let before = w.bullets[b];
            let after = bullets_updated(w).bullets[b];
            &&& before.active ==> after.lifetime == before.lifetime - 1 || after.lifetime
                == BULLET_LIFETIME
            &&& before.active && nobody_swings(w) ==> after.lifetime == before.lifetime - 1
            &&& after.lifetime == 0 ==> !after.active
            &&& !before.active ==> after == before
        }),
{
    lemma_bullets_step_from(w, 0, b);
}

/// At most one kill per bullet, counted over the whole pool: in one update
/// of the bullets no more players die than bullets leave play, and the
/// scores together grow by no more than the number of players that die.
pub proof fn lemma_kills_are_paid_with_bullets(w: World)
    requires
        w.wf(),
    ensures
        ({
            let after = bullets_updated(w);
            let deaths = dead_count(after.players) - dead_count(w.players);
            &&& 0 <= deaths <= flying_count(w.bullets) - flying_count(after.bullets)
            &&& 0 <= kills_total(after.players) - kills_total(w.players) <= deaths
        }),
{
    lemma_bullets_step_from(w, 0, 0);
}

/// One update of an undisturbed flight of the slot `b`: `next` is what the
/// update of the bullets makes of the slot in the well-formed world
/// `before`, and it was not deflected (a deflection leaves a bullet with
/// its full lifetime).
#[verifier::opaque]
pub open spec fn undisturbed_update(before: World, next: Bullet, b: int) -> bool {
    &&& before.wf()
    &&& next == bullets_updated(before).bullets[b]
    &&& next.active ==> next.lifetime < BULLET_LIFETIME
}

/// The slot `b` through a run of bullet updates: `worlds[k]` is the world
/// just before the update number `k`, the slot is changed by these updates
/// alone, and no update deflects the bullet.
pub open spec fn flies_undisturbed(worlds: Seq<World>, b: int) -> bool {
    forall|k: int|
        0 <= k < worlds.len() - 1 ==> undisturbed_update(
            #[trigger] worlds[k],
            worlds[k + 1].bullets[b],
            b,
        )
}

/// One update of an undisturbed flight: a bullet that had `spent_ticks`
/// ticks less to live than at the start has one tick less again.
#[verifier::rlimit(50)]
proof fn lemma_flight_step(w: World, b: int, next: Bullet, spent_ticks: int, start: int)
    requires
        0 <= b < MAX_BULLETS,
        undisturbed_update(w, next, b),
        w.bullets[b].active ==> w.bullets[b].lifetime + spent_ticks == start,
    ensures
        next.active ==> w.bullets[b].active && next.lifetime + spent_ticks + 1 == start,
        next.wf(),
{
    reveal(undisturbed_update);
    lemma_bullet_ages(w, b);
    assert(bullets_updated(w).bullets[b].wf());
}

/// Bullet lifetime, whole flight: a bullet that is never deflected loses
/// one tick of life with every update, so after `k` updates it is out of
/// play or has `k` ticks less to live; as no bullet has more than
/// `BULLET_LIFETIME` ticks to live, it is out of play after that many
/// updates at the latest.
#[verifier::rlimit(50)]
pub proof fn lemma_bullet_expires(worlds: Seq<World>, b: int, k: int)
    requires
        0 <= b < MAX_BULLETS,
        0 <= k < worlds.len(),
        worlds[0].wf(),
        flies_undisturbed(worlds, b),
    ensures
        worlds[k].bullets[b].active ==> worlds[0].bullets[b].active && worlds[k].bullets[b].lifetime
            + k == worlds[0].bullets[b].lifetime,
        k >= BULLET_LIFETIME ==> !worlds[k].bullets[b].active,
        worlds[k].bullets[b].wf(),
    decreases k,
{
    if k > 0 {
        lemma_bullet_expires(worlds, b, k - 1);
        let before = worlds[k - 1];
        assert(undisturbed_update(before, worlds[k - 1 + 1].bullets[b], b));
        lemma_flight_step(
            before,
            b,
            worlds[k].bullets[b],
            k - 1,
            worlds[0].bullets[b].lifetime as int,
        );
    } else {
        assert(worlds[0].bullets[b].wf());
    }
}

/// A phase that play has moved on from `before` by kills alone: the same
/// phase, or the final-KO hold.
pub open spec fn by_kills(before: GamePhase, after: GamePhase) -> bool {
    after == before || after == GamePhase::FinalKo
}

/// Play leaves the stage, the number of the round and the rules as they are.
pub open spec fn same_round(before: World, after: World) -> bool {
    &&& after.state.current_stage == before.state.current_stage
    &&& after.round_number == before.round_number
    &&& after.config == before.config
}

/// Bullets change the phase by kills alone.
#[verifier::rlimit(50)]
pub proof fn lemma_bullets_phase(w: World, b: int, i: int)
    ensures
        by_kills(w.state.phase, bullet_met_player(w, b, i).state.phase),
        same_round(w, bullet_met_player(w, b, i)),
        by_kills(w.state.phase, bullet_met_players(w, b, i).state.phase),
        same_round(w, bullet_met_players(w, b, i)),
        by_kills(w.state.phase, bullet_stepped(w, b).state.phase),
        same_round(w, bullet_stepped(w, b)),
    decreases MAX_PLAYERS - i,
{
    if 0 <= i < MAX_PLAYERS && w.bullets[b].active {
        lemma_bullets_phase(bullet_met_player(w, b, i), b, i + 1);
    }
    let bullet = w.bullets[b];
    let m = flown(bullet);
    let w1 = if bullet.lifetime % TRAIL_INTERVAL == 0 {
        w.cue(Cue::BulletTrail { x: m.x, y: m.y })
    } else {
        w
    };
    lemma_bullets_phase_from(w1.with_bullet(b, m), b, 0);
}

/// A bullet that meets the players from `i` on changes the phase by kills alone.
pub proof fn lemma_bullets_phase_from(w: World, b: int, i: int)
    ensures
        by_kills(w.state.phase, bullet_met_players(w, b, i).state.phase),
        same_round(w, bullet_met_players(w, b, i)),
    decreases MAX_PLAYERS - i,
{
    if 0 <= i < MAX_PLAYERS && w.bullets[b].active {
        lemma_bullets_phase_from(bullet_met_player(w, b, i), b, i + 1);
    }
}

/// The update of the bullets changes the phase by kills alone.
pub proof fn lemma_bullets_updated_phase(w: World, from: int)
    ensures
        by_kills(w.state.phase, bullets_stepped(w, from).state.phase),
        same_round(w, bullets_stepped(w, from)),
    decreases MAX_BULLETS - from,
{
    if 0 <= from < MAX_BULLETS {
        lemma_bullets_phase(w, from, 0);
        lemma_bullets_updated_phase(bullet_stepped(w, from), from + 1);
    }
}

/// A melee swing changes the phase by kills alone.
pub proof fn lemma_melee_swept_phase(w: World, a: int, t: int)
    ensures
        by_kills(w.state.phase, melee_swept(w, a, t).state.phase),
        same_round(w, melee_swept(w, a, t)),
    decreases MAX_PLAYERS - t,
{
    if 0 <= t < MAX_PLAYERS {
        lemma_melee_swept_phase(melee_met_player(w, a, t), a, t + 1);
    }
}

/// The melee hits of a tick change the phase by kills alone.
pub proof fn lemma_melee_phase(w: World, a: int)
    ensures
        by_kills(w.state.phase, melee_resolved(w, a).state.phase),
        same_round(w, melee_resolved(w, a)),
    decreases MAX_PLAYERS - a,
{
    if 0 <= a < MAX_PLAYERS {
        lemma_melee_swept_phase(w, a, 0);
        lemma_melee_phase(attacker_swung(w, a), a + 1);
    }
}

/// What a living player does before it moves leaves the state of the
/// match, the round and the rules as they are.
#[verifier::rlimit(50)]
pub proof fn lemma_before_move_keeps_state(w: World, idx: int, c: Controls)
    ensures
        before_move(w, idx, c).state == w.state,
        same_round(w, before_move(w, idx, c)),
{
    let w1 = steered(w, idx, c);
    let w2 = jump_resolved(w1, idx);
    let w3 = wall_jump_resolved(w2, idx, c);
    let w4 = wall_slide_marked(w3, idx);
    let w5 = fall_resolved(w4, idx, c);
    let w6 = shot_resolved(w5, idx, c);
    let w7 = melee_advanced(w6, idx, c);
    assert(w1.state == w.state && same_round(w, w1));
    assert(w2.state == w.state && same_round(w, w2));
    assert(w3.state == w.state && same_round(w, w3));
    assert(w4.state == w.state && same_round(w, w4));
    assert(w5.state == w.state && same_round(w, w5));
    assert(w6.state == w.state && same_round(w, w6));
    assert(w7.state == w.state && same_round(w, w7));
    assert(w7 == before_move(w, idx, c));
}

/// The tick of one player changes the phase by kills alone and leaves
/// stage, round and rules as they are.
#[verifier::rlimit(50)]
pub proof fn lemma_player_phase(w: World, idx: int, pad: Pad)
    ensures
        by_kills(w.state.phase, player_updated(w, idx, pad).state.phase),
        same_round(w, player_updated(w, idx, pad)),
{
    let p = w.players[idx];
    if p.active && !p.dead {
        let thought = controls_read(w, idx);
        let c = controls_of(w, idx, pad);
        assert(thought.state == w.state && same_round(w, thought));
        lemma_before_move_keeps_state(thought, idx, c);
        let ready = before_move(thought, idx, c);
        let at = moved(ready, idx);
        assert(at.state == w.state && same_round(w, at));
        let after = fate_resolved(at, idx, hits_wall(ready, idx));
        assert(by_kills(at.state.phase, after.state.phase) && same_round(at, after));
        assert(after == player_updated(w, idx, pad));
    }
}

/// The players change the phase by kills alone.
pub proof fn lemma_players_phase(w: World, pads: Seq<Pad>, from: int)
    ensures
        by_kills(w.state.phase, players_updated_from(w, pads, from).state.phase),
        same_round(w, players_updated_from(w, pads, from)),
    decreases MAX_PLAYERS - from,
{
    if 0 <= from < MAX_PLAYERS {
        lemma_player_phase(w, from, pads[from]);
        lemma_players_phase(player_updated(w, from, pads[from]), pads, from + 1);
    }
}

/// Spawning the players leaves the state of the match as it is.
pub proof fn lemma_spawn_keeps_state(w: World, from: int)
    ensures
        players_spawned_from(w, from).state == w.state,
        players_spawned_from(w, from).config == w.config,
    decreases MAX_PLAYERS - from,
{
    if 0 <= from < MAX_PLAYERS {
        lemma_spawn_keeps_state(player_spawned(w, from), from + 1);
    }
}

/// A round starts in the countdown, on the stage it was reset on, in the
/// full arena.
pub proof fn lemma_round_starts_in_countdown(w: World)
    ensures
        round_reset(w).state.phase == GamePhase::Countdown,
        round_reset(w).state.current_stage == w.state.current_stage,
        round_reset(w).state.overtime == false,
        round_reset(w).state.paused_from == w.state.paused_from,
{
    let w1 = (World { bullets: bullets_cleared(w.bullets), ..w }).cue(
        Cue::ClearParticles,
    );
    lemma_spawn_keeps_state(stage_set_up(w1), 0);
}

/// One tick of gameplay leaves the phase as it is, enters the final-KO
/// hold, or starts the countdown of the next round.  The rules stay as
/// they are; stage and round stay as they are unless the next round
/// starts, and then the stage is the one that the stage policy names after
/// the current stage and the round is the next.
#[verifier::rlimit(50)]
pub proof fn lemma_gameplay_phase(w: World, input: TickInput)
    ensures
        by_kills(w.state.phase, gameplay_ticked(w, input).state.phase) || gameplay_ticked(
            w,
            input,
        ).state.phase == GamePhase::Countdown,
        gameplay_ticked(w, input).config == w.config,
        same_round(w, gameplay_ticked(w, input)) || (gameplay_ticked(w, input).state.phase
            == GamePhase::Countdown && gameplay_ticked(w, input).state.current_stage == next_stage(
            w.config.stage_select,
            w.state.current_stage,
            input.random,
        ) && gameplay_ticked(w, input).round_number == next_count(w.round_number)),
{
    let w1 = platforms_advanced(w);
    let w2 = players_updated_from(w1, input.pads@, 0);
    let w3 = bullets_updated(w2);
    let w4 = melee_hits_updated(w3);
    lemma_players_phase(w1, input.pads@, 0);
    lemma_bullets_updated_phase(w2, 0);
    lemma_melee_phase(w3, 0);
    assert(same_round(w, w4));
    lemma_round_ticked(w4, input.random);
}

/// What the clocks of a round do to stage and round: nothing, unless the
/// pause after a kill runs out in play, on the tick on which its timer
/// stands at one; then the next round starts in the countdown, on the
/// stage that the stage policy names after the current stage.
#[verifier::rlimit(50)]
pub proof fn lemma_round_ticked(w: World, random: u32)
    ensures
        ({
            let after = round_ticked(w, random);
            let ends = w.state.phase == GamePhase::Playing && w.state.round_end_timer == 1;
            &&& after.config == w.config
            &&& ends ==> after.state.phase == GamePhase::Countdown && after.state.current_stage
                == next_stage(w.config.stage_select, w.state.current_stage, random)
                && after.round_number == next_count(w.round_number)
            &&& !ends ==> same_round(w, after) && after.state.phase == w.state.phase
        }),
{
    let w5 = World { state: round_clock_advanced(w.state, w.config), ..w };
    let w6 = World {
        round_number: next_count(w5.round_number),
        state: GameState {
            current_stage: next_stage(w5.config.stage_select, w5.state.current_stage, random),
            ..w5.state
        },
        ..w5
    };
    lemma_round_starts_in_countdown(w6);
    lemma_round_reset_keeps_rules(w6);
}

/// A round reset keeps the rules and the number of the round.
pub proof fn lemma_round_reset_keeps_rules(w: World)
    ensures
        round_reset(w).config == w.config,
        round_reset(w).round_number == w.round_number,
{
    let w1 = (World { bullets: bullets_cleared(w.bullets), ..w }).cue(Cue::ClearParticles);
    lemma_spawn_keeps_state(stage_set_up(w1), 0);
    lemma_spawn_keeps_round(stage_set_up(w1), 0);
}

/// Spawning the players leaves the number of the round as it is.
pub proof fn lemma_spawn_keeps_round(w: World, from: int)
    ensures
        players_spawned_from(w, from).round_number == w.round_number,
    decreases MAX_PLAYERS - from,
{
    if 0 <= from < MAX_PLAYERS {
        lemma_spawn_keeps_round(player_spawned(w, from), from + 1);
    }
}

/// Stage rotation, tick by tick: a tick of play leaves the stage as it is,
/// or starts the next round on the stage that the stage policy names after
/// the current stage.  Under the rotate policy that is the next of the
/// three stages in turn, under a fixed policy the fixed stage; in either
/// case a stage of the game.
#[verifier::rlimit(50)]
pub proof fn lemma_stage_changes_with_the_round(w: World, input: TickInput)
    requires
        w.state.phase == GamePhase::Playing,
    ensures
        ({
            let after = ticked(w, input);
            let stage = w.state.current_stage;
            let select = w.config.stage_select;
            let next = next_stage(select, stage, input.random);
            &&& after.config == w.config
            &&& (after.state.current_stage == stage && after.round_number == w.round_number) || (
            after.state.phase == GamePhase::Countdown && after.state.current_stage == next
                && after.round_number == next_count(w.round_number))
            &&& select == STAGE_SELECT_ROTATE && stage < NUM_STAGES ==> next == (stage + 1) % 3
            &&& select < NUM_STAGES ==> next == select
            &&& next < NUM_STAGES
        }),
{
    reveal(playing_ticked);
    let w1 = tick_started(w);
    assert(w1.state == w.state && w1.config == w.config && w1.round_number == w.round_number);
    lemma_gameplay_phase(w1, input);
}

/// The stage after a tick is the stage before it, or the stage that the
/// stage policy names after that one for the next round, or the stage that
/// the policy names for the first round of a match.
pub open spec fn stage_by_rules(before: World, after: World, random: u32) -> bool {
    let stage = before.state.current_stage;
    ||| after.state.current_stage == stage
    ||| after.state.current_stage == next_stage(before.config.stage_select, stage, random)
    ||| after.state.current_stage == first_stage(after.config.stage_select, random)
}

/// The phases that a tick of the title screen can lead to.
#[verifier::rlimit(50)]
pub proof fn lemma_title_phase(w: World, input: TickInput)
    ensures
        ({
            let after = title_ticked(w, input).state.phase;
            after == w.state.phase || after == GamePhase::Lobby || after == GamePhase::Countdown
        }),
        stage_by_rules(w, title_ticked(w, input), input.random),
{
    reveal(title_ticked);
    lemma_match_starts_in_countdown(
        World {
            players: demo_roster(w.players),
            state: GameState { demo_mode: true, ..w.state },
            title_idle_ticks: 0,
            ..w
        },
        input.random,
    );
}

/// The phases that a tick of the lobby can lead to.
#[verifier::rlimit(50)]
pub proof fn lemma_lobby_phase(w: World, input: TickInput)
    ensures
        ({
            let after = lobby_ticked(w, input).state.phase;
            after == w.state.phase || after == GamePhase::Title || after == GamePhase::Countdown
        }),
        stage_by_rules(w, lobby_ticked(w, input), input.random),
{
    reveal(lobby_ticked);
    let host = first_pad(input);
    let row = cursor_moved(w.lobby_index, LOBBY_ROWS, host);
    let w1 = World {
        players: ready_toggled(w.players, input),
        lobby_index: row,
        config: setting_changed(w.config, row, host),
        ..w
    };
    let players = host_readied(w1.players, input);
    lemma_match_starts_in_countdown(
        World { players: roster_set(players, w1.config, input), ..w1 },
        input.random,
    );
}

/// The phases that a tick of the pause menu can lead to.
#[verifier::rlimit(50)]
pub proof fn lemma_paused_phase(w: World, input: TickInput)
    ensures
        ({
            let after = paused_ticked(w, input).state.phase;
            after == w.state.phase || after == w.state.paused_from || after == GamePhase::Lobby
                || after == GamePhase::Countdown
        }),
        stage_by_rules(w, paused_ticked(w, input), input.random),
{
    reveal(paused_ticked);
    let pad = menu_pad(input);
    let row = cursor_moved(w.pause_index, PAUSE_ROWS, pad);
    let w1 = World { pause_index: row, ..w };
    lemma_match_starts_in_countdown(w1, input.random);
    lemma_round_starts_in_countdown(w1);
}

/// The phases that a tick of the match-end screen can lead to.
#[verifier::rlimit(50)]
pub proof fn lemma_match_end_phase(w: World, input: TickInput)
    ensures
        ({
            let after = match_end_ticked(w, input).state.phase;
            after == w.state.phase || after == GamePhase::Lobby || after == GamePhase::Title
                || after == GamePhase::Countdown
        }),
        stage_by_rules(w, match_end_ticked(w, input), input.random),
{
    reveal(match_end_ticked);
    lemma_match_starts_in_countdown(
        World { match_end_tick: next_count(w.match_end_tick), ..w },
        input.random,
    );
}

/// The phases that a tick of play can lead to.
#[verifier::rlimit(50)]
pub proof fn lemma_playing_phase(w: World, input: TickInput)
    ensures
        ({
            let after = playing_ticked(w, input).state.phase;
            after == w.state.phase || after == GamePhase::Lobby || after == GamePhase::Paused
                || after == GamePhase::FinalKo || after == GamePhase::Countdown
        }),
        stage_by_rules(w, playing_ticked(w, input), input.random),
{
    reveal(playing_ticked);
    lemma_gameplay_phase(w, input);
}

/// The phases that a tick of the countdown can lead to.
#[verifier::rlimit(50)]
pub proof fn lemma_countdown_phase(w: World, input: TickInput)
    ensures
        ({
            let after = countdown_ticked(w, input).state.phase;
            after == w.state.phase || after == GamePhase::Lobby || after == GamePhase::Paused
                || after == GamePhase::Playing
        }),
        stage_by_rules(w, countdown_ticked(w, input), input.random),
{
    reveal(countdown_ticked);
}

/// The phase after a tick, from the phase before it and the phases that
/// the tick of each phase leads to.
pub open spec fn phase_after(
    before: GamePhase,
    title: GamePhase,
    lobby: GamePhase,
    countdown: GamePhase,
    playing: GamePhase,
    paused: GamePhase,
    final_ko: GamePhase,
    match_end: GamePhase,
) -> GamePhase {
    match before {
        GamePhase::Title => title,
        GamePhase::Lobby => lobby,
        GamePhase::Countdown => countdown,
        GamePhase::Playing => playing,
        GamePhase::Paused => paused,
        GamePhase::FinalKo => final_ko,
        GamePhase::RoundEnd => before,
        GamePhase::MatchEnd => match_end,
    }
}

/// The match ends by way of the final-KO hold alone.  A tick never takes
/// the match to its end from any phase but the hold itself; the hold is
/// entered from play alone; and from the hold the match can only stay in
/// it or end.
#[verifier::rlimit(50)]
pub proof fn lemma_match_ends_after_final_ko(w: World, input: TickInput)
    requires
        w.wf(),
    ensures
        ticked(w, input).state.phase == GamePhase::MatchEnd ==> w.state.phase == GamePhase::FinalKo
            || w.state.phase == GamePhase::MatchEnd,
        ticked(w, input).state.phase == GamePhase::FinalKo ==> w.state.phase == GamePhase::Playing
            || w.state.phase == GamePhase::FinalKo,
        w.state.phase == GamePhase::FinalKo ==> ticked(w, input).state.phase == GamePhase::FinalKo
            || ticked(w, input).state.phase == GamePhase::MatchEnd,
{
    let w1 = tick_started(w);
    assert(w1.state == w.state);
    let title = title_ticked(w1, input).state.phase;
    let lobby = lobby_ticked(w1, input).state.phase;
    let countdown = countdown_ticked(w1, input).state.phase;
    let playing = playing_ticked(w1, input).state.phase;
    let paused = paused_ticked(w1, input).state.phase;
    let final_ko = final_ko_ticked(w1).state.phase;
    let match_end = match_end_ticked(w1, input).state.phase;
    assert(ticked(w, input).state.phase == phase_after(
        w.state.phase,
        title,
        lobby,
        countdown,
        playing,
        paused,
        final_ko,
        match_end,
    ));
    assert(final_ko == GamePhase::MatchEnd || final_ko == w1.state.phase) by {
        reveal(final_ko_ticked);
    }
    lemma_title_phase(w1, input);
    lemma_lobby_phase(w1, input);
    lemma_countdown_phase(w1, input);
    lemma_playing_phase(w1, input);
    lemma_paused_phase(w1, input);
    lemma_match_end_phase(w1, input);
}

/// The stage is kept or set by the rules: in every phase, a tick leaves
/// the stage as it is or sets it to the stage that the stage policy names,
/// for the next round or for the first round of a match; and during the
/// countdown and the final-KO hold the stage stays as it is.
#[verifier::rlimit(50)]
pub proof fn lemma_stage_is_set_by_the_rules(w: World, input: TickInput)
    ensures
        stage_by_rules(w, ticked(w, input), input.random),
        w.state.phase == GamePhase::Countdown || w.state.phase == GamePhase::FinalKo
            || w.state.phase == GamePhase::RoundEnd ==> ticked(w, input).state.current_stage
            == w.state.current_stage,
{
    let w1 = tick_started(w);
    assert(w1.state == w.state && w1.config == w.config);
    match w.state.phase {
        GamePhase::Title => {
            lemma_title_phase(w1, input);
        },
        GamePhase::Lobby => {
            lemma_lobby_phase(w1, input);
        },
        GamePhase::Countdown => {
            reveal(countdown_ticked);
        },
        GamePhase::Playing => {
            lemma_playing_phase(w1, input);
        },
        GamePhase::Paused => {
            lemma_paused_phase(w1, input);
        },
        GamePhase::FinalKo => {
            reveal(final_ko_ticked);
        },
        GamePhase::RoundEnd => {},
        GamePhase::MatchEnd => {
            lemma_match_end_phase(w1, input);
        },
    }
}

/// The final-KO hold freezes play: a tick of the hold moves no player,
/// changes no score and touches no bullet.
pub proof fn lemma_final_ko_freezes_play(w: World, input: TickInput)
    requires
        w.state.phase == GamePhase::FinalKo,
    ensures
        ticked(w, input).players == w.players,
        ticked(w, input).bullets == w.bullets,
        ticked(w, input).state.winner_idx == w.state.winner_idx,
{
    reveal(final_ko_ticked);
}

/// A match starts in the countdown of round one.
pub proof fn lemma_match_starts_in_countdown(w: World, random: u32)
    ensures
        match_reset(w, random).state.phase == GamePhase::Countdown,
        match_reset(w, random).state.paused_from == w.state.paused_from,
        match_reset(w, random).state.current_stage == first_stage(
            w.config.stage_select,
            random,
        ),
        match_reset(w, random).config == w.config,
        match_reset(w, random).round_number == 1,
{
    let fresh = World {
        players: scores_wiped(w.players),
        round_number: 1,
        state: GameState {
            current_stage: first_stage(w.config.stage_select, random),
            winner_idx: 0,
            final_ko_timer: 0,
            ..w.state
        },
        ..w
    };
    lemma_round_starts_in_countdown(fresh);
    lemma_round_reset_keeps_rules(fresh);
}

/// The world after the ticks that the inputs `inputs` drive, first input first.
pub open spec fn run(w: World, inputs: Seq<TickInput>) -> World
    decreases inputs.len(),
{
    if inputs.len() == 0 {
        w
    } else {
        run(ticked(w, inputs[0]), inputs.drop_first())
    }
}

/// Two inputs say the same: the same pads, as many controllers, the same random number.
pub open spec fn same_input(a: TickInput, b: TickInput) -> bool {
    a.pads@ == b.pads@ && a.player_count == b.player_count && a.random == b.random
}

/// Determinism: from equal worlds, inputs that say the same tick by tick
/// lead to equal worlds, however many ticks are run.
pub proof fn lemma_deterministic(a: World, b: World, xs: Seq<TickInput>, ys: Seq<TickInput>)
    requires
        a == b,
        xs.len() == ys.len(),
        forall|i: int| 0 <= i < xs.len() ==> same_input(#[trigger] xs[i], ys[i]),
    ensures
        run(a, xs) == run(b, ys),
    decreases xs.len(),
{
    if xs.len() > 0 {
        assert(same_input(xs[0], ys[0]));
        assert(xs[0].pads =~= ys[0].pads);
        assert(xs[0] == ys[0]);
        assert forall|i: int| 0 <= i < xs.drop_first().len() implies same_input(
            #[trigger] xs.drop_first()[i],
            ys.drop_first()[i],
        ) by {
            assert(same_input(xs[i + 1], ys[i + 1]));
        }
        lemma_deterministic(ticked(a, xs[0]), ticked(b, ys[0]), xs.drop_first(), ys.drop_first());
    }
}

/// A dead player is frozen until it respawns: while its respawn timer
/// runs, its own tick changes nothing about it but that timer.
pub proof fn lemma_dead_player_is_frozen(w: World, idx: int, pad: Pad)
    requires
        0 <= idx < w.players.len(),
        w.players[idx].active,
        w.players[idx].dead,
        w.players[idx].respawn_timer > 0,
    ensures
        player_updated(w, idx, pad) == w.with_player(
            idx,
            Player {
                respawn_timer: (w.players[idx].respawn_timer - 1) as u32,
                ..w.players[idx]
            },
        ),
{
}

/// Under the rotate policy the stages come in turn: after stage 0 comes
/// 1, then 2, then 0 again, whatever the random number.
pub proof fn lemma_stages_rotate(current: u32, random: u32)
    requires
        current < NUM_STAGES,
    ensures
        next_stage(STAGE_SELECT_ROTATE, current, random) == (
        current + 1) % 3,
        next_stage(
            STAGE_SELECT_ROTATE,
            next_stage(
                STAGE_SELECT_ROTATE,
                next_stage(STAGE_SELECT_ROTATE, current, random),
                random,
            ),
            random,
        ) == current,
{
}

/// The arena shrinks evenly and no further than its least width: both
/// bounds move by the same distance, and an arena at least as wide as
/// `ARENA_MIN_WIDTH` stays so.
pub proof fn lemma_arena_shrinks_evenly(s: GameState)
    requires
        s.wf(),
    ensures
        arena_shrunk(s).wf(),
        arena_shrunk(s).arena_left + arena_shrunk(s).arena_right
            == s.arena_left + s.arena_right,
        s.arena_left <= arena_shrunk(s).arena_left,
        arena_shrunk(s).arena_right <= s.arena_right,
        s.arena_right - s.arena_left >= ARENA_MIN_WIDTH
            ==> arena_shrunk(s).arena_right - arena_shrunk(s).arena_left
            >= ARENA_MIN_WIDTH,
{
}

/// With a full pool a shot puts no bullet into play; otherwise the new
/// bullet takes the first free slot and no other slot changes.
pub proof fn lemma_spawn_claims_first_free_slot(w: World, player_idx: int, aim_x: int, aim_y: int)
    requires
        w.bullets.len() == MAX_BULLETS,
    ensures
        ({
            let after = bullet_spawned(w, player_idx, aim_x, aim_y);
            let slot = first_free(w.bullets, 0);
            &&& 0 <= slot <= MAX_BULLETS
            &&& slot == MAX_BULLETS ==> after == w && forall|j: int|
                0 <= j < MAX_BULLETS ==> (#[trigger] w.bullets[j]).active
            &&& slot < MAX_BULLETS ==> !w.bullets[slot].active && after.bullets[slot].active
                && after.bullets[slot].lifetime == BULLET_LIFETIME && after.bullets[slot].owner
                == player_idx as u32 && (forall|j: int|
                0 <= j < slot ==> (#[trigger] w.bullets[j]).active) && (forall|j: int|
                0 <= j < MAX_BULLETS && j != slot ==> after.bullets[j] == w.bullets[j])
        }),
{
    lemma_first_free(w.bullets, 0);
}

/// A bullet flies as fast on a diagonal as on a straight course: a
/// straight shot covers `BULLET_SPEED` per tick along its axis, a diagonal
/// shot `BULLET_SPEED_DIAGONAL` along each; it starts at the centre of the
/// shooter with a full lifetime.
pub proof fn lemma_fired_bullet(shooter: Player, owner: int, aim_x: int, aim_y: int)
    ensures
        ({
            let b = fired_bullet(shooter, owner, aim_x, aim_y);
            let speed = BULLET_SPEED as int;
            let diagonal = BULLET_SPEED_DIAGONAL as int;
            &&& b.active
            &&& b.lifetime == BULLET_LIFETIME
            &&& {
                ||| (b.vx == speed || b.vx == -speed) && b.vy == 0
                ||| b.vx == 0 && (b.vy == speed || b.vy == -speed)
                ||| (b.vx == diagonal || b.vx == -diagonal) && (b.vy == diagonal || b.vy
                    == -diagonal)
            }
            &&& aim_axis(aim_x) == 0 && aim_axis(aim_y) == 0 ==> b.vy
                == 0 && (b.vx > 0 <==> shooter.facing_right)
        }),
{
}

/// A match starts from the lobby with two participants or more, and not
/// with fewer: a start that was asked for leads to the countdown exactly
/// if the ready players, the first player readied where nobody is, and
/// the bots that fill the free slots are at least two together.
pub proof fn lemma_start_needs_two(w: World, input: TickInput)
    requires
        w.state.phase == GamePhase::Lobby,
    ensures
        start_tried(w, input).state.phase == GamePhase::Countdown
            <==> ready_count(
            host_readied(w.players, input),
            connected(input),
        ) + bot_fill(w.config, input) >= 2,
{
    let players = host_readied(w.players, input);
    lemma_match_starts_in_countdown(
        World { players: roster_set(players, w.config, input), ..w },
        input.random,
    );
}

/// Running never exceeds the running speed: whatever the speed before and
/// whatever the input, the horizontal speed after input and friction lies
/// within `MOVE_SPEED` either way.
pub proof fn lemma_run_speed_is_bounded(vx: int, x: int, on_ground: bool)
    ensures
        -MOVE_SPEED <= run_speed(vx, x, on_ground) <= MOVE_SPEED,
{
}

/// Gravity pulls on every tick, also on a rising player: the vertical
/// speed goes down by at least `GRAVITY`, unless it rests at the speed limit.
pub proof fn lemma_gravity_always_pulls(p: Player, c: Controls)
    ensures
        fall_speed(p, c) <= p.vy - GRAVITY || fall_speed(p, c) == -SPEED_LIMIT,
        fall_speed(p, c) >= -SPEED_LIMIT,
{
}

/// Windup and active melee never run together, and a melee state that
/// runs blocks both a new swing and a shot: with either timer running,
/// pressing melee changes nothing, and the player cannot shoot.
pub proof fn lemma_melee_states_exclude_each_other(p: Player, c: Controls)
    requires
        !(p.melee_timer > 0 && p.melee_windup > 0),
    ensures
        !(melee_ticked(p, c).melee_timer > 0 && melee_ticked(p, c).melee_windup > 0),
        p.melee_timer > 0 || p.melee_windup > 0 ==> !can_shoot(p, c) && melee_ticked(p, c)
            == melee_ticked(p, Controls { melee_pressed: false, ..c }),
{
}

/// The height at which a player finds footing lies in the world.
pub proof fn lemma_footing_in_world(platforms: Seq<Platform>, f: Footing, new_y: int, from: int)
    requires
        forall|j: int| 0 <= j < platforms.len() ==> (#[trigger] platforms[j]).wf(),
        in_world(f.y as int),
        0 <= from,
    ensures
        in_world(footing_after(platforms, f, new_y, from).y as int),
    decreases platforms.len() - from,
{
    if from < platforms.len() {
        assert(platforms[from].wf());
        lemma_footing_in_world(platforms, stepped_onto(f, platforms[from], new_y), new_y, from + 1);
    }
}

/// What a living player does before it moves concerns nobody else: it
/// leaves the other players, its own place, life and score, the state of
/// the match, the rules and the platforms as they are.
#[verifier::rlimit(50)]
pub proof fn lemma_before_move_frame(w: World, idx: int, c: Controls)
    requires
        w.wf(),
        0 <= idx < MAX_PLAYERS,
    ensures
        ({
            let ready = before_move(w, idx, c);
            let p = w.players[idx];
            let q = ready.players[idx];
            &&& ready.players.len() == MAX_PLAYERS
            &&& forall|j: int|
                0 <= j < MAX_PLAYERS && j != idx ==> (#[trigger] ready.players[j]) == w.players[j]
            &&& q.x == p.x && q.y == p.y && q.dead == p.dead && q.active == p.active && q.kills
                == p.kills
            &&& ready.state == w.state
            &&& ready.config == w.config
            &&& ready.platforms == w.platforms
        }),
{
    let w1 = steered(w, idx, c);
    let w2 = jump_resolved(w1, idx);
    let w3 = wall_jump_resolved(w2, idx, c);
    let w4 = wall_slide_marked(w3, idx);
    let w5 = fall_resolved(w4, idx, c);
    let w6 = shot_resolved(w5, idx, c);
    let w7 = melee_advanced(w6, idx, c);
    assert(w1.players == w.players.update(idx, w1.players[idx]));
    assert(w2.players == w.players.update(idx, w2.players[idx]));
    assert(w3.players == w.players.update(idx, w3.players[idx]));
    assert(w4.players == w3.players);
    assert(w5.players == w.players.update(idx, w5.players[idx]));
    assert(w6.players == w.players.update(idx, w6.players[idx]));
    assert(w7.players == w.players.update(idx, w7.players[idx]));
    assert(w7 == before_move(w, idx, c));
}

/// An overtime wall is lethal: a living player that the arena bounds stop
/// while overtime runs is dead at the end of its own tick, held at the
/// bound, with the full respawn delay ahead and its score as it was.  The
/// kill goes to the living opponent whose centre is nearest to the
/// victim's, who scores one kill, and to nobody where no opponent lives;
/// nobody else dies and no other score changes.
#[verifier::rlimit(50)]
pub proof fn lemma_overtime_wall_kills(w: World, idx: int, c: Controls)
    requires
        w.wf(),
        0 <= idx < MAX_PLAYERS,
        w.players[idx].alive(),
        w.state.overtime,
        hits_wall(before_move(w, idx, c), idx),
    ensures
        ({
            let after = player_acted(w, idx, c);
            let at_wall = moved(before_move(w, idx, c), idx);
            let killer = nearest_rival(at_wall, idx);
            let victim = after.players[idx];
            &&& victim.dead
            &&& victim.respawn_timer == RESPAWN_DELAY
            &&& victim.kills == w.players[idx].kills
            &&& victim.x == w.state.arena_left || victim.x == w.state.arena_right - PLAYER_WIDTH
            &&& 0 <= killer < MAX_PLAYERS
            &&& killer != idx ==> w.players[killer].alive() && after.players[killer].kills
                == one_more_kill(w.players[killer].kills)
            &&& forall|j: int|
                0 <= j < MAX_PLAYERS && j != idx && (#[trigger] w.players[j]).alive() ==> killer
                    != idx && rival_distance(at_wall.players, idx, killer) <= rival_distance(
                    at_wall.players,
                    idx,
                    j,
                )
            &&& forall|j: int|
                0 <= j < MAX_PLAYERS && j != killer ==> (#[trigger] after.players[j]).kills
                    == w.players[j].kills
            &&& forall|j: int|
                0 <= j < MAX_PLAYERS && j != idx ==> (#[trigger] after.players[j]).dead
                    == w.players[j].dead
        }),
{
    let ready = before_move(w, idx, c);
    lemma_before_move_frame(w, idx, c);
    let p = ready.players[idx];
    let start = Footing { x: (p.x + p.vx) as i64, y: p.y, vy: p.vy, on_ground: false };
    assert(w.players[idx].wf());
    lemma_footing_in_world(ready.platforms, start, p.y + p.vy, 0);
    let f = footing_of(p, ready.platforms);
    assert(in_world(f.y as int));
    let at_wall = moved(ready, idx);
    let q = at_wall.players[idx];
    assert(at_wall.players == ready.players.update(idx, q));
    assert(q.placed());
    assert forall|j: int| 0 <= j < at_wall.players.len() implies (
    #[trigger] at_wall.players[j]).placed() by {
        if j != idx {
            assert(at_wall.players[j] == w.players[j]);
            assert(w.players[j].wf());
        }
    }
    lemma_nearest_rival(at_wall.players, idx, MAX_PLAYERS as int);
    let killer = nearest_rival(at_wall, idx);
    assert forall|j: int|
        0 <= j < MAX_PLAYERS && j != idx && (#[trigger] w.players[j]).alive() implies killer != idx
        && rival_distance(at_wall.players, idx, killer) <= rival_distance(
        at_wall.players,
        idx,
        j,
    ) by {
        assert(at_wall.players[j] == w.players[j]);
        assert(at_wall.players[j].alive());
    }
    assert(player_acted(w, idx, c) == kill_resolved(at_wall, idx, killer));
    if killer != idx {
        assert(at_wall.players[killer] == w.players[killer]);
    }
}

/// The overtime wall in the tick of a player: what `lemma_overtime_wall_kills`
/// says holds of the tick of a living player, bot or human, that the
/// arena bounds stop in overtime, with the controls it gives this tick.
#[verifier::rlimit(50)]
pub proof fn lemma_overtime_wall_kills_in_tick(w: World, idx: int, pad: Pad)
    requires
        w.wf(),
        0 <= idx < MAX_PLAYERS,
        w.players[idx].alive(),
        w.state.overtime,
        hits_wall(before_move(controls_read(w, idx), idx, controls_of(w, idx, pad)), idx),
    ensures
        ({
            let after = player_updated(w, idx, pad);
            let victim = after.players[idx];
            &&& victim.dead
            &&& victim.respawn_timer == RESPAWN_DELAY
            &&& victim.kills == w.players[idx].kills
            &&& victim.x == w.state.arena_left || victim.x == w.state.arena_right - PLAYER_WIDTH
            &&& forall|j: int|
                0 <= j < MAX_PLAYERS && j != idx ==> (#[trigger] after.players[j]).dead
                    == w.players[j].dead
            &&& kills_total(after.players) <= kills_total(w.players) + 1
            &&& (exists|j: int| 0 <= j < MAX_PLAYERS && j != idx && (#[trigger] w.players[j]).alive())
                && (forall|j: int| 0 <= j < MAX_PLAYERS ==> (#[trigger] w.players[j]).kills
                < u32::MAX) ==> kills_total(after.players) == kills_total(w.players) + 1
        }),
{
    let thought = controls_read(w, idx);
    let c = controls_of(w, idx, pad);
    assert(w.players[idx].wf());
    assert(thought.players == w.players.update(idx, thought.players[idx]));
    assert(thought.players[idx].wf());
    assert forall|j: int| 0 <= j < MAX_PLAYERS implies (#[trigger] thought.players[j]).wf() by {
        if j != idx {
            assert(thought.players[j] == w.players[j]);
            assert(w.players[j].wf());
        }
    }
    assert(thought.wf());
    lemma_overtime_wall_kills(thought, idx, c);
    let after = player_acted(thought, idx, c);
    assert(after == player_updated(w, idx, pad));
    let killer = nearest_rival(moved(before_move(thought, idx, c), idx), idx);
    assert forall|j: int| 0 <= j < MAX_PLAYERS implies (#[trigger] thought.players[j]).kills
        == w.players[j].kills && thought.players[j].alive() == w.players[j].alive() by {
        if j != idx {
            assert(thought.players[j] == w.players[j]);
        }
    }
    assert(after.players[0].kills == w.players[0].kills || killer == 0);
    assert(after.players[1].kills == w.players[1].kills || killer == 1);
    assert(after.players[2].kills == w.players[2].kills || killer == 2);
    assert(after.players[3].kills == w.players[3].kills || killer == 3);
    if exists|j: int| 0 <= j < MAX_PLAYERS && j != idx && (#[trigger] w.players[j]).alive() {
        let j = choose|j: int| 0 <= j < MAX_PLAYERS && j != idx && (#[trigger] w.players[j]).alive();
        assert(thought.players[j].alive());
        assert(killer != idx);
    }
}

} // verus!
