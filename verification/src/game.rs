//! Simulation tick and round state: owns all actor and world state and
//! orchestrates the fixed per-frame order of operations (input application,
//! player movement, pickup resolution, timer decay, adversary decisions and
//! movement, collision resolution), maintaining score, the alive flag and
//! the scoring-multiplier state.

use vstd::prelude::*;

use crate::adversary::adversary_after_input;
use crate::adversary::adversary_update_spec;
use crate::adversary::move_only_spec;
use crate::adversary::Adversary;
use crate::constants::ghost_score;
use crate::constants::ghost_score_value;
use crate::constants::GHOST_START_X;
use crate::constants::GHOST_START_Y;
use crate::constants::GRID_H;
use crate::constants::GRID_W;
use crate::constants::POWER_PELLET_DURATION;
use crate::constants::SCORE_PELLET;
use crate::constants::SCORE_POWER_PELLET;
use crate::game_config::pacman_is_ai_spec;
use crate::game_config::GameConfig;
use crate::game_config::GameMode;
use crate::game_config::PlayerRole;
use crate::maze::count_pellets;
use crate::maze::in_grid;
use crate::maze::is_pellet;
use crate::maze::is_power_pellet;
use crate::maze::pellet_at;
use crate::maze::pellet_count;
use crate::maze::pellet_count_row;
use crate::maze::pellet_count_upto;
use crate::maze::power_pellet_at;
use crate::maze::wall_at;
use crate::maze::Maze;
use crate::movement::cardinal;
use crate::player::player_after_input;
use crate::player::player_step;
use crate::player::Player;
use crate::rng::Lfsr;

verus! {

/// The mathematical state of one round: every mutable datum of the
/// simulation, with collections abstracted to sequences. The immutable
/// maze and configuration stand beside it, not in it.
#[verifier::ext_equal]
pub struct GameView {
    /// The primary actor.
    pub player: Player,
    /// The adversary actors.
    pub ghosts: Seq<Adversary>,
    /// Collected-set: one flag per grid cell, row-major.
    pub eaten: Seq<bool>,
    /// The sequence generator's register.
    pub rng_s: u16,
    /// Frame counter (wraps around).
    pub frame: u32,
    /// Pickups remaining.
    pub pellets: i32,
    /// Current score.
    pub score: i32,
    /// One-way alive flag.
    pub alive: bool,
    /// Vulnerability countdown, in frames.
    pub power_pellet_timer: i32,
    /// Adversaries eaten in the current vulnerability window.
    pub ghost_eaten_count: i32,
    /// Which adversary slot is externally controlled, if any.
    pub player_ghost_index: Option<usize>,
}

/// Uncollected pickups in row `y` among the first `upto_x` columns, given
/// the collected-set.
pub open spec fn uncollected_in_row(m: Maze, eaten: Seq<bool>, y: int, upto_x: int) -> int
    decreases upto_x,
{
    if upto_x <= 0 {
        0
    } else {
        uncollected_in_row(m, eaten, y, upto_x - 1) + if pellet_at(m, upto_x - 1, y) && !eaten[y
            * GRID_W + (upto_x - 1)] {
            1int
        } else {
            0int
        }
    }
}

/// Uncollected pickups in the first `upto_y` full rows.
pub open spec fn uncollected_upto(m: Maze, eaten: Seq<bool>, upto_y: int) -> int
    decreases upto_y,
{
    if upto_y <= 0 {
        0
    } else {
        uncollected_upto(m, eaten, upto_y - 1) + uncollected_in_row(m, eaten, upto_y - 1,
            GRID_W as int)
    }
}

/// Total uncollected pickups on the grid.
pub open spec fn uncollected_count(m: Maze, eaten: Seq<bool>) -> int {
    uncollected_upto(m, eaten, GRID_H as int)
}

proof fn lemma_row_all_false(m: Maze, eaten: Seq<bool>, y: int, upto_x: int)
    requires
        eaten.len() == GRID_W * GRID_H,
        0 <= y < GRID_H,
        upto_x <= GRID_W,
        forall|j: int| 0 <= j < eaten.len() ==> !eaten[j],
    ensures
        uncollected_in_row(m, eaten, y, upto_x) == pellet_count_row(m, y, upto_x),
    decreases upto_x,
{
    if upto_x > 0 {
        lemma_row_all_false(m, eaten, y, upto_x - 1);
    }
}

proof fn lemma_upto_all_false(m: Maze, eaten: Seq<bool>, upto_y: int)
    requires
        eaten.len() == GRID_W * GRID_H,
        upto_y <= GRID_H,
        forall|j: int| 0 <= j < eaten.len() ==> !eaten[j],
    ensures
        uncollected_upto(m, eaten, upto_y) == pellet_count_upto(m, upto_y),
    decreases upto_y,
{
    if upto_y > 0 {
        lemma_upto_all_false(m, eaten, upto_y - 1);
        lemma_row_all_false(m, eaten, upto_y - 1, GRID_W as int);
    }
}

/// On a fresh (all-false) collected-set, the uncollected count is the
/// maze's full pickup count.
pub proof fn lemma_uncollected_fresh(m: Maze, eaten: Seq<bool>)
    requires
        eaten.len() == GRID_W * GRID_H,
        forall|j: int| 0 <= j < eaten.len() ==> !eaten[j],
    ensures
        uncollected_count(m, eaten) == pellet_count(m),
{
    lemma_upto_all_false(m, eaten, GRID_H as int);
}

proof fn lemma_row_update_other(m: Maze, eaten: Seq<bool>, y: int, upto_x: int, idx: int, cy: int)
    requires
        eaten.len() == GRID_W * GRID_H,
        0 <= y < GRID_H,
        upto_x <= GRID_W,
        0 <= idx < eaten.len(),
        idx == cy * GRID_W + (idx - cy * GRID_W),
        0 <= idx - cy * GRID_W < GRID_W,
        y != cy,
    ensures
        uncollected_in_row(m, eaten.update(idx, true), y, upto_x) == uncollected_in_row(
            m,
            eaten,
            y,
            upto_x,
        ),
    decreases upto_x,
{
    if upto_x > 0 {
        lemma_row_update_other(m, eaten, y, upto_x - 1, idx, cy);
    }
}

proof fn lemma_row_update_same(m: Maze, eaten: Seq<bool>, upto_x: int, cx: int, cy: int)
    requires
        eaten.len() == GRID_W * GRID_H,
        0 <= cy < GRID_H,
        0 <= cx < GRID_W,
        upto_x <= GRID_W,
        pellet_at(m, cx, cy),
        !eaten[cy * GRID_W + cx],
    ensures
        uncollected_in_row(m, eaten.update(cy * GRID_W + cx, true), cy, upto_x)
            == uncollected_in_row(m, eaten, cy, upto_x) - if cx < upto_x {
            1int
        } else {
            0int
        },
    decreases upto_x,
{
    if upto_x > 0 {
        lemma_row_update_same(m, eaten, upto_x - 1, cx, cy);
    }
}

proof fn lemma_upto_update(m: Maze, eaten: Seq<bool>, upto_y: int, cx: int, cy: int)
    requires
        eaten.len() == GRID_W * GRID_H,
        0 <= cy < GRID_H,
        0 <= cx < GRID_W,
        upto_y <= GRID_H,
        pellet_at(m, cx, cy),
        !eaten[cy * GRID_W + cx],
    ensures
        uncollected_upto(m, eaten.update(cy * GRID_W + cx, true), upto_y) == uncollected_upto(
            m,
            eaten,
            upto_y,
        ) - if cy < upto_y {
            1int
        } else {
            0int
        },
    decreases upto_y,
{
    if upto_y > 0 {
        lemma_upto_update(m, eaten, upto_y - 1, cx, cy);
        if upto_y - 1 == cy {
            lemma_row_update_same(m, eaten, GRID_W as int, cx, cy);
        } else {
            lemma_row_update_other(m, eaten, upto_y - 1, GRID_W as int, cy * GRID_W + cx, cy);
        }
    }
}

proof fn lemma_row_nonneg(m: Maze, eaten: Seq<bool>, y: int, upto_x: int)
    ensures
        uncollected_in_row(m, eaten, y, upto_x) >= 0,
    decreases upto_x,
{
    if upto_x > 0 {
        lemma_row_nonneg(m, eaten, y, upto_x - 1);
    }
}

proof fn lemma_upto_nonneg(m: Maze, eaten: Seq<bool>, upto_y: int)
    ensures
        uncollected_upto(m, eaten, upto_y) >= 0,
    decreases upto_y,
{
    if upto_y > 0 {
        lemma_upto_nonneg(m, eaten, upto_y - 1);
        lemma_row_nonneg(m, eaten, upto_y - 1, GRID_W as int);
    }
}

proof fn lemma_row_at_least_one(m: Maze, eaten: Seq<bool>, upto_x: int, cx: int, cy: int)
    requires
        0 <= cx < upto_x,
        pellet_at(m, cx, cy),
        !eaten[cy * GRID_W + cx],
    ensures
        uncollected_in_row(m, eaten, cy, upto_x) >= 1,
    decreases upto_x,
{
    lemma_row_nonneg(m, eaten, cy, upto_x - 1);
    if cx < upto_x - 1 {
        lemma_row_at_least_one(m, eaten, upto_x - 1, cx, cy);
    }
}

/// Collecting the uncollected pickup under the player removes exactly one
/// from the uncollected count, which was therefore at least one.
pub proof fn lemma_uncollected_collect(m: Maze, eaten: Seq<bool>, cx: int, cy: int)
    requires
        eaten.len() == GRID_W * GRID_H,
        0 <= cy < GRID_H,
        0 <= cx < GRID_W,
        pellet_at(m, cx, cy),
        !eaten[cy * GRID_W + cx],
    ensures
        uncollected_count(m, eaten.update(cy * GRID_W + cx, true)) == uncollected_count(m, eaten)
            - 1,
        uncollected_count(m, eaten) >= 1,
    decreases GRID_H as int,
{
    lemma_upto_update(m, eaten, GRID_H as int, cx, cy);
    lemma_row_at_least_one(m, eaten, GRID_W as int, cx, cy);
    assert forall|k: int| cy < k <= GRID_H implies uncollected_upto(m, eaten, k)
        >= uncollected_in_row(m, eaten, cy, GRID_W as int) by {
        lemma_upto_at_least_row(m, eaten, k, cy);
    }
}

proof fn lemma_upto_at_least_row(m: Maze, eaten: Seq<bool>, upto_y: int, cy: int)
    requires
        0 <= cy < upto_y,
    ensures
        uncollected_upto(m, eaten, upto_y) >= uncollected_in_row(m, eaten, cy, GRID_W as int),
    decreases upto_y,
{
    lemma_upto_nonneg(m, eaten, upto_y - 1);
    lemma_row_nonneg(m, eaten, upto_y - 1, GRID_W as int);
    if cy < upto_y - 1 {
        lemma_upto_at_least_row(m, eaten, upto_y - 1, cy);
    }
}

/// Which adversary slot is externally controlled under a configuration:
/// the first when player 1 drives an adversary, the second when player 2
/// does in multiplayer, none otherwise.
pub open spec fn player_ghost_index_spec(c: GameConfig) -> Option<usize> {
    if c.player1_role == PlayerRole::Adversary {
        Some(0usize)
    } else if c.mode == GameMode::Multiplayer && c.player2_role == Some(PlayerRole::Adversary) {
        Some(1usize)
    } else {
        None
    }
}

/// Largest representable score; score additions saturate here rather than
/// wrap.
pub const SCORE_MAX: i32 = 0x7fff_ffff;

/// Score addition, saturating at the largest representable score (so the
/// score is monotone for any sequence of awards).
pub open spec fn sat_add_score(score: i32, pts: int) -> i32 {
    if score + pts > SCORE_MAX {
        SCORE_MAX
    } else {
        (score + pts) as i32
    }
}

/// Every adversary with its vulnerability flag set.
pub open spec fn all_vulnerable(gs: Seq<Adversary>) -> Seq<Adversary> {
    Seq::new(gs.len(), |i: int| Adversary { vulnerable: true, ..gs[i] })
}

/// Every adversary with its vulnerability flag cleared.
pub open spec fn all_not_vulnerable(gs: Seq<Adversary>) -> Seq<Adversary> {
    Seq::new(gs.len(), |i: int| Adversary { vulnerable: false, ..gs[i] })
}

/// Pickup resolution at the player's cell: an uncollected pickup there is
/// marked collected exactly once, decrements pickups-remaining and awards
/// points; a power pickup additionally awards its larger bonus, restarts
/// the vulnerability countdown at full duration, sets every adversary
/// vulnerable and resets the eaten-adversary counter. Anything else leaves
/// the state untouched.
pub open spec fn collect_spec(m: Maze, v: GameView) -> GameView {
    let px = v.player.x as int;
    let py = v.player.y as int;
    if pellet_at(m, px, py) {
        let idx = py * GRID_W + px;
        if !v.eaten[idx] {
            let base = GameView {
                eaten: v.eaten.update(idx, true),
                pellets: (v.pellets - 1) as i32,
                ..v
            };
            if power_pellet_at(m, px, py) {
                GameView {
                    score: sat_add_score(v.score, SCORE_POWER_PELLET as int),
                    power_pellet_timer: POWER_PELLET_DURATION,
                    ghosts: all_vulnerable(v.ghosts),
                    ghost_eaten_count: 0,
                    ..base
                }
            } else {
                GameView { score: sat_add_score(v.score, SCORE_PELLET as int), ..base }
            }
        } else {
            v
        }
    } else {
        v
    }
}

/// Vulnerability countdown decay: a positive countdown decreases by one
/// frame, and on reaching exactly zero every adversary's vulnerability
/// flag clears in the same tick. This is the sole place vulnerability is
/// turned off by time.
pub open spec fn timer_spec(v: GameView) -> GameView {
    if v.power_pellet_timer > 0 {
        if v.power_pellet_timer == 1 {
            GameView { power_pellet_timer: 0, ghosts: all_not_vulnerable(v.ghosts), ..v }
        } else {
            GameView { power_pellet_timer: (v.power_pellet_timer - 1) as i32, ..v }
        }
    } else {
        v
    }
}

/// Collision resolution from adversary slot `i` on: a vulnerable
/// adversary sharing the player's cell is eaten — points from the
/// saturating multiplier table, the eaten-adversary counter increments,
/// and the adversary returns to its spawn heading up — while a
/// non-vulnerable one ends the round at once, scanning no further.
pub open spec fn collisions_from(v: GameView, i: int) -> GameView
    decreases v.ghosts.len() - i,
{
    if i < 0 || i >= v.ghosts.len() {
        v
    } else {
        let g = v.ghosts[i];
        if v.player.x == g.x && v.player.y == g.y {
            if g.vulnerable {
                let v2 = GameView {
                    score: sat_add_score(v.score, ghost_score_value(v.ghost_eaten_count as int)),
                    ghost_eaten_count: (v.ghost_eaten_count + 1) as i32,
                    ghosts: v.ghosts.update(
                        i,
                        Adversary { x: GHOST_START_X, y: GHOST_START_Y, dx: 0, dy: -1i32, ..g },
                    ),
                    ..v
                };
                collisions_from(v2, i + 1)
            } else {
                GameView { alive: false, ..v }
            }
        } else {
            collisions_from(v, i + 1)
        }
    }
}

/// Collision resolution over all adversary slots, in order.
pub open spec fn collisions_spec(v: GameView) -> GameView {
    collisions_from(v, 0)
}

/// The adversaries and generator after advancing slots `i` on: AI-driven
/// slots run think cadence and movement, the externally controlled slot
/// runs movement only, each threading the shared generator in slot order.
pub open spec fn ghosts_update_from(
    m: Maze,
    gs: Seq<Adversary>,
    pgi: Option<usize>,
    px: int,
    py: int,
    s: u16,
    i: int,
) -> (Seq<Adversary>, u16)
    decreases gs.len() - i,
{
    if i < 0 || i >= gs.len() {
        (gs, s)
    } else if pgi == Some(i as usize) {
        ghosts_update_from(m, gs.update(i, move_only_spec(gs[i], m)), pgi, px, py, s, i + 1)
    } else {
        let r = adversary_update_spec(gs[i], m, px, py, s);
        ghosts_update_from(m, gs.update(i, r.0), pgi, px, py, r.1, i + 1)
    }
}

/// The frame counter's wrapping increment.
pub open spec fn wrap_inc(f: u32) -> u32 {
    if f == 0xffff_ffffu32 {
        0u32
    } else {
        (f + 1) as u32
    }
}

/// Step one of a tick: externally supplied directional intents reach the
/// actors their controllers drive. Player 1's intent goes to the primary
/// actor when that is their role, or to adversary slot 0; player 2's goes
/// to the primary actor (unless it is AI-controlled) or to adversary
/// slot 1.
pub open spec fn apply_intents_spec(
    m: Maze,
    c: GameConfig,
    v: GameView,
    p1: Option<(i32, i32)>,
    p2: Option<(i32, i32)>,
) -> GameView {
    let v1 = match p1 {
        Some(intent) => {
            if c.player1_role == PlayerRole::PacMan {
                GameView {
                    player: player_after_input(v.player, m, intent.0 as int, intent.1 as int),
                    ..v
                }
            } else if c.player1_role == PlayerRole::Adversary && v.player_ghost_index == Some(
                0usize,
            ) {
                GameView {
                    ghosts: v.ghosts.update(
                        0,
                        adversary_after_input(v.ghosts[0], m, intent.0 as int, intent.1 as int),
                    ),
                    ..v
                }
            } else {
                v
            }
        },
        None => v,
    };
    match p2 {
        Some(intent) => {
            if c.player2_role == Some(PlayerRole::PacMan) {
                if !pacman_is_ai_spec(c) {
                    GameView {
                        player: player_after_input(v1.player, m, intent.0 as int, intent.1 as int),
                        ..v1
                    }
                } else {
                    v1
                }
            } else if c.player2_role == Some(PlayerRole::Adversary) && v1.player_ghost_index
                == Some(1usize) {
                GameView {
                    ghosts: v1.ghosts.update(
                        1,
                        adversary_after_input(v1.ghosts[1], m, intent.0 as int, intent.1 as int),
                    ),
                    ..v1
                }
            } else {
                v1
            }
        },
        None => v1,
    }
}

/// One full simulation tick, in the fixed order that is itself the
/// correctness contract: frame count, intent application, primary-actor
/// movement, pickup resolution, vulnerability-countdown decay, adversary
/// decisions and movement (reading the player's post-move position), and
/// collision resolution.
pub open spec fn tick_spec(
    m: Maze,
    c: GameConfig,
    v: GameView,
    p1: Option<(i32, i32)>,
    p2: Option<(i32, i32)>,
) -> GameView {
    let va = GameView { frame: wrap_inc(v.frame), ..v };
    let vb = apply_intents_spec(m, c, va, p1, p2);
    let vc = GameView { player: player_step(vb.player, m), ..vb };
    let vd = collect_spec(m, vc);
    let ve = timer_spec(vd);
    let gs = ghosts_update_from(
        m,
        ve.ghosts,
        ve.player_ghost_index,
        ve.player.x as int,
        ve.player.y as int,
        ve.rng_s,
        0,
    );
    let vf = GameView { ghosts: gs.0, rng_s: gs.1, ..ve };
    collisions_spec(vf)
}

/// The round state, the simulation's exclusive owner of all mutable data.
pub struct Game {
    /// The static tile layout, immutable for the round's lifetime.
    pub maze: Maze,
    /// The primary actor.
    pub player: Player,
    /// The adversary actors (three of them).
    pub ghosts: Vec<Adversary>,
    /// Collected-set: one flag per grid cell, row-major; flips to true at
    /// most once per cell.
    pub eaten: Vec<bool>,
    /// Sequence generator driving adversary decisions.
    pub rng: Lfsr,
    /// Frame counter (wraps around).
    pub frame: u32,
    /// Pickups remaining; reaches zero at level-clear.
    pub pellets: i32,
    /// Current score.
    pub score: i32,
    /// One-way alive flag; false is the terminal round state.
    pub alive: bool,
    /// Vulnerability countdown; all adversaries' vulnerability clears when
    /// it reaches zero.
    pub power_pellet_timer: i32,
    /// Adversaries eaten in the current vulnerability window, indexing the
    /// scoring-multiplier table.
    pub ghost_eaten_count: i32,
    /// Controller configuration, immutable for the round's lifetime.
    pub config: GameConfig,
    /// Which adversary slot is externally controlled, if any.
    pub player_ghost_index: Option<usize>,
}

impl View for Game {
    type V = GameView;

    open spec fn view(&self) -> GameView {
        GameView {
            player: self.player,
            ghosts: self.ghosts@,
            eaten: self.eaten@,
            rng_s: self.rng.s,
            frame: self.frame,
            pellets: self.pellets,
            score: self.score,
            alive: self.alive,
            power_pellet_timer: self.power_pellet_timer,
            ghost_eaten_count: self.ghost_eaten_count,
            player_ghost_index: self.player_ghost_index,
        }
    }
}

/// Well-formedness of a round state against its maze: three well-formed
/// adversaries, a well-placed player, a full-size collected-set whose
/// uncollected count is exactly the pickups-remaining counter, a non-zero
/// generator register, bounded timers, no vulnerability outside an open
/// window, and an eaten-adversary count bounded by the window's ticks.
pub open spec fn view_wf(m: Maze, v: GameView) -> bool {
    &&& v.player.wf(m)
    &&& v.ghosts.len() == 3
    &&& forall|i: int| 0 <= i < v.ghosts.len() ==> (#[trigger] v.ghosts[i]).wf()
    &&& v.eaten.len() == GRID_W * GRID_H
    &&& v.pellets == uncollected_count(m, v.eaten)
    &&& v.rng_s != 0
    &&& 0 <= v.power_pellet_timer <= POWER_PELLET_DURATION
    &&& v.score >= 0
    &&& (v.power_pellet_timer == 0 ==> forall|i: int|
        0 <= i < v.ghosts.len() ==> !(#[trigger] v.ghosts[i]).vulnerable)
    &&& 0 <= v.ghost_eaten_count <= 3 * (POWER_PELLET_DURATION - v.power_pellet_timer)
}

impl Game {
    /// Well-formedness of the round state (see [`view_wf`]).
    pub open spec fn wf(self) -> bool {
        view_wf(self.maze, self@)
    }

    /// Creates a round at its initial state: fresh collected-set, actors
    /// at their fixed spawn tiles, score zero, alive. The maze must leave
    /// the player's spawn tile open.
    pub fn new(config: GameConfig, maze: Maze) -> (r: Self)
        requires
            !wall_at(maze, crate::constants::PLAYER_START_X as int, crate::constants::PLAYER_START_Y as int),
        ensures
            r.maze == maze,
            r.config == config,
            r.player == Player::new_spec(),
            r@.ghosts =~= seq![
                Adversary::spawn_state(12, 14),
                Adversary::spawn_state(13, 14),
                Adversary::spawn_state(14, 14),
            ],
            r@.eaten.len() == GRID_W * GRID_H,
            forall|j: int| 0 <= j < r@.eaten.len() ==> !r@.eaten[j],
            r.rng.s == crate::rng::LFSR_DEFAULT_SEED,
            r.frame == 0,
            r.pellets == pellet_count(maze),
            r.score == 0,
            r.alive == true,
            r.power_pellet_timer == 0,
            r.ghost_eaten_count == 0,
            r.player_ghost_index == player_ghost_index_spec(config),
            r.wf(),
    {
        let total_pellets = count_pellets(&maze);

        let player1_is_adversary = matches!(config.player1_role, PlayerRole::Adversary);
        let multiplayer = matches!(config.mode, GameMode::Multiplayer);
        let player2_is_adversary = match config.player2_role {
            Some(role) => matches!(role, PlayerRole::Adversary),
            None => false,
        };
        let player_ghost_index: Option<usize> = if player1_is_adversary {
            Some(0)
        } else if multiplayer && player2_is_adversary {
            Some(1)
        } else {
            None
        };

        let mut ghosts: Vec<Adversary> = Vec::new();
        ghosts.push(Adversary::new_at(12, 14));
        ghosts.push(Adversary::new_at(13, 14));
        ghosts.push(Adversary::new_at(14, 14));

        let mut eaten: Vec<bool> = Vec::new();
        let cells: usize = (GRID_W * GRID_H) as usize;
        let mut j: usize = 0;
        while j < cells
            invariant
                0 <= j <= cells,
                cells == GRID_W * GRID_H,
                eaten@.len() == j,
                forall|k: int| 0 <= k < j ==> !eaten@[k],
            decreases cells - j,
        {
            eaten.push(false);
            j = j + 1;
        }

        proof {
            lemma_uncollected_fresh(maze, eaten@);
        }

        Self {
            maze,
            player: Player::new(),
            ghosts,
            eaten,
            rng: Lfsr::new(crate::rng::LFSR_DEFAULT_SEED),
            frame: 0,
            pellets: total_pellets,
            score: 0,
            alive: true,
            power_pellet_timer: 0,
            ghost_eaten_count: 0,
            config,
            player_ghost_index,
        }
    }

    /// Converts grid coordinates to an index into the collected-set.
    pub fn pellet_index(x: i32, y: i32) -> (r: usize)
        requires
            in_grid(x as int, y as int),
        ensures
            r == y * GRID_W + x,
    {
        (y * GRID_W + x) as usize
    }

    /// Applies one directional intent to the primary actor, unless it is
    /// AI-controlled.
    pub fn process_input(&mut self, dx: i32, dy: i32)
        requires
            old(self).wf(),
            cardinal(dx as int, dy as int),
        ensures
            final(self)@ == (if !pacman_is_ai_spec(old(self).config) {
                GameView {
                    player: player_after_input(
                        old(self)@.player,
                        old(self).maze,
                        dx as int,
                        dy as int,
                    ),
                    ..old(self)@
                }
            } else {
                old(self)@
            }),
            final(self).maze == old(self).maze,
            final(self).config == old(self).config,
            final(self).wf(),
    {
        if !self.config.pacman_is_ai() {
            let maze = &self.maze;
            self.player.process_input(maze, dx, dy);
        }
    }

    /// Resolves pickup collection at the primary actor's current cell,
    /// per [`collect_spec`]. Collection is idempotent: an already
    /// collected cell changes nothing.
    pub fn handle_pellet_collection(&mut self)
        requires
            old(self).wf(),
        ensures
            final(self)@ == collect_spec(old(self).maze, old(self)@),
            final(self).maze == old(self).maze,
            final(self).config == old(self).config,
            final(self).wf(),
            final(self)@.score >= old(self)@.score,
            final(self)@.pellets <= old(self)@.pellets,
            final(self)@.alive == old(self)@.alive,
            final(self)@.player == old(self)@.player,
    {
        let ghost v0 = self@;
        let px = self.player.x;
        let py = self.player.y;
        if is_pellet(&self.maze, px, py) {
            let pellet_index = Game::pellet_index(px, py);

            if !self.eaten[pellet_index] {
                proof {
                    lemma_uncollected_collect(self.maze, self.eaten@, px as int, py as int);
                }
                self.eaten.set(pellet_index, true);
                self.pellets = self.pellets - 1;

                if is_power_pellet(&self.maze, px, py) {
                    self.score = add_score(self.score, SCORE_POWER_PELLET);
                    self.power_pellet_timer = POWER_PELLET_DURATION;

                    let ghost v1 = self@;
                    let mut i: usize = 0;
                    while i < self.ghosts.len()
                        invariant
                            0 <= i <= self.ghosts@.len(),
                            self.ghosts@.len() == v1.ghosts.len(),
                            self.maze == old(self).maze,
                            self.config == old(self).config,
                            self@ == (GameView { ghosts: self.ghosts@, ..v1 }),
                            forall|k: int|
                                0 <= k < i ==> self.ghosts@[k] == (Adversary {
                                    vulnerable: true,
                                    ..v1.ghosts[k]
                                }),
                            forall|k: int|
                                i <= k < self.ghosts@.len() ==> self.ghosts@[k] == v1.ghosts[k],
                        decreases self.ghosts@.len() - i,
                    {
                        let mut g = self.ghosts[i];
                        g.vulnerable = true;
                        self.ghosts.set(i, g);
                        i = i + 1;
                    }
                    assert(self.ghosts@ =~= all_vulnerable(v1.ghosts));

                    self.ghost_eaten_count = 0;
                } else {
                    self.score = add_score(self.score, SCORE_PELLET);
                }
            }
        }
        assert(self@ =~= collect_spec(self.maze, v0));
    }

    /// Decays the vulnerability countdown, per [`timer_spec`]: on the
    /// frame it reaches exactly zero, every adversary's vulnerability
    /// flag clears, with no off-by-one lag.
    pub fn update_power_pellet_timer(&mut self)
        requires
            old(self).wf(),
        ensures
            final(self)@ == timer_spec(old(self)@),
            final(self).maze == old(self).maze,
            final(self).config == old(self).config,
            final(self).wf(),
            final(self)@.score == old(self)@.score,
            final(self)@.pellets == old(self)@.pellets,
            final(self)@.alive == old(self)@.alive,
            final(self)@.player == old(self)@.player,
            old(self)@.power_pellet_timer == 1 ==> (final(self)@.power_pellet_timer == 0
                && forall|i: int|
                0 <= i < final(self)@.ghosts.len()
                    ==> !(#[trigger] final(self).ghosts@[i]).vulnerable),
            final(self)@.power_pellet_timer > 0 ==> final(self)@.ghost_eaten_count + 3 <= 3 * (
            POWER_PELLET_DURATION - final(self)@.power_pellet_timer),
    {
        let ghost v0 = self@;
        if self.power_pellet_timer > 0 {
            self.power_pellet_timer = self.power_pellet_timer - 1;

            if self.power_pellet_timer == 0 {
                let ghost v1 = self@;
                let mut i: usize = 0;
                while i < self.ghosts.len()
                    invariant
                        0 <= i <= self.ghosts@.len(),
                        self.ghosts@.len() == v1.ghosts.len(),
                        self.maze == old(self).maze,
                        self.config == old(self).config,
                        self@ == (GameView { ghosts: self.ghosts@, ..v1 }),
                        forall|k: int|
                            0 <= k < i ==> self.ghosts@[k] == (Adversary {
                                vulnerable: false,
                                ..v1.ghosts[k]
                            }),
                        forall|k: int|
                            i <= k < self.ghosts@.len() ==> self.ghosts@[k] == v1.ghosts[k],
                    decreases self.ghosts@.len() - i,
                {
                    let mut g = self.ghosts[i];
                    g.vulnerable = false;
                    self.ghosts.set(i, g);
                    i = i + 1;
                }
                assert(self.ghosts@ =~= all_not_vulnerable(v1.ghosts));
            }
        }
        assert(self@ =~= timer_spec(v0));
    }

    /// Resolves collisions between the primary actor and every adversary
    /// sharing its cell, per [`collisions_spec`]. Called after the timer
    /// decay of the same tick, whose extra slack admits up to three
    /// eatings without breaking the eaten-count bound.
    pub fn check_collisions(&mut self)
        requires
            old(self).wf(),
            old(self)@.power_pellet_timer > 0 ==> old(self)@.ghost_eaten_count + 3 <= 3 * (
            POWER_PELLET_DURATION - old(self)@.power_pellet_timer),
        ensures
            final(self)@ == collisions_spec(old(self)@),
            final(self).maze == old(self).maze,
            final(self).config == old(self).config,
            final(self).wf(),
            final(self)@.score >= old(self)@.score,
            final(self)@.pellets == old(self)@.pellets,
            final(self)@.alive ==> old(self)@.alive,
            final(self)@.player == old(self)@.player,
    {
        let ghost v0 = self@;
        let mut i: usize = 0;
        while i < self.ghosts.len()
            invariant
                v0 == old(self)@,
                0 <= i <= self.ghosts@.len(),
                self.ghosts@.len() == v0.ghosts.len(),
                collisions_from(v0, 0) == collisions_from(self@, i as int),
                self.maze == old(self).maze,
                self.config == old(self).config,
                self.player == v0.player,
                self.eaten@ == v0.eaten,
                self.rng == old(self).rng,
                self.frame == v0.frame,
                self.pellets == v0.pellets,
                self.alive == v0.alive,
                self.power_pellet_timer == v0.power_pellet_timer,
                self.player_ghost_index == v0.player_ghost_index,
                view_wf(self.maze, v0),
                v0.power_pellet_timer > 0 ==> v0.ghost_eaten_count + 3 <= 3 * (
                POWER_PELLET_DURATION - v0.power_pellet_timer),
                v0.power_pellet_timer == 0 ==> self.ghost_eaten_count == v0.ghost_eaten_count,
                self.score >= v0.score,
                self@.score >= 0,
                v0.ghost_eaten_count <= self.ghost_eaten_count <= v0.ghost_eaten_count + i,
                forall|k: int| 0 <= k < self.ghosts@.len() ==> (#[trigger] self.ghosts@[k]).wf(),
                forall|k: int|
                    0 <= k < self.ghosts@.len() ==> (#[trigger] self.ghosts@[k]).vulnerable
                        == v0.ghosts[k].vulnerable,
            decreases self.ghosts@.len() - i,
        {
            let g = self.ghosts[i];
            if self.player.x == g.x && self.player.y == g.y {
                if g.vulnerable {
                    let ghost v_before = self@;
                    let points = ghost_score(self.ghost_eaten_count);
                    self.score = add_score(self.score, points);
                    self.ghost_eaten_count = self.ghost_eaten_count + 1;

                    let mut eaten_ghost = self.ghosts[i];
                    eaten_ghost.reset_to_center();
                    self.ghosts.set(i, eaten_ghost);
                    proof {
                        assert(self@ =~= (GameView {
                            score: sat_add_score(
                                v_before.score,
                                ghost_score_value(v_before.ghost_eaten_count as int),
                            ),
                            ghost_eaten_count: (v_before.ghost_eaten_count + 1) as i32,
                            ghosts: v_before.ghosts.update(
                                i as int,
                                Adversary {
                                    x: GHOST_START_X,
                                    y: GHOST_START_Y,
                                    dx: 0,
                                    dy: -1i32,
                                    ..v_before.ghosts[i as int]
                                },
                            ),
                            ..v_before
                        }));
                    }
                } else {
                    let ghost v_before = self@;
                    self.alive = false;
                    proof {
                        assert(collisions_from(v_before, i as int) == (GameView {
                            alive: false,
                            ..v_before
                        }));
                        assert(self@ =~= (GameView { alive: false, ..v_before }));
                    }
                    return ;
                }
            }
            i = i + 1;
        }
    }

    /// Advances the simulation exactly one fixed virtual frame, per
    /// [`tick_spec`]. Across any tick, the score never decreases, the
    /// pickups-remaining counter never increases, the alive flag only
    /// falls, and the primary actor never ends on a wall cell.
    #[verifier::rlimit(80)]
    pub fn tick(&mut self, p1_intent: Option<(i32, i32)>, p2_intent: Option<(i32, i32)>)
        requires
            old(self).wf(),
            (match p1_intent {
                Some(d) => cardinal(d.0 as int, d.1 as int),
                None => true,
            }),
            (match p2_intent {
                Some(d) => cardinal(d.0 as int, d.1 as int),
                None => true,
            }),
        ensures
            final(self)@ == tick_spec(
                old(self).maze,
                old(self).config,
                old(self)@,
                p1_intent,
                p2_intent,
            ),
            final(self).maze == old(self).maze,
            final(self).config == old(self).config,
            final(self).wf(),
            final(self)@.score >= old(self)@.score,
            final(self)@.pellets <= old(self)@.pellets,
            final(self)@.pellets >= 0,
            final(self)@.alive ==> old(self)@.alive,
            !wall_at(
                old(self).maze,
                final(self)@.player.x as int,
                final(self)@.player.y as int,
            ),
    {
        let ghost m = self.maze;
        let ghost c = self.config;
        let ghost v0 = self@;

        self.frame = if self.frame == 0xffff_ffffu32 {
            0
        } else {
            self.frame + 1
        };
        let ghost va = GameView { frame: wrap_inc(v0.frame), ..v0 };
        assert(self@ =~= va);

        if let Some((dx, dy)) = p1_intent {
            let player1_is_pacman = matches!(self.config.player1_role, PlayerRole::PacMan);
            let player1_is_adversary = matches!(self.config.player1_role, PlayerRole::Adversary);
            if player1_is_pacman {
                let maze = &self.maze;
                self.player.process_input(maze, dx, dy);
            } else if player1_is_adversary {
                let drives_slot0 = match self.player_ghost_index {
                    Some(slot) => slot == 0,
                    None => false,
                };
                if drives_slot0 {
                    let mut g = self.ghosts[0];
                    g.process_input(&self.maze, dx, dy);
                    self.ghosts.set(0, g);
                }
            }
        }
        if let Some((dx, dy)) = p2_intent {
            let player2_is_pacman = match self.config.player2_role {
                Some(role) => matches!(role, PlayerRole::PacMan),
                None => false,
            };
            let player2_is_adversary = match self.config.player2_role {
                Some(role) => matches!(role, PlayerRole::Adversary),
                None => false,
            };
            if player2_is_pacman {
                self.process_input(dx, dy);
            } else if player2_is_adversary {
                let drives_slot1 = match self.player_ghost_index {
                    Some(slot) => slot == 1,
                    None => false,
                };
                if drives_slot1 {
                    let mut g = self.ghosts[1];
                    g.process_input(&self.maze, dx, dy);
                    self.ghosts.set(1, g);
                }
            }
        }
        let ghost vb = apply_intents_spec(m, c, va, p1_intent, p2_intent);
        assert(self@ =~= vb);

        self.player.update(&self.maze);
        let ghost vc = GameView { player: player_step(vb.player, m), ..vb };
        assert(self@ =~= vc);

        self.handle_pellet_collection();
        let ghost vd = collect_spec(m, vc);
        assert(self@ == vd);

        self.update_power_pellet_timer();
        let ghost ve = timer_spec(vd);
        assert(self@ == ve);

        let px = self.player.x;
        let py = self.player.y;
        let mut rng = self.rng;
        let mut i: usize = 0;
        while i < self.ghosts.len()
            invariant
                ve == timer_spec(collect_spec(m, vc)),
                view_wf(m, ve),
                ve.power_pellet_timer > 0 ==> ve.ghost_eaten_count + 3 <= 3 * (
                POWER_PELLET_DURATION - ve.power_pellet_timer),
                0 <= i <= self.ghosts@.len(),
                self.ghosts@.len() == ve.ghosts.len(),
                self.maze == m,
                self.config == c,
                self@ == (GameView { ghosts: self.ghosts@, rng_s: ve.rng_s, ..ve }),
                px == ve.player.x && py == ve.player.y,
                in_grid(px as int, py as int),
                rng.s != 0,
                ghosts_update_from(m, ve.ghosts, ve.player_ghost_index, px as int, py as int,
                    ve.rng_s, 0) == ghosts_update_from(
                    m,
                    self.ghosts@,
                    ve.player_ghost_index,
                    px as int,
                    py as int,
                    rng.s,
                    i as int,
                ),
                forall|k: int| 0 <= k < self.ghosts@.len() ==> (#[trigger] self.ghosts@[k]).wf(),
                forall|k: int|
                    0 <= k < self.ghosts@.len() ==> (#[trigger] self.ghosts@[k]).vulnerable
                        == ve.ghosts[k].vulnerable,
            decreases self.ghosts@.len() - i,
        {
            let is_player_controlled = match self.player_ghost_index {
                Some(slot) => slot == i,
                None => false,
            };
            if !is_player_controlled {
                let mut g = self.ghosts[i];
                g.update(&self.maze, &mut rng, px, py);
                self.ghosts.set(i, g);
            } else {
                let mut g = self.ghosts[i];
                g.update_movement_only(&self.maze);
                self.ghosts.set(i, g);
            }
            i = i + 1;
        }
        self.rng = rng;

        let ghost gs = ghosts_update_from(m, ve.ghosts, ve.player_ghost_index, px as int,
            py as int, ve.rng_s, 0);
        let ghost vf = GameView { ghosts: gs.0, rng_s: gs.1, ..ve };
        assert(self@ =~= vf);

        self.check_collisions();
        assert(self@ == collisions_spec(vf));
        assert(self@ == tick_spec(m, c, v0, p1_intent, p2_intent));
        proof {
            lemma_upto_nonneg(self.maze, self.eaten@, GRID_H as int);
        }
    }
}

/// Pickup resolution is idempotent: resolving a second time from the
/// state a first resolution produced — in particular on a cell that is
/// already collected — changes nothing, so score and pickups-remaining
/// stay put.
pub proof fn lemma_collect_idempotent(m: Maze, v: GameView)
    requires
        v.eaten.len() == GRID_W * GRID_H,
    ensures
        collect_spec(m, collect_spec(m, v)) == collect_spec(m, v),
        collect_spec(m, collect_spec(m, v)).score == collect_spec(m, v).score,
        collect_spec(m, collect_spec(m, v)).pellets == collect_spec(m, v).pellets,
{
    let px = v.player.x as int;
    let py = v.player.y as int;
    let v1 = collect_spec(m, v);
    if pellet_at(m, px, py) && !v.eaten[py * GRID_W + px] {
        assert(v1.eaten[py * GRID_W + px]);
    }
    assert(collect_spec(m, v1) =~= v1);
}

/// Collecting a power pickup always resets the eaten-adversary counter to
/// zero, sets every adversary's vulnerability flag, and restarts the
/// countdown at its full duration, regardless of prior state.
pub proof fn lemma_power_pickup_resets(m: Maze, v: GameView)
    requires
        v.eaten.len() == GRID_W * GRID_H,
        power_pellet_at(m, v.player.x as int, v.player.y as int),
        !v.eaten[v.player.y * GRID_W + v.player.x],
    ensures
        collect_spec(m, v).ghost_eaten_count == 0,
        collect_spec(m, v).power_pellet_timer == POWER_PELLET_DURATION,
        forall|i: int|
            0 <= i < collect_spec(m, v).ghosts.len() ==> (#[trigger] collect_spec(
                m,
                v,
            ).ghosts[i]).vulnerable,
{
}

/// The scoring multiplier saturates: once the eaten-adversary count has
/// passed the table's length, eating the one vulnerable adversary on the
/// player's cell awards the last table entry (1600) — never an
/// out-of-bounds lookup — and advances the counter by one. (Stated away
/// from the score cap, where the saturating addition is plain addition.)
pub proof fn lemma_multiplier_saturates(v: GameView, i: int)
    requires
        v.ghosts.len() == 3,
        0 <= i < 3,
        v.ghost_eaten_count >= 3,
        v.ghost_eaten_count < 0x7fff_ffff,
        v.ghosts[i].vulnerable,
        v.player.x == v.ghosts[i].x && v.player.y == v.ghosts[i].y,
        forall|k: int|
            0 <= k < 3 && k != i ==> !(v.player.x == (#[trigger] v.ghosts[k]).x && v.player.y
                == v.ghosts[k].y),
        0 <= v.score <= SCORE_MAX - 1600,
    ensures
        collisions_spec(v).score == v.score + 1600,
        collisions_spec(v).ghost_eaten_count == v.ghost_eaten_count + 1,
        collisions_spec(v).alive == v.alive,
{
    reveal_with_fuel(collisions_from, 5);
}

/// Two eatings in one window score ascending tiers: from a fresh window
/// (eaten count zero), colliding with exactly two distinct vulnerable
/// adversaries in one resolution awards table indices 0 then 1 (200 then
/// 400), leaves the counter at 2, and returns both adversaries to the
/// spawn tile heading up. (Stated away from the score cap, where the
/// saturating addition is plain addition.)
pub proof fn lemma_two_eatings_score_ascending_tiers(v: GameView, i: int, j: int)
    requires
        v.ghosts.len() == 3,
        0 <= i < j < 3,
        v.ghost_eaten_count == 0,
        v.ghosts[i].vulnerable && v.ghosts[j].vulnerable,
        v.player.x == v.ghosts[i].x && v.player.y == v.ghosts[i].y,
        v.player.x == v.ghosts[j].x && v.player.y == v.ghosts[j].y,
        forall|k: int|
            0 <= k < 3 && k != i && k != j ==> !(v.player.x == (#[trigger] v.ghosts[k]).x
                && v.player.y == v.ghosts[k].y),
        0 <= v.score <= SCORE_MAX - 600,
    ensures
        collisions_spec(v).score == v.score + 200 + 400,
        collisions_spec(v).ghost_eaten_count == 2,
        collisions_spec(v).alive == v.alive,
        collisions_spec(v).ghosts[i] == (Adversary {
            x: GHOST_START_X,
            y: GHOST_START_Y,
            dx: 0,
            dy: -1i32,
            ..v.ghosts[i]
        }),
        collisions_spec(v).ghosts[j] == (Adversary {
            x: GHOST_START_X,
            y: GHOST_START_Y,
            dx: 0,
            dy: -1i32,
            ..v.ghosts[j]
        }),
{
    reveal_with_fuel(collisions_from, 5);
}

/// Score addition saturating at [`SCORE_MAX`].
fn add_score(score: i32, points: i32) -> (r: i32)
    requires
        0 <= score,
        0 <= points,
    ensures
        r == sat_add_score(score, points as int),
        r >= score,
{
    if score > SCORE_MAX - points {
        SCORE_MAX
    } else {
        score + points
    }
}

} // verus!
