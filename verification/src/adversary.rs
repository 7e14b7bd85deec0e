//! Adversary actors: AI decision making (normal and flee policies),
//! grid-stepping movement with tunnel wraparound and teleportation, and
//! the externally controlled variant used when a player drives an
//! adversary.

use vstd::prelude::*;

use crate::constants::GHOST_MOVE_SUBFRAMES;
use crate::constants::GHOST_START_X;
use crate::constants::GHOST_START_Y;
use crate::constants::GHOST_THINK_INTERVAL;
use crate::constants::GRID_W;
use crate::constants::TUNNEL_ROW;
use crate::maze::find_other_teleporter;
use crate::maze::in_grid;
use crate::maze::is_teleporter;
use crate::maze::is_wall;
use crate::maze::lemma_other_teleporter_pairs;
use crate::maze::other_teleporter;
use crate::maze::teleporter_digit_at;
use crate::maze::wall_at;
use crate::maze::Maze;
use crate::movement::cardinal;
use crate::movement::dir_ok;
use crate::movement::wrapped_target;
use crate::rng::lfsr_step;
use crate::rng::Lfsr;

verus! {

/// An adversary actor chasing (or fleeing) the primary actor.
#[derive(Clone, Copy, Debug, PartialEq, Eq, Structural)]
pub struct Adversary {
    /// Current X position on the grid.
    pub x: i32,
    /// Current Y position on the grid.
    pub y: i32,
    /// Current X heading (-1, 0 or 1).
    pub dx: i32,
    /// Current Y heading (-1, 0 or 1).
    pub dy: i32,
    /// Sub-frame counter: increments each frame, resets when the actor steps.
    pub sub_frame_counter: i32,
    /// Counts up to the think interval before the next AI decision.
    pub think_timer: i32,
    /// Whether the adversary is vulnerable (can be eaten).
    pub vulnerable: bool,
}

/// The sign of a distance: 1, -1 or 0.
pub open spec fn signum(v: int) -> int {
    if v > 0 {
        1
    } else if v < 0 {
        -1
    } else {
        0
    }
}

/// A direction is a movement candidate: it leads to a non-wall cell and is
/// not the exact reverse of the current heading.
pub open spec fn dir_candidate(m: Maze, g: Adversary, dx: int, dy: int) -> bool {
    !wall_at(m, g.x + dx, g.y + dy) && !(dx == -g.dx && dy == -g.dy)
}

/// A candidate moves directly away from the pursued actor along its axis,
/// earning the higher flee priority.
pub open spec fn flee_away(g: Adversary, px: int, py: int, dx: int, dy: int) -> bool {
    (dx == 0 && signum(py - g.y) == -dy) || (dy == 0 && signum(px - g.x) == -dx)
}

/// Movement candidates under the normal policy, in the fixed enumeration
/// order up, down, left, right.
pub open spec fn normal_candidates(m: Maze, g: Adversary) -> Seq<(i32, i32)> {
    let s0 = Seq::<(i32, i32)>::empty();
    let s1 = if dir_candidate(m, g, 0, -1) {
        s0.push((0i32, -1i32))
    } else {
        s0
    };
    let s2 = if dir_candidate(m, g, 0, 1) {
        s1.push((0i32, 1i32))
    } else {
        s1
    };
    let s3 = if dir_candidate(m, g, -1, 0) {
        s2.push((-1i32, 0i32))
    } else {
        s2
    };
    if dir_candidate(m, g, 1, 0) {
        s3.push((1i32, 0i32))
    } else {
        s3
    }
}

/// Flee-policy candidates of one priority tier (`away` selects the tier),
/// in the fixed enumeration order up, down, left, right.
pub open spec fn flee_tier(m: Maze, g: Adversary, px: int, py: int, away: bool) -> Seq<(i32, i32)> {
    let s0 = Seq::<(i32, i32)>::empty();
    let s1 = if dir_candidate(m, g, 0, -1) && flee_away(g, px, py, 0, -1) == away {
        s0.push((0i32, -1i32))
    } else {
        s0
    };
    let s2 = if dir_candidate(m, g, 0, 1) && flee_away(g, px, py, 0, 1) == away {
        s1.push((0i32, 1i32))
    } else {
        s1
    };
    let s3 = if dir_candidate(m, g, -1, 0) && flee_away(g, px, py, -1, 0) == away {
        s2.push((-1i32, 0i32))
    } else {
        s2
    };
    if dir_candidate(m, g, 1, 0) && flee_away(g, px, py, 1, 0) == away {
        s3.push((1i32, 0i32))
    } else {
        s3
    }
}

/// The adversary and generator after one normal-policy decision: a uniform
/// draw among the candidates, or an exact reversal when there is none.
pub open spec fn think_normal_spec(g: Adversary, m: Maze, s: u16) -> (Adversary, u16) {
    let c = normal_candidates(m, g);
    if c.len() == 0 {
        (Adversary { dx: (-g.dx) as i32, dy: (-g.dy) as i32, ..g }, s)
    } else {
        let s2 = lfsr_step(s);
        let idx = (s2 % (c.len() as u16)) as int;
        (Adversary { dx: c[idx].0, dy: c[idx].1, ..g }, s2)
    }
}

/// The adversary and generator after one flee-policy decision: a uniform
/// draw among the top-priority tier (directions moving directly away from
/// the pursuer when any exists, all candidates otherwise), or an exact
/// reversal when there is no candidate at all.
pub open spec fn think_flee_spec(g: Adversary, m: Maze, px: int, py: int, s: u16) -> (
    Adversary,
    u16,
) {
    let high = flee_tier(m, g, px, py, true);
    let low = flee_tier(m, g, px, py, false);
    if high.len() + low.len() == 0 {
        (Adversary { dx: (-g.dx) as i32, dy: (-g.dy) as i32, ..g }, s)
    } else {
        let top = if high.len() > 0 {
            high
        } else {
            low
        };
        let s2 = lfsr_step(s);
        let idx = (s2 % (top.len() as u16)) as int;
        (Adversary { dx: top[idx].0, dy: top[idx].1, ..g }, s2)
    }
}

/// One AI decision: the flee policy when vulnerable, the normal policy
/// otherwise. Mutates only the heading (and the generator).
pub open spec fn think_spec(g: Adversary, m: Maze, px: int, py: int, s: u16) -> (Adversary, u16) {
    if g.vulnerable {
        think_flee_spec(g, m, px, py, s)
    } else {
        think_normal_spec(g, m, s)
    }
}

/// One movement-only frame: the sub-frame counter advances, and on
/// reaching the move period the actor takes one wall-checked grid step
/// with tunnel wraparound, follows a teleporter to its pair, and stops
/// when blocked (without re-thinking).
pub open spec fn move_only_spec(g: Adversary, m: Maze) -> Adversary {
    if g.sub_frame_counter + 1 < GHOST_MOVE_SUBFRAMES {
        Adversary { sub_frame_counter: (g.sub_frame_counter + 1) as i32, ..g }
    } else {
        let aligned = Adversary { sub_frame_counter: 0, ..g };
        let target = wrapped_target(aligned.x as int, aligned.y as int, aligned.dx as int,
            aligned.dy as int);
        if !wall_at(m, target.0, target.1) {
            match other_teleporter(m, target.0, target.1) {
                Some((tx, ty)) => Adversary { x: tx as i32, y: ty as i32, ..aligned },
                None => Adversary { x: target.0 as i32, y: target.1 as i32, ..aligned },
            }
        } else {
            Adversary { dx: 0, dy: 0, ..aligned }
        }
    }
}

/// The think-cadence half of a full AI frame: the think timer advances,
/// and on reaching the think interval an AI decision fires and the timer
/// resets.
pub open spec fn update_think_phase(g: Adversary, m: Maze, px: int, py: int, s: u16) -> (
    Adversary,
    u16,
) {
    let bumped = Adversary { think_timer: (g.think_timer + 1) as i32, ..g };
    if g.think_timer + 1 >= GHOST_THINK_INTERVAL {
        let t = think_spec(bumped, m, px, py, s);
        (Adversary { think_timer: 0, ..t.0 }, t.1)
    } else {
        (bumped, s)
    }
}

/// The movement half of a full AI frame: the sub-frame cadence runs with
/// tunnel wraparound and teleporter relocation, and a wall-blocked step
/// stops the actor and forces an immediate re-decision.
pub open spec fn update_move_phase(g1: Adversary, m: Maze, px: int, py: int, s1: u16) -> (
    Adversary,
    u16,
) {
    if g1.sub_frame_counter + 1 < GHOST_MOVE_SUBFRAMES {
        (Adversary { sub_frame_counter: (g1.sub_frame_counter + 1) as i32, ..g1 }, s1)
    } else {
        let aligned = Adversary { sub_frame_counter: 0, ..g1 };
        let target = wrapped_target(aligned.x as int, aligned.y as int, aligned.dx as int,
            aligned.dy as int);
        if !wall_at(m, target.0, target.1) {
            match other_teleporter(m, target.0, target.1) {
                Some((tx, ty)) => (Adversary { x: tx as i32, y: ty as i32, ..aligned }, s1),
                None => (Adversary { x: target.0 as i32, y: target.1 as i32, ..aligned }, s1),
            }
        } else {
            think_spec(Adversary { dx: 0, dy: 0, ..aligned }, m, px, py, s1)
        }
    }
}

/// One full AI frame: the think cadence, then the movement cadence.
pub open spec fn adversary_update_spec(g: Adversary, m: Maze, px: int, py: int, s: u16) -> (
    Adversary,
    u16,
) {
    let t = update_think_phase(g, m, px, py, s);
    update_move_phase(t.0, m, px, py, t.1)
}

/// The adversary state after one externally supplied directional intent:
/// applied only when the target cell is open and the actor is grid-aligned,
/// the turn is perpendicular to the current heading (even mid-step), or
/// the turn exactly reverses the heading.
pub open spec fn adversary_after_input(g: Adversary, m: Maze, dx: int, dy: int) -> Adversary {
    let can_turn = (dx != g.dx || dy != g.dy) && !wall_at(m, g.x + dx, g.y + dy);
    let is_perpendicular = (dx != 0 && g.dy != 0) || (dy != 0 && g.dx != 0);
    let is_reverse = dx == -g.dx && dy == -g.dy;
    let is_aligned = g.sub_frame_counter == 0;
    if can_turn && (is_aligned || is_perpendicular || is_reverse) {
        Adversary { dx: dx as i32, dy: dy as i32, ..g }
    } else {
        g
    }
}

/// The sign of a distance: 1, -1 or 0.
fn sign(v: i32) -> (r: i32)
    ensures
        r == signum(v as int),
{
    if v > 0 {
        1
    } else if v < 0 {
        -1
    } else {
        0
    }
}

impl Adversary {
    /// The positional part of well-formedness: the position is within grid
    /// bounds and the heading is axis-aligned. (The spawn tile itself need
    /// not be an open cell.)
    pub open spec fn pos_dir_wf(self) -> bool {
        &&& in_grid(self.x as int, self.y as int)
        &&& dir_ok(self.dx as int, self.dy as int)
    }

    /// Well-formedness: the position is within grid bounds, the heading is
    /// axis-aligned, and both cadence counters are within their periods.
    pub open spec fn wf(self) -> bool {
        &&& self.pos_dir_wf()
        &&& 0 <= self.sub_frame_counter < GHOST_MOVE_SUBFRAMES
        &&& 0 <= self.think_timer < GHOST_THINK_INTERVAL
    }

    /// Creates an adversary at the default spawn tile, heading up.
    pub fn new() -> (r: Self)
        ensures
            r == Adversary::spawn_state(GHOST_START_X as int, GHOST_START_Y as int),
            r.wf(),
    {
        Self::new_at(GHOST_START_X, GHOST_START_Y)
    }

    /// The freshly spawned state at a tile: heading up, counters zero, not
    /// vulnerable.
    pub open spec fn spawn_state(x: int, y: int) -> Adversary {
        Adversary {
            x: x as i32,
            y: y as i32,
            dx: 0,
            dy: -1i32,
            sub_frame_counter: 0,
            think_timer: 0,
            vulnerable: false,
        }
    }

    /// Creates an adversary at the given tile, heading up.
    pub fn new_at(x: i32, y: i32) -> (r: Self)
        requires
            in_grid(x as int, y as int),
        ensures
            r == Adversary::spawn_state(x as int, y as int),
            r.wf(),
    {
        Self { x, y, dx: 0, dy: -1, sub_frame_counter: 0, think_timer: 0, vulnerable: false }
    }

    /// Makes one AI decision about the heading: flees the pursuer when
    /// vulnerable, roams at random otherwise. Mutates only this actor's
    /// heading and the shared generator.
    pub fn think(&mut self, m: &Maze, player_x: i32, player_y: i32, rng: &mut Lfsr)
        requires
            old(self).pos_dir_wf(),
            in_grid(player_x as int, player_y as int),
        ensures
            *final(self) == think_spec(
                *old(self),
                *m,
                player_x as int,
                player_y as int,
                old(rng).s,
            ).0,
            final(rng).s == think_spec(
                *old(self),
                *m,
                player_x as int,
                player_y as int,
                old(rng).s,
            ).1,
            final(self).pos_dir_wf(),
            final(self).sub_frame_counter == old(self).sub_frame_counter,
            final(self).think_timer == old(self).think_timer,
            old(rng).s != 0 ==> final(rng).s != 0,
    {
        if self.vulnerable {
            self.think_flee_mode(m, player_x, player_y, rng);
        } else {
            self.think_normal_mode(m, rng);
        }
    }

    /// Flee policy: prefer directions moving directly away from the
    /// pursuer; draw uniformly among the best tier; reverse when stuck.
    #[verifier::rlimit(50)]
    pub fn think_flee_mode(&mut self, m: &Maze, player_x: i32, player_y: i32, rng: &mut Lfsr)
        requires
            old(self).pos_dir_wf(),
            in_grid(player_x as int, player_y as int),
        ensures
            *final(self) == think_flee_spec(
                *old(self),
                *m,
                player_x as int,
                player_y as int,
                old(rng).s,
            ).0,
            final(rng).s == think_flee_spec(
                *old(self),
                *m,
                player_x as int,
                player_y as int,
                old(rng).s,
            ).1,
            final(self).pos_dir_wf(),
            final(self).sub_frame_counter == old(self).sub_frame_counter,
            final(self).think_timer == old(self).think_timer,
            old(rng).s != 0 ==> final(rng).s != 0,
    {
        let ghost g = *self;
        let ghost px = player_x as int;
        let ghost py = player_y as int;
        let distance_to_player_x = player_x - self.x;
        let distance_to_player_y = player_y - self.y;

        let mut high: Vec<(i32, i32)> = Vec::new();
        let mut low: Vec<(i32, i32)> = Vec::new();

        if !is_wall(m, self.x, self.y - 1) && !(0 == -self.dx && -1 == -self.dy) {
            if sign(distance_to_player_y) == 1 {
                high.push((0, -1));
            } else {
                low.push((0, -1));
            }
        }
        if !is_wall(m, self.x, self.y + 1) && !(0 == -self.dx && 1 == -self.dy) {
            if sign(distance_to_player_y) == -1 {
                high.push((0, 1));
            } else {
                low.push((0, 1));
            }
        }
        if !is_wall(m, self.x - 1, self.y) && !(-1 == -self.dx && 0 == -self.dy) {
            if sign(distance_to_player_x) == 1 {
                high.push((-1, 0));
            } else {
                low.push((-1, 0));
            }
        }
        if !is_wall(m, self.x + 1, self.y) && !(1 == -self.dx && 0 == -self.dy) {
            if sign(distance_to_player_x) == -1 {
                high.push((1, 0));
            } else {
                low.push((1, 0));
            }
        }

        assert(high@ =~= flee_tier(*m, g, px, py, true));
        assert(low@ =~= flee_tier(*m, g, px, py, false));

        if high.len() == 0 && low.len() == 0 {
            self.dx = -self.dx;
            self.dy = -self.dy;
            return ;
        }

        if high.len() > 0 {
            let random_index = rng.range(0, high.len() as i32 - 1) as usize;
            let chosen = high[random_index];
            self.dx = chosen.0;
            self.dy = chosen.1;
        } else {
            let random_index = rng.range(0, low.len() as i32 - 1) as usize;
            let chosen = low[random_index];
            self.dx = chosen.0;
            self.dy = chosen.1;
        }
    }

    /// Normal policy: draw uniformly among all candidates; reverse when
    /// stuck.
    pub fn think_normal_mode(&mut self, m: &Maze, rng: &mut Lfsr)
        requires
            old(self).pos_dir_wf(),
        ensures
            *final(self) == think_normal_spec(*old(self), *m, old(rng).s).0,
            final(rng).s == think_normal_spec(*old(self), *m, old(rng).s).1,
            final(self).pos_dir_wf(),
            final(self).sub_frame_counter == old(self).sub_frame_counter,
            final(self).think_timer == old(self).think_timer,
            old(rng).s != 0 ==> final(rng).s != 0,
    {
        let ghost g = *self;
        let mut options: Vec<(i32, i32)> = Vec::new();

        if !is_wall(m, self.x, self.y - 1) && !(0 == -self.dx && -1 == -self.dy) {
            options.push((0, -1));
        }
        if !is_wall(m, self.x, self.y + 1) && !(0 == -self.dx && 1 == -self.dy) {
            options.push((0, 1));
        }
        if !is_wall(m, self.x - 1, self.y) && !(-1 == -self.dx && 0 == -self.dy) {
            options.push((-1, 0));
        }
        if !is_wall(m, self.x + 1, self.y) && !(1 == -self.dx && 0 == -self.dy) {
            options.push((1, 0));
        }

        assert(options@ =~= normal_candidates(*m, g));

        if options.len() == 0 {
            self.dx = -self.dx;
            self.dy = -self.dy;
            return ;
        }

        let random_index = rng.range(0, options.len() as i32 - 1) as usize;
        let chosen = options[random_index];
        self.dx = chosen.0;
        self.dy = chosen.1;
    }

    /// Advances the actor one frame: think cadence, then movement, with an
    /// immediate re-decision when a step is blocked by a wall.
    #[verifier::rlimit(80)]
    pub fn update(&mut self, m: &Maze, rng: &mut Lfsr, player_x: i32, player_y: i32)
        requires
            old(self).wf(),
            in_grid(player_x as int, player_y as int),
        ensures
            *final(self) == adversary_update_spec(
                *old(self),
                *m,
                player_x as int,
                player_y as int,
                old(rng).s,
            ).0,
            final(rng).s == adversary_update_spec(
                *old(self),
                *m,
                player_x as int,
                player_y as int,
                old(rng).s,
            ).1,
            final(self).wf(),
            final(self).vulnerable == old(self).vulnerable,
            old(rng).s != 0 ==> final(rng).s != 0,
    {
        let ghost spec_thought = update_think_phase(
            *old(self),
            *m,
            player_x as int,
            player_y as int,
            old(rng).s,
        );
        self.think_timer = self.think_timer + 1;
        if self.think_timer >= GHOST_THINK_INTERVAL {
            self.think(m, player_x, player_y, rng);
            self.think_timer = 0;
        }
        assert(*self == spec_thought.0);
        assert(rng.s == spec_thought.1);

        self.sub_frame_counter = self.sub_frame_counter + 1;
        if self.sub_frame_counter >= GHOST_MOVE_SUBFRAMES {
            self.sub_frame_counter = 0;

            let mut new_x = self.x + self.dx;
            let new_y = self.y + self.dy;

            if new_y == TUNNEL_ROW && new_x < 0 {
                new_x = GRID_W - 1;
            }
            if new_y == TUNNEL_ROW && new_x >= GRID_W {
                new_x = 0;
            }

            if !is_wall(m, new_x, new_y) {
                self.x = new_x;
                self.y = new_y;
                proof {
                    lemma_other_teleporter_pairs(*m, new_x as int, new_y as int);
                }
                if is_teleporter(m, self.x, self.y) {
                    if let Some((teleport_x, teleport_y)) = find_other_teleporter(
                        m,
                        self.x,
                        self.y,
                    ) {
                        self.x = teleport_x;
                        self.y = teleport_y;
                    }
                }
            } else {
                self.dx = 0;
                self.dy = 0;
                self.think(m, player_x, player_y, rng);
            }
        }
    }

    /// Returns the adversary to the center spawn tile, heading up. Called
    /// when the adversary is eaten.
    pub fn reset_to_center(&mut self)
        ensures
            *final(self) == (Adversary {
                x: GHOST_START_X,
                y: GHOST_START_Y,
                dx: 0,
                dy: -1i32,
                ..*old(self)
            }),
            old(self).wf() ==> final(self).wf(),
    {
        self.x = GHOST_START_X;
        self.y = GHOST_START_Y;
        self.dx = 0;
        self.dy = -1;
    }

    /// Records a directional intent for an externally controlled
    /// adversary: applied toward an open cell when grid-aligned, on a
    /// perpendicular turn (even mid-step), or on an exact reversal.
    pub fn process_input(&mut self, m: &Maze, dx: i32, dy: i32)
        requires
            old(self).wf(),
            cardinal(dx as int, dy as int),
        ensures
            *final(self) == adversary_after_input(*old(self), *m, dx as int, dy as int),
            final(self).wf(),
    {
        let can_turn = (dx != self.dx || dy != self.dy) && !is_wall(m, self.x + dx, self.y + dy);
        let is_perpendicular_turn = (dx != 0 && self.dy != 0) || (dy != 0 && self.dx != 0);
        let is_reverse_turn = dx == -self.dx && dy == -self.dy;
        let is_aligned = self.sub_frame_counter == 0;

        if can_turn && (is_aligned || is_perpendicular_turn || is_reverse_turn) {
            self.dx = dx;
            self.dy = dy;
        }
    }

    /// Advances an externally controlled adversary one frame: movement
    /// only, no AI.
    pub fn update_movement_only(&mut self, m: &Maze)
        requires
            old(self).wf(),
        ensures
            *final(self) == move_only_spec(*old(self), *m),
            final(self).wf(),
            final(self).vulnerable == old(self).vulnerable,
    {
        self.sub_frame_counter = self.sub_frame_counter + 1;
        if self.sub_frame_counter >= GHOST_MOVE_SUBFRAMES {
            self.sub_frame_counter = 0;

            let mut new_x = self.x + self.dx;
            let new_y = self.y + self.dy;

            if new_y == TUNNEL_ROW && new_x < 0 {
                new_x = GRID_W - 1;
            }
            if new_y == TUNNEL_ROW && new_x >= GRID_W {
                new_x = 0;
            }

            if !is_wall(m, new_x, new_y) {
                self.x = new_x;
                self.y = new_y;
                proof {
                    lemma_other_teleporter_pairs(*m, new_x as int, new_y as int);
                }
                if is_teleporter(m, self.x, self.y) {
                    if let Some((teleport_x, teleport_y)) = find_other_teleporter(
                        m,
                        self.x,
                        self.y,
                    ) {
                        self.x = teleport_x;
                        self.y = teleport_y;
                    }
                }
            } else {
                self.dx = 0;
                self.dy = 0;
            }
        }
    }
}

/// Tunnel wraparound, left edge: an adversary on the tunnel row stepping
/// off the left edge reappears at the rightmost column of that row in the
/// same frame's step (stated for a plain open cell there, not a
/// teleporter).
pub proof fn lemma_adversary_tunnel_wrap_left(g: Adversary, m: Maze)
    requires
        g.wf(),
        g.x == 0 && g.y == TUNNEL_ROW,
        g.dx == -1 && g.dy == 0,
        g.sub_frame_counter == GHOST_MOVE_SUBFRAMES - 1,
        !wall_at(m, GRID_W - 1, TUNNEL_ROW as int),
        teleporter_digit_at(m, GRID_W - 1, TUNNEL_ROW as int) is None,
    ensures
        move_only_spec(g, m).x == GRID_W - 1,
        move_only_spec(g, m).y == TUNNEL_ROW,
{
    lemma_other_teleporter_pairs(m, GRID_W - 1, TUNNEL_ROW as int);
}

/// Tunnel wraparound, right edge: an adversary on the tunnel row stepping
/// off the right edge reappears at column zero of that row in the same
/// frame's step (stated for a plain open cell there, not a teleporter).
pub proof fn lemma_adversary_tunnel_wrap_right(g: Adversary, m: Maze)
    requires
        g.wf(),
        g.x == GRID_W - 1 && g.y == TUNNEL_ROW,
        g.dx == 1 && g.dy == 0,
        g.sub_frame_counter == GHOST_MOVE_SUBFRAMES - 1,
        !wall_at(m, 0, TUNNEL_ROW as int),
        teleporter_digit_at(m, 0, TUNNEL_ROW as int) is None,
    ensures
        move_only_spec(g, m).x == 0,
        move_only_spec(g, m).y == TUNNEL_ROW,
{
    lemma_other_teleporter_pairs(m, 0, TUNNEL_ROW as int);
}

/// An adversary only ever moves onto non-wall cells: after a full AI
/// frame, a changed position is never a wall, and an actor standing off
/// the walls stays off them. (The fixed spawn tile itself is exempt: a
/// layout may place the spawn box inside walls, and a freshly reset actor
/// stands there until its first step out.)
pub proof fn lemma_adversary_stays_off_walls(g: Adversary, m: Maze, px: int, py: int, s: u16)
    requires
        g.wf(),
    ensures
        ({
            let g2 = adversary_update_spec(g, m, px, py, s).0;
            &&& (g2.x != g.x || g2.y != g.y) ==> !wall_at(m, g2.x as int, g2.y as int)
            &&& !wall_at(m, g.x as int, g.y as int) ==> !wall_at(m, g2.x as int, g2.y as int)
        }),
{
    let g1 = update_think_phase(g, m, px, py, s).0;
    let aligned = Adversary { sub_frame_counter: 0, ..g1 };
    let target = wrapped_target(aligned.x as int, aligned.y as int, aligned.dx as int,
        aligned.dy as int);
    lemma_other_teleporter_pairs(m, target.0, target.1);
}

/// The same wall-safety guarantee for an externally controlled adversary
/// advanced by movement only.
pub proof fn lemma_adversary_move_only_stays_off_walls(g: Adversary, m: Maze)
    requires
        g.wf(),
    ensures
        ({
            let g2 = move_only_spec(g, m);
            &&& (g2.x != g.x || g2.y != g.y) ==> !wall_at(m, g2.x as int, g2.y as int)
            &&& !wall_at(m, g.x as int, g.y as int) ==> !wall_at(m, g2.x as int, g2.y as int)
        }),
{
    let target = wrapped_target(g.x as int, g.y as int, g.dx as int, g.dy as int);
    lemma_other_teleporter_pairs(m, target.0, target.1);
}

} // verus!
