//! Player actor: grid-stepping movement with sub-frame speed control,
//! direction queueing, alignment-gated turning, tunnel wraparound and
//! teleportation.

use vstd::prelude::*;

use crate::constants::GRID_W;
use crate::constants::PLAYER_MOVE_SUBFRAMES;
use crate::constants::PLAYER_START_X;
use crate::constants::PLAYER_START_Y;
use crate::constants::TUNNEL_ROW;
use crate::maze::find_other_teleporter;
use crate::maze::is_teleporter;
use crate::maze::is_wall;
use crate::maze::lemma_other_teleporter_pairs;
use crate::maze::other_teleporter;
use crate::maze::teleporter_digit_at;
use crate::maze::wall_at;
use crate::maze::Maze;
use crate::movement::cardinal;
use crate::movement::dir_ok;
use crate::movement::wrapped_target;

verus! {

/// The externally controlled primary actor.
#[derive(Clone, Copy, Debug, PartialEq, Eq, Structural)]
pub struct Player {
    /// Current X position on the grid.
    pub x: i32,
    /// Current Y position on the grid.
    pub y: i32,
    /// Current X heading (-1, 0 or 1).
    pub dx: i32,
    /// Current Y heading (-1, 0 or 1).
    pub dy: i32,
    /// Sub-frame counter: increments each frame, resets when the actor steps.
    pub sub_frame_counter: i32,
    /// Queued X heading, pending application at the next alignment.
    pub queued_dx: i32,
    /// Queued Y heading, pending application at the next alignment.
    pub queued_dy: i32,
}

/// The player state after one directional intent is processed: the intent
/// is queued whenever it differs from the current heading, and applied
/// immediately when the turn exactly reverses the heading (always legal),
/// or when the target cell is open and the actor is grid-aligned or the
/// turn is perpendicular.
pub open spec fn player_after_input(p: Player, m: Maze, dx: int, dy: int) -> Player {
    let queued = if dx != p.dx || dy != p.dy {
        Player { queued_dx: dx as i32, queued_dy: dy as i32, ..p }
    } else {
        p
    };
    let differs = dx != p.dx || dy != p.dy;
    let is_aligned = p.sub_frame_counter == 0;
    let is_perpendicular = (dx != 0 && p.dy != 0) || (dy != 0 && p.dx != 0);
    let open_target = !wall_at(m, p.x + dx, p.y + dy);
    let is_reverse = dx == -p.dx && dy == -p.dy;
    if differs && (is_reverse || (open_target && (is_aligned || is_perpendicular))) {
        let turned = Player { dx: dx as i32, dy: dy as i32, ..queued };
        if dx == turned.queued_dx && dy == turned.queued_dy {
            Player { queued_dx: 0, queued_dy: 0, ..turned }
        } else {
            turned
        }
    } else {
        queued
    }
}

/// The player state after one frame: the sub-frame counter advances, and
/// on reaching the move period the actor resolves its queued heading,
/// takes one wall-checked grid step with tunnel wraparound, follows a
/// teleporter to its pair, and stops (clearing the queue) when blocked.
pub open spec fn player_step(p: Player, m: Maze) -> Player {
    if p.sub_frame_counter + 1 < PLAYER_MOVE_SUBFRAMES {
        Player { sub_frame_counter: (p.sub_frame_counter + 1) as i32, ..p }
    } else {
        let aligned = Player { sub_frame_counter: 0, ..p };
        let resolved = if aligned.queued_dx != 0 || aligned.queued_dy != 0 {
            if !wall_at(m, aligned.x + aligned.queued_dx, aligned.y + aligned.queued_dy) {
                Player {
                    dx: aligned.queued_dx,
                    dy: aligned.queued_dy,
                    queued_dx: 0,
                    queued_dy: 0,
                    ..aligned
                }
            } else {
                Player { queued_dx: 0, queued_dy: 0, ..aligned }
            }
        } else {
            aligned
        };
        let target = wrapped_target(resolved.x as int, resolved.y as int, resolved.dx as int,
            resolved.dy as int);
        if !wall_at(m, target.0, target.1) {
            match other_teleporter(m, target.0, target.1) {
                Some((tx, ty)) => Player { x: tx as i32, y: ty as i32, ..resolved },
                None => Player { x: target.0 as i32, y: target.1 as i32, ..resolved },
            }
        } else {
            Player { dx: 0, dy: 0, queued_dx: 0, queued_dy: 0, ..resolved }
        }
    }
}

/// Tunnel wraparound, left edge: a player on the tunnel row stepping off
/// the left edge reappears at the rightmost column of that row in the same
/// frame's step (stated for a plain open cell there, not a teleporter).
pub proof fn lemma_player_tunnel_wrap_left(p: Player, m: Maze)
    requires
        p.wf(m),
        p.x == 0 && p.y == TUNNEL_ROW,
        p.dx == -1 && p.dy == 0,
        p.sub_frame_counter == PLAYER_MOVE_SUBFRAMES - 1,
        p.queued_dx == 0 && p.queued_dy == 0,
        !wall_at(m, GRID_W - 1, TUNNEL_ROW as int),
        teleporter_digit_at(m, GRID_W - 1, TUNNEL_ROW as int) is None,
    ensures
        player_step(p, m).x == GRID_W - 1,
        player_step(p, m).y == TUNNEL_ROW,
{
    lemma_other_teleporter_pairs(m, GRID_W - 1,
        TUNNEL_ROW as int);
}

/// Tunnel wraparound, right edge: a player on the tunnel row stepping off
/// the right edge reappears at column zero of that row in the same frame's
/// step (stated for a plain open cell there, not a teleporter).
pub proof fn lemma_player_tunnel_wrap_right(p: Player, m: Maze)
    requires
        p.wf(m),
        p.x == GRID_W - 1 && p.y == TUNNEL_ROW,
        p.dx == 1 && p.dy == 0,
        p.sub_frame_counter == PLAYER_MOVE_SUBFRAMES - 1,
        p.queued_dx == 0 && p.queued_dy == 0,
        !wall_at(m, 0, TUNNEL_ROW as int),
        teleporter_digit_at(m, 0, TUNNEL_ROW as int) is None,
    ensures
        player_step(p, m).x == 0,
        player_step(p, m).y == TUNNEL_ROW,
{
    lemma_other_teleporter_pairs(m, 0, TUNNEL_ROW as int);
}

impl Player {
    /// Well-formedness against the maze the actor lives on: the position
    /// is an open cell (hence within bounds), the current and queued
    /// headings are axis-aligned, and the sub-frame counter is within its
    /// period.
    pub open spec fn wf(self, m: Maze) -> bool {
        &&& !wall_at(m, self.x as int, self.y as int)
        &&& dir_ok(self.dx as int, self.dy as int)
        &&& dir_ok(self.queued_dx as int, self.queued_dy as int)
        &&& 0 <= self.sub_frame_counter < PLAYER_MOVE_SUBFRAMES
    }

    /// The freshly spawned player state: at the fixed spawn tile, stopped,
    /// with an empty queue.
    pub open spec fn new_spec() -> Player {
        Player {
            x: PLAYER_START_X,
            y: PLAYER_START_Y,
            dx: 0,
            dy: 0,
            sub_frame_counter: 0,
            queued_dx: 0,
            queued_dy: 0,
        }
    }

    /// Creates the player at its fixed spawn tile, stopped.
    pub fn new() -> (r: Self)
        ensures
            r == Player::new_spec(),
    {
        Self {
            x: PLAYER_START_X,
            y: PLAYER_START_Y,
            dx: 0,
            dy: 0,
            sub_frame_counter: 0,
            queued_dx: 0,
            queued_dy: 0,
        }
    }

    /// Records a directional intent, applying it immediately when legal
    /// (an exact reversal, always; otherwise an open target cell with the
    /// actor grid-aligned or the turn perpendicular) and queueing it
    /// otherwise.
    pub fn process_input(&mut self, m: &Maze, dx: i32, dy: i32)
        requires
            old(self).wf(*m),
            cardinal(dx as int, dy as int),
        ensures
            *final(self) == player_after_input(*old(self), *m, dx as int, dy as int),
            final(self).wf(*m),
    {
        if dx != self.dx || dy != self.dy {
            self.queued_dx = dx;
            self.queued_dy = dy;
        }

        let differs = dx != self.dx || dy != self.dy;
        let is_aligned_to_grid = self.sub_frame_counter == 0;
        let is_perpendicular_turn = (dx != 0 && self.dy != 0) || (dy != 0 && self.dx != 0);
        let open_target = !is_wall(m, self.x + dx, self.y + dy);
        let is_reverse_turn = dx == -self.dx && dy == -self.dy;

        if differs && (is_reverse_turn || (open_target && (is_aligned_to_grid
            || is_perpendicular_turn))) {
            self.dx = dx;
            self.dy = dy;
            if dx == self.queued_dx && dy == self.queued_dy {
                self.queued_dx = 0;
                self.queued_dy = 0;
            }
        }
    }

    /// Advances the actor one frame, per [`player_step`].
    pub fn update(&mut self, m: &Maze)
        requires
            old(self).wf(*m),
        ensures
            *final(self) == player_step(*old(self), *m),
            final(self).wf(*m),
    {
        self.sub_frame_counter = self.sub_frame_counter + 1;

        if self.sub_frame_counter >= PLAYER_MOVE_SUBFRAMES {
            self.sub_frame_counter = 0;

            if self.queued_dx != 0 || self.queued_dy != 0 {
                if !is_wall(m, self.x + self.queued_dx, self.y + self.queued_dy) {
                    self.dx = self.queued_dx;
                    self.dy = self.queued_dy;
                    self.queued_dx = 0;
                    self.queued_dy = 0;
                } else {
                    self.queued_dx = 0;
                    self.queued_dy = 0;
                }
            }

            let mut new_x = self.x + self.dx;
            let new_y = self.y + self.dy;

            if new_y == TUNNEL_ROW && new_x < 0 {
                new_x = GRID_W - 1;
            }
            if new_y == TUNNEL_ROW && new_x >= GRID_W {
                new_x = 0;
            }

            if !is_wall(m, new_x, new_y) {
                self.x = new_x;
                self.y = new_y;
                proof {
                    lemma_other_teleporter_pairs(*m, new_x as int, new_y as int);
                }
                if is_teleporter(m, self.x, self.y) {
                    if let Some((teleport_x, teleport_y)) = find_other_teleporter(
                        m,
                        self.x,
                        self.y,
                    ) {
                        self.x = teleport_x;
                        self.y = teleport_y;
                    }
                }
            } else {
                self.dx = 0;
                self.dy = 0;
                self.queued_dx = 0;
                self.queued_dy = 0;
            }
        }
    }
}

} // verus!
