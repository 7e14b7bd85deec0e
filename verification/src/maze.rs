//! Grid/map provider: the static tile layout and bounds-checked queries.
//!
//! A maze is a rectangular grid of tile bytes: `#` = wall, `.` = pickup,
//! `*` = power pickup, `1`..`9` = paired teleporters, anything else = open.
//! Out-of-bounds positions are treated as walls by the single authoritative
//! boundary rule in [`is_wall`]; rows shorter than the grid width are
//! tolerated (missing cells count as walls for movement and hold nothing).

use vstd::prelude::*;

use crate::constants::GRID_H;
use crate::constants::GRID_W;

verus! {

/// Tile byte marking a wall.
pub const TILE_WALL: u8 = 35;

/// Tile byte marking a regular pickup.
pub const TILE_PELLET: u8 = 46;

/// Tile byte marking a power pickup.
pub const TILE_POWER_PELLET: u8 = 42;

/// Lowest teleporter digit byte (the digit `1`).
pub const TELEPORTER_MIN: u8 = 49;

/// Highest teleporter digit byte (the digit `9`).
pub const TELEPORTER_MAX: u8 = 57;

/// The static tile layout, loaded once per session and immutable during it.
pub struct Maze {
    /// Tile bytes, row-major: `rows[y][x]` is the tile at column `x`, row `y`.
    pub rows: Vec<Vec<u8>>,
}

/// True when the position lies within the nominal grid bounds.
pub open spec fn in_grid(x: int, y: int) -> bool {
    0 <= x < GRID_W && 0 <= y < GRID_H
}

/// The tile byte at a position, or `None` when the position is out of
/// bounds or past the stored data.
pub open spec fn tile_at(m: Maze, x: int, y: int) -> Option<u8> {
    if in_grid(x, y) && y < m.rows@.len() && x < m.rows@[y]@.len() {
        Some(m.rows@[y]@[x])
    } else {
        None
    }
}

/// A position is a wall when it is out of bounds, past the stored data,
/// or holds the wall tile.
pub open spec fn wall_at(m: Maze, x: int, y: int) -> bool {
    match tile_at(m, x, y) {
        Some(t) => t == TILE_WALL,
        None => true,
    }
}

/// A position holds an uncollectable-by-walking-through pickup of either
/// kind: regular or power.
pub open spec fn pellet_at(m: Maze, x: int, y: int) -> bool {
    match tile_at(m, x, y) {
        Some(t) => t == TILE_PELLET || t == TILE_POWER_PELLET,
        None => false,
    }
}

/// A position holds a power pickup.
pub open spec fn power_pellet_at(m: Maze, x: int, y: int) -> bool {
    tile_at(m, x, y) == Some(TILE_POWER_PELLET)
}

/// A position is open: within the stored data and not a wall tile.
pub open spec fn empty_at(m: Maze, x: int, y: int) -> bool {
    match tile_at(m, x, y) {
        Some(t) => t != TILE_WALL,
        None => false,
    }
}

/// The teleporter id at a position: its digit byte `1`..`9`, if any.
pub open spec fn teleporter_digit_at(m: Maze, x: int, y: int) -> Option<u8> {
    match tile_at(m, x, y) {
        Some(t) => if TELEPORTER_MIN <= t && t <= TELEPORTER_MAX {
            Some(t)
        } else {
            None
        },
        None => None,
    }
}

/// `(a, b)` comes strictly before `(x, y)` in row-major scan order.
pub open spec fn row_major_before(a: int, b: int, x: int, y: int) -> bool {
    b < y || (b == y && a < x)
}

/// `(x, y)` is a teleporter cell distinct from `(cx, cy)` sharing its digit.
pub open spec fn paired_teleporter_at(m: Maze, cx: int, cy: int, x: int, y: int) -> bool {
    &&& !(x == cx && y == cy)
    &&& teleporter_digit_at(m, cx, cy) is Some
    &&& teleporter_digit_at(m, x, y) == teleporter_digit_at(m, cx, cy)
}

impl Maze {
    /// Wraps an in-memory grid of tile bytes. Malformed data (short rows,
    /// missing rows, unpaired teleporters) is tolerated by every query,
    /// never rejected.
    pub fn new(rows: Vec<Vec<u8>>) -> (r: Self)
        ensures
            r.rows == rows,
    {
        Self { rows }
    }
}

/// Checks whether the position is a wall: out of bounds, past the stored
/// data, or the wall tile. This is the single boundary rule used by all
/// movement checks.
pub fn is_wall(m: &Maze, x: i32, y: i32) -> (r: bool)
    ensures
        r == wall_at(*m, x as int, y as int),
{
    if x < 0 || x >= GRID_W || y < 0 || y >= GRID_H {
        return true;
    }
    let y_idx = y as usize;
    if y_idx >= m.rows.len() {
        return true;
    }
    let row = &m.rows[y_idx];
    if x as usize >= row.len() {
        return true;
    }
    row[x as usize] == TILE_WALL
}

/// Checks whether the position holds a pickup, regular or power.
pub fn is_pellet(m: &Maze, x: i32, y: i32) -> (r: bool)
    ensures
        r == pellet_at(*m, x as int, y as int),
{
    if x < 0 || x >= GRID_W || y < 0 || y >= GRID_H {
        return false;
    }
    let y_idx = y as usize;
    if y_idx >= m.rows.len() {
        return false;
    }
    let row = &m.rows[y_idx];
    if x as usize >= row.len() {
        return false;
    }
    let c = row[x as usize];
    c == TILE_PELLET || c == TILE_POWER_PELLET
}

/// Checks whether the position holds a power pickup.
pub fn is_power_pellet(m: &Maze, x: i32, y: i32) -> (r: bool)
    ensures
        r == power_pellet_at(*m, x as int, y as int),
{
    if x < 0 || x >= GRID_W || y < 0 || y >= GRID_H {
        return false;
    }
    let y_idx = y as usize;
    if y_idx >= m.rows.len() {
        return false;
    }
    let row = &m.rows[y_idx];
    if x as usize >= row.len() {
        return false;
    }
    row[x as usize] == TILE_POWER_PELLET
}

/// Checks whether the position is open (within the stored data and not a
/// wall tile).
pub fn is_empty(m: &Maze, x: i32, y: i32) -> (r: bool)
    ensures
        r == empty_at(*m, x as int, y as int),
{
    if x < 0 || x >= GRID_W || y < 0 || y >= GRID_H {
        return false;
    }
    let y_idx = y as usize;
    if y_idx >= m.rows.len() {
        return false;
    }
    let row = &m.rows[y_idx];
    if x as usize >= row.len() {
        return false;
    }
    row[x as usize] != TILE_WALL
}

/// Checks whether the position holds a teleporter (digit `1`..`9`).
pub fn is_teleporter(m: &Maze, x: i32, y: i32) -> (r: bool)
    ensures
        r == (teleporter_digit_at(*m, x as int, y as int) is Some),
{
    if x < 0 || x >= GRID_W || y < 0 || y >= GRID_H {
        return false;
    }
    let y_idx = y as usize;
    if y_idx >= m.rows.len() {
        return false;
    }
    let row = &m.rows[y_idx];
    if x as usize >= row.len() {
        return false;
    }
    let tile = row[x as usize];
    TELEPORTER_MIN <= tile && tile <= TELEPORTER_MAX
}

/// Returns the teleporter digit at the position, if the tile is one.
pub fn get_teleporter_digit(m: &Maze, x: i32, y: i32) -> (r: Option<u8>)
    ensures
        r == teleporter_digit_at(*m, x as int, y as int),
{
    if x < 0 || x >= GRID_W || y < 0 || y >= GRID_H {
        return None;
    }
    let y_idx = y as usize;
    if y_idx >= m.rows.len() {
        return None;
    }
    let row = &m.rows[y_idx];
    if x as usize >= row.len() {
        return None;
    }
    let tile = row[x as usize];
    if TELEPORTER_MIN <= tile && tile <= TELEPORTER_MAX {
        Some(tile)
    } else {
        None
    }
}

/// The first cell of row `y` at column `x` or later that pairs with
/// `(cx, cy)`.
pub open spec fn other_teleporter_in_row(m: Maze, cx: int, cy: int, y: int, x: int) -> Option<
    (int, int),
>
    decreases GRID_W - x,
{
    if x < 0 || x >= GRID_W {
        None
    } else if paired_teleporter_at(m, cx, cy, x, y) {
        Some((x, y))
    } else {
        other_teleporter_in_row(m, cx, cy, y, x + 1)
    }
}

/// The first cell in row-major order, from row `y` on, that pairs with
/// `(cx, cy)`.
pub open spec fn other_teleporter_from_row(m: Maze, cx: int, cy: int, y: int) -> Option<(int, int)>
    decreases GRID_H - y,
{
    if y < 0 || y >= GRID_H {
        None
    } else {
        match other_teleporter_in_row(m, cx, cy, y, 0) {
            Some(p) => Some(p),
            None => other_teleporter_from_row(m, cx, cy, y + 1),
        }
    }
}

/// The paired teleporter cell for `(cx, cy)`: the first cell in row-major
/// scan order, excluding `(cx, cy)` itself, holding the same digit; `None`
/// when `(cx, cy)` is no teleporter or its digit is unpaired.
pub open spec fn other_teleporter(m: Maze, cx: int, cy: int) -> Option<(int, int)> {
    other_teleporter_from_row(m, cx, cy, 0)
}

/// Whatever cell `other_teleporter` picks does pair with the origin cell
/// and lies within the grid.
pub proof fn lemma_other_teleporter_pairs(m: Maze, cx: int, cy: int)
    ensures
        (match other_teleporter(m, cx, cy) {
            Some((a, b)) => paired_teleporter_at(m, cx, cy, a, b) && in_grid(a, b),
            None => true,
        }),
{
    lemma_other_teleporter_from_row_pairs(m, cx, cy, 0);
}

proof fn lemma_other_teleporter_in_row_pairs(m: Maze, cx: int, cy: int, y: int, x: int)
    requires
        0 <= y < GRID_H,
    ensures
        (match other_teleporter_in_row(m, cx, cy, y, x) {
            Some((a, b)) => paired_teleporter_at(m, cx, cy, a, b) && in_grid(a, b),
            None => true,
        }),
    decreases GRID_W - x,
{
    if x < 0 || x >= GRID_W {
    } else if paired_teleporter_at(m, cx, cy, x, y) {
    } else {
        lemma_other_teleporter_in_row_pairs(m, cx, cy, y, x + 1);
    }
}

proof fn lemma_other_teleporter_from_row_pairs(m: Maze, cx: int, cy: int, y: int)
    ensures
        (match other_teleporter_from_row(m, cx, cy, y) {
            Some((a, b)) => paired_teleporter_at(m, cx, cy, a, b) && in_grid(a, b),
            None => true,
        }),
    decreases GRID_H - y,
{
    if y < 0 || y >= GRID_H {
    } else {
        lemma_other_teleporter_in_row_pairs(m, cx, cy, y, 0);
        lemma_other_teleporter_from_row_pairs(m, cx, cy, y + 1);
    }
}

/// Finds the other teleporter cell sharing the digit at `(current_x,
/// current_y)`, excluding that cell itself, in first-found row-major scan
/// order. Returns `None` when the current cell is not a teleporter or its
/// digit is unpaired.
pub fn find_other_teleporter(m: &Maze, current_x: i32, current_y: i32) -> (r: Option<(i32, i32)>)
    ensures
        (match r {
            Some((a, b)) => other_teleporter(*m, current_x as int, current_y as int) == Some(
                (a as int, b as int),
            ),
            None => other_teleporter(*m, current_x as int, current_y as int) is None,
        }),
        (match r {
            Some((a, b)) => {
                &&& paired_teleporter_at(*m, current_x as int, current_y as int, a as int, b as int)
                &&& in_grid(a as int, b as int)
                &&& forall|a2: int, b2: int|
                    in_grid(a2, b2) && row_major_before(a2, b2, a as int, b as int)
                        ==> !paired_teleporter_at(*m, current_x as int, current_y as int, a2, b2)
            },
            None => forall|a2: int, b2: int|
                in_grid(a2, b2) ==> !paired_teleporter_at(
                    *m,
                    current_x as int,
                    current_y as int,
                    a2,
                    b2,
                ),
        }),
{
    let current_digit = match get_teleporter_digit(m, current_x, current_y) {
        Some(d) => d,
        None => {
            proof {
                lemma_other_teleporter_pairs(*m, current_x as int, current_y as int);
            }
            return None;
        },
    };
    let mut y: i32 = 0;
    while y < GRID_H
        invariant
            0 <= y <= GRID_H,
            teleporter_digit_at(*m, current_x as int, current_y as int) == Some(current_digit),
            other_teleporter(*m, current_x as int, current_y as int) == other_teleporter_from_row(
                *m,
                current_x as int,
                current_y as int,
                y as int,
            ),
            forall|a2: int, b2: int|
                in_grid(a2, b2) && b2 < y ==> !paired_teleporter_at(
                    *m,
                    current_x as int,
                    current_y as int,
                    a2,
                    b2,
                ),
        decreases GRID_H - y,
    {
        let mut x: i32 = 0;
        while x < GRID_W
            invariant
                0 <= y < GRID_H,
                0 <= x <= GRID_W,
                teleporter_digit_at(*m, current_x as int, current_y as int) == Some(current_digit),
                other_teleporter(*m, current_x as int, current_y as int)
                    == other_teleporter_from_row(*m, current_x as int, current_y as int, y as int),
                other_teleporter_in_row(*m, current_x as int, current_y as int, y as int, 0)
                    == other_teleporter_in_row(
                    *m,
                    current_x as int,
                    current_y as int,
                    y as int,
                    x as int,
                ),
                forall|a2: int, b2: int|
                    in_grid(a2, b2) && (b2 < y || (b2 == y && a2 < x)) ==> !paired_teleporter_at(
                        *m,
                        current_x as int,
                        current_y as int,
                        a2,
                        b2,
                    ),
            decreases GRID_W - x,
        {
            if !(x == current_x && y == current_y) {
                if let Some(digit) = get_teleporter_digit(m, x, y) {
                    if digit == current_digit {
                        return Some((x, y));
                    }
                }
            }
            x = x + 1;
        }
        y = y + 1;
    }
    None
}

/// Pickups in row `y` among the first `upto_x` columns.
pub open spec fn pellet_count_row(m: Maze, y: int, upto_x: int) -> int
    decreases upto_x,
{
    if upto_x <= 0 {
        0
    } else {
        pellet_count_row(m, y, upto_x - 1) + if pellet_at(m, upto_x - 1, y) {
            1int
        } else {
            0int
        }
    }
}

/// Pickups in the first `upto_y` full rows.
pub open spec fn pellet_count_upto(m: Maze, upto_y: int) -> int
    decreases upto_y,
{
    if upto_y <= 0 {
        0
    } else {
        pellet_count_upto(m, upto_y - 1) + pellet_count_row(m, upto_y - 1, GRID_W as int)
    }
}

/// Total pickups (regular and power) in the maze.
pub open spec fn pellet_count(m: Maze) -> int {
    pellet_count_upto(m, GRID_H as int)
}

/// Counts the pickups (regular and power) in the maze.
pub fn count_pellets(m: &Maze) -> (r: i32)
    ensures
        r == pellet_count(*m),
        0 <= r <= GRID_W * GRID_H,
{
    let mut count: i32 = 0;
    let mut y: i32 = 0;
    while y < GRID_H
        invariant
            0 <= y <= GRID_H,
            count == pellet_count_upto(*m, y as int),
            0 <= count <= y * GRID_W,
        decreases GRID_H - y,
    {
        let mut x: i32 = 0;
        while x < GRID_W
            invariant
                0 <= y < GRID_H,
                0 <= x <= GRID_W,
                count == pellet_count_upto(*m, y as int) + pellet_count_row(*m, y as int, x as int),
                0 <= count <= y * GRID_W + x,
            decreases GRID_W - x,
        {
            if is_pellet(m, x, y) {
                count = count + 1;
            }
            x = x + 1;
        }
        y = y + 1;
    }
    count
}

} // verus!
