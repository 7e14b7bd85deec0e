//! Shared movement model specifications: headings and the tunnel-row
//! wraparound rule used by every grid actor.

use vstd::prelude::*;

use crate::constants::GRID_W;
use crate::constants::TUNNEL_ROW;

verus! {

/// A heading is axis-aligned: one of the four cardinal unit vectors or the
/// zero vector (stopped). Diagonals are forbidden by construction.
pub open spec fn dir_ok(dx: int, dy: int) -> bool {
    &&& -1 <= dx <= 1
    &&& -1 <= dy <= 1
    &&& dx == 0 || dy == 0
}

/// A cardinal (non-zero, axis-aligned) heading: a valid directional intent.
pub open spec fn cardinal(dx: int, dy: int) -> bool {
    dir_ok(dx, dy) && !(dx == 0 && dy == 0)
}

/// The candidate next cell from a position and heading, after applying the
/// tunnel-row wraparound: an actor leaving the grid horizontally on the
/// designated tunnel row reappears on the opposite edge of that row.
pub open spec fn wrapped_target(x: int, y: int, dx: int, dy: int) -> (int, int) {
    let nx = x + dx;
    let ny = y + dy;
    if ny == TUNNEL_ROW && nx < 0 {
        (GRID_W - 1, ny)
    } else if ny == TUNNEL_ROW && nx >= GRID_W {
        (0, ny)
    } else {
        (nx, ny)
    }
}

} // verus!
