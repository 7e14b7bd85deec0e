//! Game constants and configuration values.

use vstd::prelude::*;

verus! {

/// Width of the game grid in tiles.
pub const GRID_W: i32 = 28;

/// Height of the game grid in tiles.
pub const GRID_H: i32 = 31;

/// Row on which the tunnels wrap around (0-indexed).
pub const TUNNEL_ROW: i32 = 14;

/// Player's starting X position.
pub const PLAYER_START_X: i32 = 13;

/// Player's starting Y position.
pub const PLAYER_START_Y: i32 = 23;

/// Number of sub-frames between player grid steps (higher = slower).
pub const PLAYER_MOVE_SUBFRAMES: i32 = 5;

/// Adversary's starting X position.
pub const GHOST_START_X: i32 = 13;

/// Adversary's starting Y position.
pub const GHOST_START_Y: i32 = 14;

/// Number of sub-frames between adversary grid steps (higher = slower).
pub const GHOST_MOVE_SUBFRAMES: i32 = 6;

/// Number of frames between adversary AI decisions.
pub const GHOST_THINK_INTERVAL: i32 = 8;

/// Points awarded for a regular pickup.
pub const SCORE_PELLET: i32 = 10;

/// Points awarded for a power pickup.
pub const SCORE_POWER_PELLET: i32 = 50;

/// Duration of the vulnerability window in frames.
pub const POWER_PELLET_DURATION: i32 = 900;

/// Target simulation frames per second.
pub const FPS: u32 = 60;

/// Duration of one virtual frame in nanoseconds.
pub const FRAME_NS: u64 = 1_000_000_000 / 60;

/// Maximum wall-clock step accepted by the frame pacer, in nanoseconds
/// (a quarter of a second, preventing catch-up storms after a stall).
pub const MAX_STEP_NS: u64 = 250_000_000;

/// Ascending point values for eating adversaries within one vulnerability
/// window, indexed by the number already eaten and saturating at the last
/// tier (200, 400, 800, 1600).
pub open spec fn ghost_score_value(eaten_count: int) -> int {
    if eaten_count <= 0 {
        200
    } else if eaten_count == 1 {
        400
    } else if eaten_count == 2 {
        800
    } else {
        1600
    }
}

/// Looks up the scoring-multiplier tier for the given eaten-adversary count.
///
/// The index is clamped to the last table entry, so the lookup never goes
/// out of bounds however large the count grows.
pub fn ghost_score(eaten_count: i32) -> (r: i32)
    ensures
        r == ghost_score_value(eaten_count as int),
        eaten_count >= 3 ==> r == 1600,
{
    if eaten_count <= 0 {
        200
    } else if eaten_count == 1 {
        400
    } else if eaten_count == 2 {
        800
    } else {
        1600
    }
}

} // verus!
