//! Tests for the shared actor movement model and the adversary AI.

use pacsim::adversary::Adversary;
use pacsim::maze::Maze;
use pacsim::player::Player;
use pacsim::rng::Lfsr;

/// A full-size grid of open cells (the engine's nominal 28x31), with a
/// closed box around the adversary spawn tiles so AI actors stay put in
/// tests that do not concern them.
fn open_rows() -> Vec<Vec<u8>> {
    let mut rows: Vec<Vec<u8>> = Vec::new();
    for _ in 0..31 {
        rows.push(vec![b' '; 28]);
    }
    rows
}

fn open_maze() -> Maze {
    Maze::new(open_rows())
}

fn maze_with(cells: &[(usize, usize, u8)]) -> Maze {
    let mut rows = open_rows();
    for &(x, y, tile) in cells {
        rows[y][x] = tile;
    }
    Maze::new(rows)
}

#[test]
fn player_starts_at_spawn_stopped() {
    let p = Player::new();
    assert_eq!((p.x, p.y), (13, 23));
    assert_eq!((p.dx, p.dy), (0, 0));
    assert_eq!(p.sub_frame_counter, 0);
    assert_eq!((p.queued_dx, p.queued_dy), (0, 0));
}

#[test]
fn player_moves_once_per_five_frames() {
    let m = open_maze();
    let mut p = Player::new();
    p.process_input(&m, -1, 0);
    assert_eq!((p.dx, p.dy), (-1, 0));
    for frame in 1..=10 {
        p.update(&m);
        let expected_x: i32 = 13 - (frame / 5);
        assert_eq!(p.x, expected_x, "at frame {}", frame);
        assert_eq!(p.y, 23);
    }
}

#[test]
fn player_stops_and_clears_queue_at_wall() {
    let m = maze_with(&[(12, 23, b'#')]);
    let mut p = Player::new();
    // The immediate turn toward the wall is refused, so it queues.
    p.process_input(&m, -1, 0);
    assert_eq!((p.dx, p.dy), (0, 0));
    assert_eq!((p.queued_dx, p.queued_dy), (-1, 0));
    // At the next alignment the queued turn is dropped against the wall.
    for _ in 0..5 {
        p.update(&m);
    }
    assert_eq!((p.x, p.y), (13, 23));
    assert_eq!((p.dx, p.dy), (0, 0));
    assert_eq!((p.queued_dx, p.queued_dy), (0, 0));
}

#[test]
fn player_perpendicular_turn_applies_mid_step() {
    let m = open_maze();
    let mut p = Player::new();
    p.process_input(&m, 0, -1);
    p.update(&m);
    p.update(&m);
    assert_eq!(p.sub_frame_counter, 2);
    // Mid-step, a perpendicular turn is applied at once for responsiveness.
    p.process_input(&m, 1, 0);
    assert_eq!((p.dx, p.dy), (1, 0));
}

#[test]
fn player_reverse_turn_always_applies() {
    let m = open_maze();
    let mut p = Player::new();
    p.process_input(&m, 0, 1);
    p.update(&m);
    p.update(&m);
    p.process_input(&m, 0, -1);
    assert_eq!((p.dx, p.dy), (0, -1));
}

#[test]
fn player_tunnel_wraps_left_edge() {
    let mut p = Player::new();
    p.x = 0;
    p.y = 14;
    p.dx = -1;
    p.dy = 0;
    p.sub_frame_counter = 4;
    let m = open_maze();
    p.update(&m);
    assert_eq!((p.x, p.y), (27, 14));
}

#[test]
fn player_tunnel_wraps_right_edge() {
    let mut p = Player::new();
    p.x = 27;
    p.y = 14;
    p.dx = 1;
    p.dy = 0;
    p.sub_frame_counter = 4;
    let m = open_maze();
    p.update(&m);
    assert_eq!((p.x, p.y), (0, 14));
}

#[test]
fn player_off_tunnel_row_is_blocked_at_edge() {
    let mut p = Player::new();
    p.x = 0;
    p.y = 10;
    p.dx = -1;
    p.dy = 0;
    p.sub_frame_counter = 4;
    let m = open_maze();
    p.update(&m);
    // Out of bounds is a wall: the actor stops instead of wrapping.
    assert_eq!((p.x, p.y), (0, 10));
    assert_eq!((p.dx, p.dy), (0, 0));
}

#[test]
fn player_teleports_to_paired_cell() {
    let m = maze_with(&[(2, 3, b'1'), (20, 7, b'1')]);
    let mut p = Player::new();
    p.x = 1;
    p.y = 3;
    p.dx = 1;
    p.dy = 0;
    p.sub_frame_counter = 4;
    p.update(&m);
    assert_eq!((p.x, p.y), (20, 7));
}

#[test]
fn adversary_spawns_heading_up() {
    let g = Adversary::new();
    assert_eq!((g.x, g.y), (13, 14));
    assert_eq!((g.dx, g.dy), (0, -1));
    assert!(!g.vulnerable);
    let h = Adversary::new_at(4, 7);
    assert_eq!((h.x, h.y), (4, 7));
}

#[test]
fn adversary_normal_think_takes_sole_candidate() {
    // Corridor: only the cell above (5,5) is open, and the heading (1,0)
    // makes no exclusion of it, so the decision is forced.
    let mut rows = open_rows();
    for y in 0..31 {
        for x in 0..28 {
            rows[y][x] = b'#';
        }
    }
    rows[5][5] = b' ';
    rows[4][5] = b' ';
    let m = Maze::new(rows);
    let mut g = Adversary::new_at(5, 5);
    g.dx = 1;
    g.dy = 0;
    let mut rng = Lfsr::new(1);
    g.think(&m, 20, 20, &mut rng);
    assert_eq!((g.dx, g.dy), (0, -1));
}

#[test]
fn adversary_dead_end_reverses() {
    let mut rows = open_rows();
    for y in 0..31 {
        for x in 0..28 {
            rows[y][x] = b'#';
        }
    }
    rows[5][5] = b' ';
    let m = Maze::new(rows);
    let mut g = Adversary::new_at(5, 5);
    g.dx = 1;
    g.dy = 0;
    let mut rng = Lfsr::new(1);
    let before = rng.s;
    g.think(&m, 20, 20, &mut rng);
    assert_eq!((g.dx, g.dy), (-1, 0));
    // No draw is made when reversal is the sole fallback.
    assert_eq!(rng.s, before);
}

#[test]
fn adversary_flee_prefers_direction_away_from_player() {
    // Vertical corridor at column 5; the player stands below, so fleeing
    // upward is the single top-priority candidate.
    let mut rows = open_rows();
    for y in 0..31 {
        for x in 0..28 {
            rows[y][x] = b'#';
        }
    }
    rows[4][5] = b' ';
    rows[5][5] = b' ';
    rows[6][5] = b' ';
    let m = Maze::new(rows);
    let mut g = Adversary::new_at(5, 5);
    g.dx = 1;
    g.dy = 0;
    g.vulnerable = true;
    let mut rng = Lfsr::new(1);
    g.think(&m, 5, 10, &mut rng);
    assert_eq!((g.dx, g.dy), (0, -1));
}

#[test]
fn adversary_moves_once_per_six_frames() {
    let m = open_maze();
    let mut g = Adversary::new_at(5, 20);
    let mut rng = Lfsr::new(9);
    for frame in 1..=6 {
        g.update(&m, &mut rng, 20, 28);
        let expected_y: i32 = 20 - (frame / 6);
        assert_eq!(g.y, expected_y, "at frame {}", frame);
        assert_eq!(g.x, 5);
    }
}

#[test]
fn adversary_movement_only_stops_at_wall() {
    let m = maze_with(&[(5, 19, b'#')]);
    let mut g = Adversary::new_at(5, 20);
    for _ in 0..6 {
        g.update_movement_only(&m);
    }
    assert_eq!((g.x, g.y), (5, 20));
    assert_eq!((g.dx, g.dy), (0, 0));
}

#[test]
fn adversary_tunnel_wraps_both_edges() {
    let m = open_maze();
    let mut g = Adversary::new_at(0, 14);
    g.dx = -1;
    g.dy = 0;
    g.sub_frame_counter = 5;
    g.update_movement_only(&m);
    assert_eq!((g.x, g.y), (27, 14));

    let mut h = Adversary::new_at(27, 14);
    h.dx = 1;
    h.dy = 0;
    h.sub_frame_counter = 5;
    h.update_movement_only(&m);
    assert_eq!((h.x, h.y), (0, 14));
}

#[test]
fn adversary_input_applies_when_aligned() {
    let m = open_maze();
    let mut g = Adversary::new_at(5, 20);
    g.process_input(&m, 1, 0);
    assert_eq!((g.dx, g.dy), (1, 0));
    // Mid-step, a perpendicular turn into an open cell is accepted too.
    g.sub_frame_counter = 3;
    g.process_input(&m, 0, 1);
    assert_eq!((g.dx, g.dy), (0, 1));
    // A reversal is accepted as well.
    g.process_input(&m, 0, -1);
    assert_eq!((g.dx, g.dy), (0, -1));
}

#[test]
fn adversary_input_refuses_turn_into_wall() {
    let m = maze_with(&[(5, 21, b'#')]);
    let mut g = Adversary::new_at(5, 20);
    g.dx = 1;
    g.dy = 0;
    g.sub_frame_counter = 3;
    // Perpendicular, but the target cell is a wall: refused.
    g.process_input(&m, 0, 1);
    assert_eq!((g.dx, g.dy), (1, 0));
}

#[test]
fn player_reversal_applies_even_into_a_wall() {
    // An exact reversal is always legal, whatever stands on the reverse
    // side; the blocked step then merely stops the actor.
    let m = maze_with(&[(4, 20, b'#')]);
    let mut p = Player::new();
    p.x = 5;
    p.y = 20;
    p.dx = 1;
    p.dy = 0;
    p.sub_frame_counter = 2;
    p.process_input(&m, -1, 0);
    assert_eq!((p.dx, p.dy), (-1, 0));
    for _ in 0..3 {
        p.update(&m);
    }
    assert_eq!((p.x, p.y), (5, 20));
    assert_eq!((p.dx, p.dy), (0, 0));
}

#[test]
fn adversary_teleports_to_paired_cell() {
    let m = maze_with(&[(2, 3, b'1'), (20, 7, b'1')]);
    let mut g = Adversary::new_at(1, 3);
    g.dx = 1;
    g.dy = 0;
    g.sub_frame_counter = 5;
    g.update_movement_only(&m);
    assert_eq!((g.x, g.y), (20, 7));
}

#[test]
fn ai_adversary_teleports_to_paired_cell() {
    let m = maze_with(&[(2, 3, b'1'), (20, 7, b'1')]);
    let mut g = Adversary::new_at(1, 3);
    g.dx = 1;
    g.dy = 0;
    g.sub_frame_counter = 5;
    let mut rng = Lfsr::new(9);
    // One frame, below the think cadence: pure movement with relocation.
    g.update(&m, &mut rng, 27, 30);
    assert_eq!((g.x, g.y), (20, 7));
}

#[test]
fn adversary_reset_returns_to_center() {
    let mut g = Adversary::new_at(3, 3);
    g.dx = 1;
    g.dy = 0;
    g.vulnerable = true;
    g.reset_to_center();
    assert_eq!((g.x, g.y), (13, 14));
    assert_eq!((g.dx, g.dy), (0, -1));
    // Being eaten does not end the vulnerability window for this actor.
    assert!(g.vulnerable);
}
