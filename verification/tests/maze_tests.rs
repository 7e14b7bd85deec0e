//! Tests for the grid/map provider.

use pacsim::maze::count_pellets;
use pacsim::maze::find_other_teleporter;
use pacsim::maze::get_teleporter_digit;
use pacsim::maze::is_empty;
use pacsim::maze::is_pellet;
use pacsim::maze::is_power_pellet;
use pacsim::maze::is_teleporter;
use pacsim::maze::is_wall;
use pacsim::maze::Maze;

fn maze_from(rows: &[&str]) -> Maze {
    let mut v: Vec<Vec<u8>> = Vec::new();
    for r in rows {
        v.push(r.bytes().collect());
    }
    Maze::new(v)
}

fn small_maze() -> Maze {
    maze_from(&[
        "####", // row 0
        "#.*1", // row 1
        "# 1 ", // row 2
    ])
}

#[test]
fn wall_queries() {
    let m = small_maze();
    assert!(is_wall(&m, 0, 0));
    assert!(is_wall(&m, 3, 0));
    assert!(!is_wall(&m, 1, 1));
    assert!(!is_wall(&m, 1, 2));
}

#[test]
fn out_of_bounds_is_wall_and_holds_nothing() {
    let m = small_maze();
    assert!(is_wall(&m, -1, 0));
    assert!(is_wall(&m, 0, -1));
    assert!(is_wall(&m, 28, 0));
    assert!(is_wall(&m, 0, 31));
    assert!(!is_pellet(&m, -1, 0));
    assert!(!is_power_pellet(&m, 28, 0));
    assert!(!is_empty(&m, 0, -1));
    assert!(!is_teleporter(&m, 0, 31));
    assert_eq!(get_teleporter_digit(&m, -5, -5), None);
}

#[test]
fn cells_past_stored_rows_are_walls() {
    // The maze stores only 3 rows and 4 columns; anything beyond, though
    // inside the nominal 28x31 grid, counts as a wall and holds nothing.
    let m = small_maze();
    assert!(is_wall(&m, 4, 1));
    assert!(is_wall(&m, 0, 3));
    assert!(!is_pellet(&m, 4, 1));
    assert!(!is_empty(&m, 0, 3));
}

#[test]
fn pellet_queries() {
    let m = small_maze();
    assert!(is_pellet(&m, 1, 1));
    assert!(is_pellet(&m, 2, 1));
    assert!(!is_pellet(&m, 3, 1));
    assert!(is_power_pellet(&m, 2, 1));
    assert!(!is_power_pellet(&m, 1, 1));
}

#[test]
fn teleporter_queries() {
    let m = small_maze();
    assert!(is_teleporter(&m, 3, 1));
    assert!(is_teleporter(&m, 2, 2));
    assert!(!is_teleporter(&m, 1, 1));
    assert_eq!(get_teleporter_digit(&m, 3, 1), Some(b'1'));
    assert_eq!(get_teleporter_digit(&m, 1, 1), None);
}

#[test]
fn paired_teleporter_found_in_scan_order() {
    let m = small_maze();
    assert_eq!(find_other_teleporter(&m, 3, 1), Some((2, 2)));
    assert_eq!(find_other_teleporter(&m, 2, 2), Some((3, 1)));
}

#[test]
fn unpaired_teleporter_yields_none() {
    let m = maze_from(&["5  ", "   "]);
    assert_eq!(find_other_teleporter(&m, 0, 0), None);
    // Not on a teleporter at all:
    assert_eq!(find_other_teleporter(&m, 1, 1), None);
}

#[test]
fn triple_teleporter_takes_first_by_row_major_order() {
    let m = maze_from(&["2 2", "  2"]);
    assert_eq!(find_other_teleporter(&m, 0, 0), Some((2, 0)));
    assert_eq!(find_other_teleporter(&m, 2, 0), Some((0, 0)));
    assert_eq!(find_other_teleporter(&m, 2, 1), Some((0, 0)));
}

#[test]
fn count_pellets_counts_both_kinds() {
    let m = small_maze();
    assert_eq!(count_pellets(&m), 2);
    let empty = maze_from(&["##", "##"]);
    assert_eq!(count_pellets(&empty), 0);
}
