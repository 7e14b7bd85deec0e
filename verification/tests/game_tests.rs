//! Scenario tests for the simulation tick and round state.

use pacsim::constants::ghost_score;
use pacsim::game::Game;
use pacsim::game_config::GameConfig;
use pacsim::game_config::GameMode;
use pacsim::game_config::PlayerRole;
use pacsim::maze::Maze;

fn single_player_config() -> GameConfig {
    GameConfig::new(GameMode::SinglePlayer, PlayerRole::PacMan, None)
}

/// A full-size open grid with the adversary spawn box sealed in walls, so
/// the AI actors stay boxed in while the player is scripted.
fn sealed_rows() -> Vec<Vec<u8>> {
    let mut rows: Vec<Vec<u8>> = Vec::new();
    for _ in 0..31 {
        rows.push(vec![b' '; 28]);
    }
    for y in 13..=15 {
        for x in 11..=15 {
            rows[y][x] = b'#';
        }
    }
    rows
}

fn sealed_maze_with(cells: &[(usize, usize, u8)]) -> Maze {
    let mut rows = sealed_rows();
    for &(x, y, tile) in cells {
        rows[y][x] = tile;
    }
    Maze::new(rows)
}

#[test]
fn new_game_initial_state() {
    let m = sealed_maze_with(&[(5, 5, b'.'), (6, 5, b'*')]);
    let g = Game::new(single_player_config(), m);
    assert_eq!(g.pellets, 2);
    assert_eq!(g.score, 0);
    assert!(g.alive);
    assert_eq!(g.power_pellet_timer, 0);
    assert_eq!(g.ghost_eaten_count, 0);
    assert_eq!(g.frame, 0);
    assert_eq!(g.player_ghost_index, None);
    assert_eq!(g.ghosts.len(), 3);
    assert_eq!((g.ghosts[0].x, g.ghosts[0].y), (12, 14));
    assert_eq!((g.ghosts[1].x, g.ghosts[1].y), (13, 14));
    assert_eq!((g.ghosts[2].x, g.ghosts[2].y), (14, 14));
}

#[test]
fn player_ghost_index_follows_roles() {
    let m1 = sealed_maze_with(&[]);
    let g1 = Game::new(
        GameConfig::new(GameMode::SinglePlayer, PlayerRole::Adversary, None),
        m1,
    );
    assert_eq!(g1.player_ghost_index, Some(0));

    let m2 = sealed_maze_with(&[]);
    let g2 = Game::new(
        GameConfig::new(
            GameMode::Multiplayer,
            PlayerRole::PacMan,
            Some(PlayerRole::Adversary),
        ),
        m2,
    );
    assert_eq!(g2.player_ghost_index, Some(1));
}

#[test]
fn scripted_walk_collects_single_pickup_exactly_once() {
    // A single pickup at (5,5); the player spawns at (13,23) and is walked
    // onto it: pickups-remaining drops 1 -> 0 exactly once and the score
    // rises by the regular value exactly once, with no further change.
    let m = sealed_maze_with(&[(5, 5, b'.')]);
    let mut g = Game::new(single_player_config(), m);
    assert_eq!(g.pellets, 1);

    let mut guard: i32 = 0;
    while g.player.x > 5 && guard < 200 {
        g.tick(Some((-1, 0)), None);
        guard += 1;
    }
    assert_eq!(g.player.x, 5);
    assert_eq!(g.pellets, 1, "no pickup on the way");

    while g.player.y > 5 && guard < 400 {
        g.tick(Some((0, -1)), None);
        guard += 1;
    }
    assert_eq!((g.player.x, g.player.y), (5, 5));
    assert_eq!(g.pellets, 0);
    assert_eq!(g.score, 10);
    assert!(g.alive);

    // Staying on the collected cell changes nothing further.
    for _ in 0..20 {
        g.tick(None, None);
        assert_eq!(g.pellets, 0);
        assert_eq!(g.score, 10);
    }
}

#[test]
fn pickup_resolution_is_idempotent_on_collected_cell() {
    let m = sealed_maze_with(&[(13, 23, b'.')]);
    let mut g = Game::new(single_player_config(), m);
    g.handle_pellet_collection();
    assert_eq!(g.pellets, 0);
    assert_eq!(g.score, 10);
    g.handle_pellet_collection();
    assert_eq!(g.pellets, 0);
    assert_eq!(g.score, 10);
}

#[test]
fn power_pickup_sets_vulnerability_and_resets_counter() {
    let m = sealed_maze_with(&[(13, 23, b'*')]);
    let mut g = Game::new(single_player_config(), m);
    g.ghost_eaten_count = 2;
    g.power_pellet_timer = 5;
    g.ghosts[0].vulnerable = true;
    g.handle_pellet_collection();
    assert_eq!(g.score, 50);
    assert_eq!(g.pellets, 0);
    assert_eq!(g.power_pellet_timer, 900);
    assert_eq!(g.ghost_eaten_count, 0);
    for gh in &g.ghosts {
        assert!(gh.vulnerable);
    }
}

#[test]
fn eating_two_adversaries_scores_ascending_tiers() {
    // Collect a power pickup, then collide with two vulnerable adversaries
    // in sequence: the score increments follow table indices 0 then 1 and
    // the eaten-counter ends at 2.
    let m = sealed_maze_with(&[(13, 23, b'*')]);
    let mut g = Game::new(single_player_config(), m);
    g.handle_pellet_collection();
    assert_eq!(g.score, 50);
    g.update_power_pellet_timer();

    g.ghosts[0].x = 13;
    g.ghosts[0].y = 23;
    g.check_collisions();
    assert_eq!(g.score, 50 + 200);
    assert_eq!(g.ghost_eaten_count, 1);
    assert_eq!((g.ghosts[0].x, g.ghosts[0].y), (13, 14));
    assert_eq!((g.ghosts[0].dx, g.ghosts[0].dy), (0, -1));
    assert!(g.alive);

    g.update_power_pellet_timer();
    g.ghosts[1].x = 13;
    g.ghosts[1].y = 23;
    g.check_collisions();
    assert_eq!(g.score, 50 + 200 + 400);
    assert_eq!(g.ghost_eaten_count, 2);
    assert!(g.alive);
}

#[test]
fn multiplier_saturates_at_last_table_entry() {
    assert_eq!(ghost_score(0), 200);
    assert_eq!(ghost_score(1), 400);
    assert_eq!(ghost_score(2), 800);
    assert_eq!(ghost_score(3), 1600);
    assert_eq!(ghost_score(4), 1600);
    assert_eq!(ghost_score(250), 1600);

    // Far past the table's length within one window, each further eating
    // still uses the last entry.
    let m = sealed_maze_with(&[]);
    let mut g = Game::new(single_player_config(), m);
    g.power_pellet_timer = 100;
    g.ghost_eaten_count = 5;
    g.ghosts[2].vulnerable = true;
    g.ghosts[2].x = 13;
    g.ghosts[2].y = 23;
    let before = g.score;
    g.check_collisions();
    assert_eq!(g.score, before + 1600);
    assert_eq!(g.ghost_eaten_count, 6);
}

#[test]
fn lethal_collision_ends_round() {
    let m = sealed_maze_with(&[]);
    let mut g = Game::new(single_player_config(), m);
    g.ghosts[1].x = 13;
    g.ghosts[1].y = 23;
    let before = g.score;
    g.check_collisions();
    assert!(!g.alive);
    assert_eq!(g.score, before);
}

#[test]
fn countdown_expiry_clears_all_vulnerability_same_tick() {
    // When the countdown reaches exactly 0, every adversary's flag is
    // false on that same tick, with no off-by-one lag.
    let m = sealed_maze_with(&[(13, 23, b'*')]);
    let mut g = Game::new(single_player_config(), m);
    g.handle_pellet_collection();
    for gh in &g.ghosts {
        assert!(gh.vulnerable);
    }
    g.power_pellet_timer = 2;
    g.update_power_pellet_timer();
    assert_eq!(g.power_pellet_timer, 1);
    for gh in &g.ghosts {
        assert!(gh.vulnerable, "still vulnerable while the countdown is positive");
    }
    g.update_power_pellet_timer();
    assert_eq!(g.power_pellet_timer, 0);
    for gh in &g.ghosts {
        assert!(!gh.vulnerable, "cleared on the tick the countdown hits zero");
    }
}

#[test]
fn countdown_expiry_through_full_ticks() {
    let m = sealed_maze_with(&[(13, 23, b'*')]);
    let mut g = Game::new(single_player_config(), m);
    g.tick(None, None);
    assert_eq!(g.power_pellet_timer, 899);
    g.power_pellet_timer = 1;
    g.tick(None, None);
    assert_eq!(g.power_pellet_timer, 0);
    for gh in &g.ghosts {
        assert!(!gh.vulnerable);
    }
}

#[test]
fn score_monotone_and_pickups_non_increasing_over_many_ticks() {
    let m = classic_maze();
    let mut g = Game::new(single_player_config(), m);
    let intents: [(i32, i32); 4] = [(-1, 0), (0, -1), (1, 0), (0, 1)];
    for t in 0..1200usize {
        let prev_score = g.score;
        let prev_pellets = g.pellets;
        let prev_alive = g.alive;
        let intent = intents[(t / 60) % 4];
        g.tick(Some(intent), None);
        assert!(g.score >= prev_score);
        assert!(g.pellets <= prev_pellets);
        assert!(prev_alive || !g.alive, "a dead round stays dead");
        assert!(g.pellets >= 0);
    }
}

#[test]
fn externally_controlled_adversary_skips_ai() {
    let m = sealed_maze_with(&[]);
    let mut g = Game::new(
        GameConfig::new(GameMode::SinglePlayer, PlayerRole::Adversary, None),
        m,
    );
    assert_eq!(g.player_ghost_index, Some(0));
    // Boxed in on every side, the driven adversary cannot accept a turn,
    // and with movement blocked it simply stops; the AI never reverses it.
    let before = (g.ghosts[0].x, g.ghosts[0].y);
    for _ in 0..24 {
        g.tick(Some((1, 0)), None);
    }
    assert_eq!((g.ghosts[0].x, g.ghosts[0].y), before);
    assert_eq!((g.ghosts[0].dx, g.ghosts[0].dy), (0, 0));
}

#[test]
fn identical_rounds_stay_identical_frame_for_frame() {
    // The engine is deterministic: two rounds built alike and fed the
    // same intents agree on every observable datum after every tick.
    let mut a = Game::new(single_player_config(), classic_maze());
    let mut b = Game::new(single_player_config(), classic_maze());
    let intents: [(i32, i32); 4] = [(0, -1), (1, 0), (0, 1), (-1, 0)];
    for t in 0..600usize {
        let intent = intents[(t / 45) % 4];
        a.tick(Some(intent), None);
        b.tick(Some(intent), None);
        assert_eq!(a.player, b.player);
        assert_eq!(a.ghosts, b.ghosts);
        assert_eq!(a.eaten, b.eaten);
        assert_eq!(a.rng.s, b.rng.s);
        assert_eq!(a.frame, b.frame);
        assert_eq!(a.pellets, b.pellets);
        assert_eq!(a.score, b.score);
        assert_eq!(a.alive, b.alive);
        assert_eq!(a.power_pellet_timer, b.power_pellet_timer);
        assert_eq!(a.ghost_eaten_count, b.ghost_eaten_count);
    }
}

/// The classic layout, for longer runs.
fn classic_maze() -> Maze {
    let rows = [
        "############################",
        "#............##............#",
        "#.####.#####.##.#####.####.#",
        "#*####.#####.##.#####.####*#",
        "#.####.#####.##.#####.####.#",
        "#..........................#",
        "#.####.##.########.##.####.#",
        "#.####.##.########.##.####.#",
        "#......##....##....##......#",
        "######.##### ## #####.######",
        "#####..##### ## #####..#####",
        "#####.##            ##.#####",
        "#......# ### ## ### #......#",
        "######.# #        # #.######",
        "     #.# #  ####  # #.#     ",
        "######.# #        # #.######",
        "#......# ########## #......#",
        "#####.##            ##.#####",
        "#####..##### ## #####..#####",
        "######.##### ## #####.######",
        "#......##....##....##......#",
        "#.####.##.########.##.####.#",
        "#.####.##.########.##.####.#",
        "#...##................##...#",
        "###.##.####.##.####.##.###.#",
        "#*..   ####.##.####   ..*..#",
        "###.##.####.##.####.##.###.#",
        "#...##................##...#",
        "#.##########.##.##########.#",
        "#..........................#",
        "############################",
    ];
    let mut v: Vec<Vec<u8>> = Vec::new();
    for r in rows {
        v.push(r.bytes().collect());
    }
    Maze::new(v)
}
