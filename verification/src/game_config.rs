//! Round configuration: who drives each actor slot, resolved once at round
//! start and consulted each tick.

use vstd::prelude::*;

verus! {

/// Session kind: one externally driven actor, or two.
#[derive(Clone, Copy, Debug, PartialEq, Eq, Structural)]
pub enum GameMode {
    SinglePlayer,
    Multiplayer,
}

/// The actor slot a controller drives: the primary actor or an adversary.
#[derive(Clone, Copy, Debug, PartialEq, Eq, Structural)]
pub enum PlayerRole {
    PacMan,
    Adversary,
}

/// Controller configuration for one round.
#[derive(Clone, Copy, Debug)]
pub struct GameConfig {
    /// Session kind (single or multiplayer).
    pub mode: GameMode,
    /// Player 1 role (always set).
    pub player1_role: PlayerRole,
    /// Player 2 role (only used in multiplayer).
    pub player2_role: Option<PlayerRole>,
}

/// The primary actor runs on AI when no controller drives it: in single
/// player, when the sole controller chose an adversary; in multiplayer,
/// when neither controller chose the primary actor.
pub open spec fn pacman_is_ai_spec(c: GameConfig) -> bool {
    match c.mode {
        GameMode::SinglePlayer => c.player1_role == PlayerRole::Adversary,
        GameMode::Multiplayer => c.player1_role != PlayerRole::PacMan && c.player2_role != Some(
            PlayerRole::PacMan,
        ),
    }
}

/// The adversaries run on AI when no controller drives one: in single
/// player, when the sole controller chose the primary actor; in
/// multiplayer, when neither controller chose an adversary.
pub open spec fn ghosts_are_ai_spec(c: GameConfig) -> bool {
    match c.mode {
        GameMode::SinglePlayer => c.player1_role == PlayerRole::PacMan,
        GameMode::Multiplayer => c.player1_role != PlayerRole::Adversary && c.player2_role != Some(
            PlayerRole::Adversary,
        ),
    }
}

impl GameConfig {
    /// Creates a configuration from the selected mode and roles.
    pub fn new(mode: GameMode, player1_role: PlayerRole, player2_role: Option<PlayerRole>) -> (r:
        Self)
        ensures
            r.mode == mode,
            r.player1_role == player1_role,
            r.player2_role == player2_role,
    {
        Self { mode, player1_role, player2_role }
    }

    /// Whether the primary actor should be AI-controlled.
    pub fn pacman_is_ai(&self) -> (r: bool)
        ensures
            r == pacman_is_ai_spec(*self),
    {
        match self.mode {
            GameMode::SinglePlayer => matches!(self.player1_role, PlayerRole::Adversary),
            GameMode::Multiplayer => {
                let p1_pacman = matches!(self.player1_role, PlayerRole::PacMan);
                let p2_pacman = match self.player2_role {
                    Some(role) => matches!(role, PlayerRole::PacMan),
                    None => false,
                };
                !p1_pacman && !p2_pacman
            },
        }
    }

    /// Whether the adversaries should be AI-controlled.
    pub fn ghosts_are_ai(&self) -> (r: bool)
        ensures
            r == ghosts_are_ai_spec(*self),
    {
        match self.mode {
            GameMode::SinglePlayer => matches!(self.player1_role, PlayerRole::PacMan),
            GameMode::Multiplayer => {
                let p1_adversary = matches!(self.player1_role, PlayerRole::Adversary);
                let p2_adversary = match self.player2_role {
                    Some(role) => matches!(role, PlayerRole::Adversary),
                    None => false,
                };
                !p1_adversary && !p2_adversary
            },
        }
    }
}

} // verus!
