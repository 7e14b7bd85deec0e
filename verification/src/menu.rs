//! Mode-select screens: game mode, roles and maze selection. Only the
//! selection state machine lives here; drawing is an external concern.

use vstd::prelude::*;

use crate::game_config::GameMode;
use crate::game_config::PlayerRole;

verus! {

/// Which menu screen is currently displayed.
#[derive(Clone, Copy, Debug, PartialEq, Eq, Structural)]
pub enum MenuState {
    GameMode,
    RoleSelection,
    MazeSelection,
}

/// The outcome of one menu interaction.
#[derive(Clone, Copy, Debug, PartialEq, Eq, Structural)]
pub enum MenuAction {
    NoAction,
    SelectMaze(usize),
    SelectGameMode(GameMode),
    SelectRole(PlayerRole),
}

/// The menu-navigation state machine.
#[derive(Clone, Copy, Debug)]
pub struct Menu {
    /// The screen being displayed.
    pub state: MenuState,
    /// The highlighted option on that screen.
    pub selected: usize,
    /// The mode chosen so far, if any.
    pub game_mode: Option<GameMode>,
    /// Player 1's chosen role, if any.
    pub player1_role: Option<PlayerRole>,
    /// Player 2's chosen role, if any.
    pub player2_role: Option<PlayerRole>,
}

/// Every menu screen offers exactly two options.
pub open spec fn menu_max_selection(state: MenuState) -> int {
    1
}

/// The menu after one vertical navigation intent: the highlight moves up
/// or down within the screen's option count.
pub open spec fn menu_after_input(menu: Menu, dy: int) -> Menu {
    if dy < 0 && menu.selected > 0 {
        Menu { selected: (menu.selected - 1) as usize, ..menu }
    } else if dy > 0 && menu.selected < menu_max_selection(menu.state) {
        Menu { selected: (menu.selected + 1) as usize, ..menu }
    } else {
        menu
    }
}

/// The menu and action after confirming the highlighted option: mode
/// selection leads to role selection; role selection records player 1's
/// (then, in multiplayer, player 2's) role before maze selection; maze
/// selection reports the chosen maze.
pub open spec fn menu_after_select(menu: Menu) -> (Menu, MenuAction) {
    match menu.state {
        MenuState::GameMode => {
            let mode = if menu.selected == 0 {
                GameMode::SinglePlayer
            } else {
                GameMode::Multiplayer
            };
            (
                Menu { state: MenuState::RoleSelection, selected: 0, game_mode: Some(mode), ..menu },
                MenuAction::SelectGameMode(mode),
            )
        },
        MenuState::RoleSelection => {
            let role = if menu.selected == 0 {
                PlayerRole::PacMan
            } else {
                PlayerRole::Adversary
            };
            if menu.player1_role is None {
                if menu.game_mode == Some(GameMode::Multiplayer) {
                    (
                        Menu { selected: 0, player1_role: Some(role), ..menu },
                        MenuAction::SelectRole(role),
                    )
                } else {
                    (
                        Menu {
                            state: MenuState::MazeSelection,
                            selected: 0,
                            player1_role: Some(role),
                            ..menu
                        },
                        MenuAction::SelectRole(role),
                    )
                }
            } else {
                (
                    Menu {
                        state: MenuState::MazeSelection,
                        selected: 0,
                        player2_role: Some(role),
                        ..menu
                    },
                    MenuAction::SelectRole(role),
                )
            }
        },
        MenuState::MazeSelection => (menu, MenuAction::SelectMaze(menu.selected)),
    }
}

/// The menu after one step back: role selection returns to player 1's
/// role (in multiplayer, once player 1 chose) or to mode selection; maze
/// selection returns to role selection; mode selection stays put.
pub open spec fn menu_after_back(menu: Menu) -> Menu {
    match menu.state {
        MenuState::GameMode => menu,
        MenuState::RoleSelection => {
            if menu.player1_role is Some && menu.game_mode == Some(GameMode::Multiplayer) {
                Menu { selected: 0, player1_role: None, ..menu }
            } else {
                Menu {
                    state: MenuState::GameMode,
                    selected: 0,
                    game_mode: None,
                    player1_role: None,
                    ..menu
                }
            }
        },
        MenuState::MazeSelection => {
            if menu.game_mode == Some(GameMode::Multiplayer) && menu.player2_role is Some {
                Menu { state: MenuState::RoleSelection, selected: 0, player2_role: None, ..menu }
            } else {
                Menu { state: MenuState::RoleSelection, selected: 0, player1_role: None, ..menu }
            }
        },
    }
}

impl Menu {
    /// Opens the menu at the mode-selection screen with nothing chosen.
    pub fn new() -> (r: Self)
        ensures
            r.state == MenuState::GameMode,
            r.selected == 0,
            r.game_mode is None,
            r.player1_role is None,
            r.player2_role is None,
    {
        Self {
            state: MenuState::GameMode,
            selected: 0,
            game_mode: None,
            player1_role: None,
            player2_role: None,
        }
    }

    /// Moves the highlight per one vertical navigation intent.
    pub fn process_input(&mut self, _dx: i32, dy: i32) -> (r: MenuAction)
        ensures
            *final(self) == menu_after_input(*old(self), dy as int),
            r == MenuAction::NoAction,
    {
        let max_selection: usize = match self.state {
            MenuState::GameMode => 1,
            MenuState::RoleSelection => 1,
            MenuState::MazeSelection => 1,
        };

        if dy < 0 && self.selected > 0 {
            self.selected = self.selected - 1;
        } else if dy > 0 && self.selected < max_selection {
            self.selected = self.selected + 1;
        }
        MenuAction::NoAction
    }

    /// Confirms the highlighted option, per [`menu_after_select`].
    pub fn select(&mut self) -> (r: MenuAction)
        ensures
            *final(self) == menu_after_select(*old(self)).0,
            r == menu_after_select(*old(self)).1,
    {
        match self.state {
            MenuState::GameMode => {
                let mode = if self.selected == 0 {
                    GameMode::SinglePlayer
                } else {
                    GameMode::Multiplayer
                };
                self.game_mode = Some(mode);
                self.state = MenuState::RoleSelection;
                self.selected = 0;
                MenuAction::SelectGameMode(mode)
            },
            MenuState::RoleSelection => {
                let role = if self.selected == 0 {
                    PlayerRole::PacMan
                } else {
                    PlayerRole::Adversary
                };
                if self.player1_role.is_none() {
                    self.player1_role = Some(role);
                    let multiplayer = match self.game_mode {
                        Some(mode) => matches!(mode, GameMode::Multiplayer),
                        None => false,
                    };
                    if multiplayer {
                        self.selected = 0;
                        MenuAction::SelectRole(role)
                    } else {
                        self.state = MenuState::MazeSelection;
                        self.selected = 0;
                        MenuAction::SelectRole(role)
                    }
                } else {
                    self.player2_role = Some(role);
                    self.state = MenuState::MazeSelection;
                    self.selected = 0;
                    MenuAction::SelectRole(role)
                }
            },
            MenuState::MazeSelection => MenuAction::SelectMaze(self.selected),
        }
    }

    /// Steps back one screen, per [`menu_after_back`].
    pub fn back(&mut self)
        ensures
            *final(self) == menu_after_back(*old(self)),
    {
        match self.state {
            MenuState::GameMode => {},
            MenuState::RoleSelection => {
                let multiplayer = match self.game_mode {
                    Some(mode) => matches!(mode, GameMode::Multiplayer),
                    None => false,
                };
                if self.player1_role.is_some() && multiplayer {
                    self.player1_role = None;
                    self.selected = 0;
                } else {
                    self.state = MenuState::GameMode;
                    self.game_mode = None;
                    self.player1_role = None;
                    self.selected = 0;
                }
            },
            MenuState::MazeSelection => {
                let multiplayer = match self.game_mode {
                    Some(mode) => matches!(mode, GameMode::Multiplayer),
                    None => false,
                };
                if multiplayer && self.player2_role.is_some() {
                    self.player2_role = None;
                    self.state = MenuState::RoleSelection;
                    self.selected = 0;
                } else {
                    self.player1_role = None;
                    self.state = MenuState::RoleSelection;
                    self.selected = 0;
                }
            },
        }
    }
}

} // verus!
