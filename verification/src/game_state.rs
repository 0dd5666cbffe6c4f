//! The shared game-status snapshot: a plain record of which mode is active
//! and how far it has progressed, published by the game logic and read by
//! external observers. The process holds one store behind a lock and never
//! keeps it across an I/O wait; this module is the store's verified state
//! and its update and read steps.

use vstd::prelude::*;
use vstd::string::StringExecFns;

verus! {

/// The mathematical content of the mode-specific part of the snapshot.
#[verifier::ext_equal]
pub ghost enum GameDataModel {
    MainMenu { selection: Seq<char>, has_selected: bool },
    SearchAndDestroy { time_left: u32, stage: Seq<char>, code_length: u8, wants_game_tick: bool },
}

/// The mathematical content of the whole snapshot.
#[verifier::ext_equal]
pub ghost struct GameStateModel {
    pub is_in_game: bool,
    pub current_game: Seq<char>,
    pub game_data: GameDataModel,
}

/// The mode-specific part of the snapshot.
#[derive(Debug, Clone)]
pub enum GameData {
    MainMenu { selection: String, has_selected: bool },
    SearchAndDestroy { time_left: u32, stage: String, code_length: u8, wants_game_tick: bool },
}

impl View for GameData {
    type V = GameDataModel;

    open spec fn view(&self) -> GameDataModel {
        match self {
            GameData::MainMenu { selection, has_selected } => GameDataModel::MainMenu {
                selection: selection@,
                has_selected: *has_selected,
            },
            GameData::SearchAndDestroy { time_left, stage, code_length, wants_game_tick } => GameDataModel::SearchAndDestroy {
                time_left: *time_left,
                stage: stage@,
                code_length: *code_length,
                wants_game_tick: *wants_game_tick,
            },
        }
    }
}

/// The game-status snapshot: a plain serializable record.
#[derive(Debug, Clone)]
pub struct GameState {
    pub is_in_game: bool,
    pub current_game: String,
    pub game_data: GameData,
}

impl View for GameState {
    type V = GameStateModel;

    open spec fn view(&self) -> GameStateModel {
        GameStateModel {
            is_in_game: self.is_in_game,
            current_game: self.current_game@,
            game_data: self.game_data@,
        }
    }
}

/// The snapshot a fresh device publishes: on the main menu, nothing
/// selected.
pub open spec fn initial_game_state() -> GameStateModel {
    GameStateModel {
        is_in_game: false,
        current_game: "main_menu"@,
        game_data: GameDataModel::MainMenu { selection: "search_and_destroy"@, has_selected: false },
    }
}

impl Default for GameState {
    /// The snapshot of a fresh device.
    fn default() -> (s: Self)
        ensures
            s@ == initial_game_state(),
    {
        GameState {
            is_in_game: false,
            current_game: String::from_str("main_menu"),
            game_data: GameData::MainMenu {
                selection: String::from_str("search_and_destroy"),
                has_selected: false,
            },
        }
    }
}

/// Whether two snapshots carry the same observable content; the external
/// reporter republishes only on a change.
pub fn game_states_equal(a: &GameState, b: &GameState) -> (eq: bool)
    ensures
        eq == (a@ == b@),
{
    let data_equal = match (&a.game_data, &b.game_data) {
        (
            GameData::MainMenu { selection: sel_a, has_selected: has_a },
            GameData::MainMenu { selection: sel_b, has_selected: has_b },
        ) => *sel_a == *sel_b && *has_a == *has_b,
        (
            GameData::SearchAndDestroy {
                time_left: time_a,
                stage: stage_a,
                code_length: code_a,
                wants_game_tick: tick_a,
            },
            GameData::SearchAndDestroy {
                time_left: time_b,
                stage: stage_b,
                code_length: code_b,
                wants_game_tick: tick_b,
            },
        ) => *time_a == *time_b && *stage_a == *stage_b && *code_a == *code_b && *tick_a == *tick_b,
        _ => false,
    };
    a.is_in_game == b.is_in_game && a.current_game == b.current_game && data_equal
}

/// The store behind the process-wide lock: created once at startup,
/// mutated only through the named setters, read as a whole snapshot.
pub struct GameStateStore {
    state: GameState,
}

impl View for GameStateStore {
    type V = GameStateModel;

    closed spec fn view(&self) -> GameStateModel {
        self.state@
    }
}

/// The store a fresh device starts with.
pub fn init_game_state() -> (store: GameStateStore)
    ensures
        store@ == initial_game_state(),
{
    GameStateStore { state: GameState::default() }
}

impl GameStateStore {
    /// Publish that the device is on the main menu.
    pub fn update_main_menu_state(&mut self, selection: &str, has_selected: bool)
        ensures
            final(self)@ == (GameStateModel {
                is_in_game: false,
                current_game: "main_menu"@,
                game_data: GameDataModel::MainMenu { selection: selection@, has_selected },
            }),
    {
        self.state.is_in_game = false;
        self.state.current_game = String::from_str("main_menu");
        self.state.game_data = GameData::MainMenu {
            selection: String::from_str(selection),
            has_selected,
        };
    }

    /// Publish the bomb game's progress.
    pub fn update_search_and_destroy_state(
        &mut self,
        time_left: u32,
        stage: &str,
        code_length: u8,
        wants_game_tick: bool,
    )
        ensures
            final(self)@ == (GameStateModel {
                is_in_game: true,
                current_game: "search_and_destroy"@,
                game_data: GameDataModel::SearchAndDestroy {
                    time_left,
                    stage: stage@,
                    code_length,
                    wants_game_tick,
                },
            }),
    {
        self.state.is_in_game = true;
        self.state.current_game = String::from_str("search_and_destroy");
        self.state.game_data = GameData::SearchAndDestroy {
            time_left,
            stage: String::from_str(stage),
            code_length,
            wants_game_tick,
        };
    }

    /// A full copy of the current snapshot.
    pub fn get_current_state(&self) -> (snapshot: GameState)
        ensures
            snapshot@ == self@,
    {
        let data = match &self.state.game_data {
            GameData::MainMenu { selection, has_selected } => GameData::MainMenu {
                selection: selection.clone(),
                has_selected: *has_selected,
            },
            GameData::SearchAndDestroy { time_left, stage, code_length, wants_game_tick } => GameData::SearchAndDestroy {
                time_left: *time_left,
                stage: stage.clone(),
                code_length: *code_length,
                wants_game_tick: *wants_game_tick,
            },
        };
        GameState {
            is_in_game: self.state.is_in_game,
            current_game: self.state.current_game.clone(),
            game_data: data,
        }
    }
}

} // verus!
