//! The compact game manager of an earlier device generation: a two-entry
//! main menu and a bomb state machine whose phase data (digits entered,
//! code, remaining seconds) lives in the state value itself, so no stale
//! countdown survives a phase change. Each event yields the next state plus
//! the display and feedback commands to emit.
//!
//! In this generation a wrong disarm code resets the timer to its full
//! length; the actor-based machine elsewhere in this crate preserves the
//! remaining time instead.

use vstd::prelude::*;
use vstd::array::spec_array_update;
use vstd::string::StringExecFns;

use crate::events::{is_lights, is_sound, is_write_text, Command};
use crate::display::DisplayCommand;
use crate::outputs::{LightsCommand, SoundCommand};
use crate::text::{clock_text, format_clock};

verus! {

/// How many seconds the bomb timer runs in this generation.
pub const BOMB_TIMER_SECONDS: u32 = 120;

/// One semantic input of the game manager.
#[derive(Debug, Clone, Copy, PartialEq, Eq, Structural)]
pub enum GameEvent {
    MenuUp,
    MenuDown,
    MenuSelect,
    GameArm,
    GameDisarm,
    CodeDigit(u8),
    TimerTick,
}

/// The bomb-game phases, each carrying exactly its own data.
#[derive(Debug, Clone, Copy, PartialEq)]
pub enum SearchAndDestroyState {
    Idle,
    ArmingCodeEntry { digits_entered: u8, code: [u8; 4] },
    Armed { time_left_seconds: u32, code: [u8; 4] },
    DisarmingCodeEntry { digits_entered: u8, code: [u8; 4], entered_code: [u8; 4] },
    Defused,
    Exploded,
}

/// Which top-level screen the manager shows.
#[derive(Debug, Clone, Copy, PartialEq)]
pub enum GameState {
    MainMenu,
    SearchAndDestroy(SearchAndDestroyState),
    Configuration,
}

/// A selection cursor over a fixed list of menu entries.
#[derive(Debug, Clone)]
pub struct MenuState {
    pub selected_index: usize,
    pub items: Vec<String>,
}

impl MenuState {
    /// A cursor at the top of the given entries.
    pub fn new(items: Vec<String>) -> (m: MenuState)
        ensures
            m.selected_index == 0,
            m.items@ == items@,
    {
        MenuState { selected_index: 0, items }
    }

    /// Move up one entry, stopping at the top.
    pub fn move_up(&mut self)
        ensures
            final(self).items@ == old(self).items@,
            final(self).selected_index == (if old(self).selected_index > 0 {
                old(self).selected_index - 1
            } else {
                0int
            }),
    {
        if self.selected_index > 0 {
            self.selected_index = self.selected_index - 1;
        }
    }

    /// Move down one entry, stopping at the bottom.
    pub fn move_down(&mut self)
        ensures
            final(self).items@ == old(self).items@,
            final(self).selected_index == (if old(self).selected_index + 1
                < old(self).items@.len() {
                old(self).selected_index + 1
            } else {
                old(self).selected_index as int
            }),
    {
        if self.items.len() > 0 && self.selected_index < self.items.len() - 1 {
            self.selected_index = self.selected_index + 1;
        }
    }

    /// The entry under the cursor.
    pub fn get_selected(&self) -> (item: String)
        requires
            self.selected_index < self.items@.len(),
        ensures
            item@ == self.items@[self.selected_index as int]@,
    {
        self.items[self.selected_index].clone()
    }

    /// Whether the cursor can move up.
    pub fn can_move_up(&self) -> (b: bool)
        ensures
            b == (self.selected_index > 0),
    {
        self.selected_index > 0
    }

    /// Whether the cursor can move down.
    pub fn can_move_down(&self) -> (b: bool)
        ensures
            b == (self.selected_index + 1 < self.items@.len()),
    {
        self.items.len() > 0 && self.selected_index < self.items.len() - 1
    }
}

/// The four code digits derived from four raw draws of the hardware
/// generator: each draw reduced to one decimal digit.
pub open spec fn code_digits(randoms: [u32; 4]) -> Seq<u8> {
    Seq::new(4, |i: int| (randoms[i] % 10) as u8)
}

/// Reduce four raw random draws to a four-digit arm code.
pub fn code_from_randoms(randoms: [u32; 4]) -> (code: [u8; 4])
    ensures
        code@ == code_digits(randoms),
{
    let code: [u8; 4] = [
        (randoms[0] % 10) as u8,
        (randoms[1] % 10) as u8,
        (randoms[2] % 10) as u8,
        (randoms[3] % 10) as u8,
    ];
    proof {
        assert(code@ =~= code_digits(randoms));
    }
    code
}

/// How one event moves the bomb machine: arming counts four digits and
/// then arms with the full timer; the timer loses one second per tick and
/// the bomb explodes when it reaches zero; a fully entered disarm code
/// defuses on a match and otherwise re-arms with the full timer.
pub open spec fn gm_sd_transition(s: SearchAndDestroyState, event: GameEvent, fresh_code: [u8; 4]) -> SearchAndDestroyState {
    match (s, event) {
        (SearchAndDestroyState::Idle, GameEvent::GameArm) => SearchAndDestroyState::ArmingCodeEntry {
            digits_entered: 0,
            code: fresh_code,
        },
        (SearchAndDestroyState::ArmingCodeEntry { digits_entered, code }, GameEvent::CodeDigit(_)) => {
            if digits_entered < 4 {
                if digits_entered + 1 == 4 {
                    SearchAndDestroyState::Armed { time_left_seconds: BOMB_TIMER_SECONDS, code }
                } else {
                    SearchAndDestroyState::ArmingCodeEntry {
                        digits_entered: (digits_entered + 1) as u8,
                        code,
                    }
                }
            } else {
                s
            }
        },
        (SearchAndDestroyState::Armed { time_left_seconds: _, code }, GameEvent::GameDisarm) => SearchAndDestroyState::DisarmingCodeEntry {
            digits_entered: 0,
            code,
            entered_code: [0u8, 0u8, 0u8, 0u8],
        },
        (SearchAndDestroyState::Armed { time_left_seconds, code }, GameEvent::TimerTick) => {
            if time_left_seconds > 0 {
                if time_left_seconds == 1 {
                    SearchAndDestroyState::Exploded
                } else {
                    SearchAndDestroyState::Armed {
                        time_left_seconds: (time_left_seconds - 1) as u32,
                        code,
                    }
                }
            } else {
                s
            }
        },
        (
            SearchAndDestroyState::DisarmingCodeEntry { digits_entered, code, entered_code },
            GameEvent::CodeDigit(digit),
        ) => {
            if digits_entered < 4 {
                let filled = spec_array_update(entered_code, digits_entered as int, digit);
                if digits_entered + 1 == 4 {
                    if filled@ == code@ {
                        SearchAndDestroyState::Defused
                    } else {
                        SearchAndDestroyState::Armed { time_left_seconds: BOMB_TIMER_SECONDS, code }
                    }
                } else {
                    SearchAndDestroyState::DisarmingCodeEntry {
                        digits_entered: (digits_entered + 1) as u8,
                        code,
                        entered_code: filled,
                    }
                }
            } else {
                s
            }
        },
        _ => s,
    }
}

/// How one event moves the whole manager, given which menu entry the
/// cursor is on: the first entry opens the bomb game, the second the
/// configuration screen, and a finished bomb game returns to the menu.
pub open spec fn gm_transition(state: GameState, selected: int, event: GameEvent, fresh_code: [u8; 4]) -> GameState {
    match state {
        GameState::MainMenu => if event == GameEvent::MenuSelect {
            if selected == 0 {
                GameState::SearchAndDestroy(SearchAndDestroyState::Idle)
            } else {
                GameState::Configuration
            }
        } else {
            state
        },
        GameState::SearchAndDestroy(s) => {
            if (s is Defused || s is Exploded) && event == GameEvent::MenuSelect {
                GameState::MainMenu
            } else {
                GameState::SearchAndDestroy(gm_sd_transition(s, event, fresh_code))
            }
        },
        GameState::Configuration => if event == GameEvent::MenuSelect {
            GameState::MainMenu
        } else {
            state
        },
    }
}

/// The masked code-entry progress: one star per entered digit, an
/// underscore per digit still missing.
pub open spec fn code_progress(digits: int) -> Seq<char> {
    Seq::new(4, |i: int| if i < digits {
        '*'
    } else {
        '_'
    })
}

/// The first display line of each bomb phase.
pub open spec fn sd_line1(s: SearchAndDestroyState) -> Seq<char> {
    match s {
        SearchAndDestroyState::Idle => "Search&Destroy"@,
        SearchAndDestroyState::ArmingCodeEntry { .. } => "Enter arm code"@,
        SearchAndDestroyState::Armed { .. } => "BOMB ARMED!"@,
        SearchAndDestroyState::DisarmingCodeEntry { .. } => "Disarm code"@,
        SearchAndDestroyState::Defused => "BOMB DEFUSED!"@,
        SearchAndDestroyState::Exploded => "BOOM! EXPLODED"@,
    }
}

/// The second display line of each bomb phase.
pub open spec fn sd_line2(s: SearchAndDestroyState) -> Seq<char> {
    match s {
        SearchAndDestroyState::Idle => "Press A to arm"@,
        SearchAndDestroyState::ArmingCodeEntry { digits_entered, .. } => "Code: "@ + code_progress(
            digits_entered as int,
        ),
        SearchAndDestroyState::Armed { time_left_seconds, .. } => clock_text(
            time_left_seconds as int,
        ) + " Press B"@,
        SearchAndDestroyState::DisarmingCodeEntry { digits_entered, .. } => "Code: "@
            + code_progress(digits_entered as int),
        SearchAndDestroyState::Defused => "Press 4 to menu"@,
        SearchAndDestroyState::Exploded => "Press 4 to menu"@,
    }
}

/// The strip color each bomb phase shows, on both strips.
pub open spec fn sd_leds(s: SearchAndDestroyState) -> LightsCommand {
    match s {
        SearchAndDestroyState::Idle => LightsCommand::SetStripColors {
            r1: 0,
            g1: 0,
            b1: 0,
            r2: 0,
            g2: 0,
            b2: 0,
        },
        SearchAndDestroyState::ArmingCodeEntry { .. } => LightsCommand::SetStripColors {
            r1: 50,
            g1: 50,
            b1: 0,
            r2: 50,
            g2: 50,
            b2: 0,
        },
        SearchAndDestroyState::Armed { .. } => LightsCommand::SetStripColors {
            r1: 50,
            g1: 0,
            b1: 0,
            r2: 50,
            g2: 0,
            b2: 0,
        },
        SearchAndDestroyState::DisarmingCodeEntry { .. } => LightsCommand::SetStripColors {
            r1: 0,
            g1: 0,
            b1: 50,
            r2: 0,
            g2: 0,
            b2: 50,
        },
        SearchAndDestroyState::Defused => LightsCommand::SetStripColors {
            r1: 0,
            g1: 50,
            b1: 0,
            r2: 0,
            g2: 50,
            b2: 0,
        },
        SearchAndDestroyState::Exploded => LightsCommand::SetStripColors {
            r1: 50,
            g1: 0,
            b1: 0,
            r2: 50,
            g2: 0,
            b2: 0,
        },
    }
}

/// Commands `k` and `k + 1` of a run show exactly this bomb phase: its two
/// display lines, then its strip colors.
pub open spec fn sd_render_at(r: Seq<Command>, k: int, s: SearchAndDestroyState) -> bool {
    is_write_text(r[k], sd_line1(s), sd_line2(s)) && is_lights(r[k + 1], sd_leds(s))
}

/// The second menu line: the selected entry between the available
/// direction arrows.
pub open spec fn menu_line2(items: Seq<Seq<char>>, selected: int) -> Seq<char> {
    (if selected > 0 {
        seq!['\u{2191}']
    } else {
        seq![' ']
    }) + items[selected] + (if selected + 1 < items.len() {
        seq!['\u{2193}']
    } else {
        Seq::<char>::empty()
    })
}

/// Command `k` of a run shows exactly the main menu for this cursor.
pub open spec fn menu_render_at(r: Seq<Command>, k: int, items: Seq<Seq<char>>, selected: int) -> bool {
    is_write_text(r[k], "Airsoft Master"@, menu_line2(items, selected))
}

/// The game manager: the current screen and the menu cursor. Arm codes are
/// drawn outside and handed in with each event, so every draw of the
/// hardware generator is handled.
pub struct GameManager {
    pub state: GameState,
    pub menu: MenuState,
}

impl GameManager {
    /// The menu holds exactly the two entries with a valid cursor.
    pub open spec fn wf(&self) -> bool {
        self.menu.items@.len() == 2 && self.menu.selected_index < 2
            && self.menu.items@[0]@ == "Search & Destroy"@ && self.menu.items@[1]@
            == "Configuration"@
    }

    /// A fresh manager on the main menu.
    pub fn new() -> (g: GameManager)
        ensures
            g.wf(),
            g.state == GameState::MainMenu,
            g.menu.selected_index == 0,
    {
        let mut items: Vec<String> = Vec::new();
        items.push(String::from_str("Search & Destroy"));
        items.push(String::from_str("Configuration"));
        GameManager { state: GameState::MainMenu, menu: MenuState::new(items) }
    }

    /// Build the masked code-entry line.
    fn code_progress_string(digits: u8) -> (s: String)
        requires
            digits <= 4,
        ensures
            s@ == code_progress(digits as int),
    {
        let mut s = String::new();
        let mut i: u8 = 0;
        while i < 4
            invariant
                i <= 4,
                s@.len() == i,
                forall|j: int| 0 <= j < i ==> s@[j] == code_progress(digits as int)[j],
                digits <= 4,
            decreases 4 - i,
        {
            if i < digits {
                s.push('*');
            } else {
                s.push('_');
            }
            i = i + 1;
        }
        assert(s@ =~= code_progress(digits as int));
        s
    }

    /// The two display commands of one bomb phase: its lines, then its
    /// strip colors.
    fn render_search_destroy(s: SearchAndDestroyState, commands: &mut Vec<Command>)
        requires
            s matches SearchAndDestroyState::ArmingCodeEntry { digits_entered, .. }
                ==> digits_entered <= 4,
            s matches SearchAndDestroyState::DisarmingCodeEntry { digits_entered, .. }
                ==> digits_entered <= 4,
        ensures
            final(commands)@.len() == old(commands)@.len() + 2,
            final(commands)@.subrange(0, old(commands)@.len() as int) == old(commands)@,
            sd_render_at(final(commands)@, old(commands)@.len() as int, s),
    {
        let line1 = match s {
            SearchAndDestroyState::Idle => String::from_str("Search&Destroy"),
            SearchAndDestroyState::ArmingCodeEntry { .. } => String::from_str("Enter arm code"),
            SearchAndDestroyState::Armed { .. } => String::from_str("BOMB ARMED!"),
            SearchAndDestroyState::DisarmingCodeEntry { .. } => String::from_str("Disarm code"),
            SearchAndDestroyState::Defused => String::from_str("BOMB DEFUSED!"),
            SearchAndDestroyState::Exploded => String::from_str("BOOM! EXPLODED"),
        };
        let line2 = match s {
            SearchAndDestroyState::Idle => String::from_str("Press A to arm"),
            SearchAndDestroyState::ArmingCodeEntry { digits_entered, .. } => String::from_str(
                "Code: ",
            ).concat(GameManager::code_progress_string(digits_entered).as_str()),
            SearchAndDestroyState::Armed { time_left_seconds, .. } => format_clock(
                time_left_seconds,
            ).concat(" Press B"),
            SearchAndDestroyState::DisarmingCodeEntry { digits_entered, .. } => String::from_str(
                "Code: ",
            ).concat(GameManager::code_progress_string(digits_entered).as_str()),
            SearchAndDestroyState::Defused => String::from_str("Press 4 to menu"),
            SearchAndDestroyState::Exploded => String::from_str("Press 4 to menu"),
        };
        let leds = match s {
            SearchAndDestroyState::Idle => LightsCommand::SetStripColors {
                r1: 0,
                g1: 0,
                b1: 0,
                r2: 0,
                g2: 0,
                b2: 0,
            },
            SearchAndDestroyState::ArmingCodeEntry { .. } => LightsCommand::SetStripColors {
                r1: 50,
                g1: 50,
                b1: 0,
                r2: 50,
                g2: 50,
                b2: 0,
            },
            SearchAndDestroyState::Armed { .. } => LightsCommand::SetStripColors {
                r1: 50,
                g1: 0,
                b1: 0,
                r2: 50,
                g2: 0,
                b2: 0,
            },
            SearchAndDestroyState::DisarmingCodeEntry { .. } => LightsCommand::SetStripColors {
                r1: 0,
                g1: 0,
                b1: 50,
                r2: 0,
                g2: 0,
                b2: 50,
            },
            SearchAndDestroyState::Defused => LightsCommand::SetStripColors {
                r1: 0,
                g1: 50,
                b1: 0,
                r2: 0,
                g2: 50,
                b2: 0,
            },
            SearchAndDestroyState::Exploded => LightsCommand::SetStripColors {
                r1: 50,
                g1: 0,
                b1: 0,
                r2: 50,
                g2: 0,
                b2: 0,
            },
        };
        commands.push(Command::DisplayText(DisplayCommand::WriteText { line1, line2 }));
        commands.push(Command::Lights(leds));
        proof {
            assert(final(commands)@.subrange(0, old(commands)@.len() as int) =~= old(commands)@);
        }
    }

    /// The one display command of the main menu for the current cursor.
    fn render_main_menu(&self, commands: &mut Vec<Command>)
        requires
            self.wf(),
        ensures
            final(commands)@.len() == old(commands)@.len() + 1,
            final(commands)@.subrange(0, old(commands)@.len() as int) == old(commands)@,
            menu_render_at(
                final(commands)@,
                old(commands)@.len() as int,
                self.menu.items.deep_view(),
                self.menu.selected_index as int,
            ),
    {
        let mut line2 = String::new();
        if self.menu.can_move_up() {
            line2.push('\u{2191}');
        } else {
            line2.push(' ');
        }
        let selected = self.menu.get_selected();
        line2.append(selected.as_str());
        if self.menu.can_move_down() {
            line2.push('\u{2193}');
        }
        commands.push(
            Command::DisplayText(
                DisplayCommand::WriteText { line1: String::from_str("Airsoft Master"), line2 },
            ),
        );
        proof {
            assert(final(commands)@.subrange(0, old(commands)@.len() as int) =~= old(commands)@);
            assert(line2@ =~= menu_line2(
                self.menu.items.deep_view(),
                self.menu.selected_index as int,
            ));
        }
    }

    /// Feed one event through the manager. The fresh code is used when the
    /// bomb game starts a code entry; it comes from the random-number
    /// service, and the transition holds for every value it may draw.
    pub fn handle_event(&mut self, event: GameEvent, fresh_code: [u8; 4]) -> (commands: Vec<Command>)
        requires
            old(self).wf(),
        ensures
            final(self).wf(),
            final(self).state == gm_transition(
                old(self).state,
                old(self).menu.selected_index as int,
                event,
                fresh_code,
            ),
            final(self).menu.items@ == old(self).menu.items@,
            final(self).menu.selected_index == (if old(self).state == GameState::MainMenu && event
                == GameEvent::MenuUp && old(self).menu.selected_index > 0 {
                old(self).menu.selected_index - 1
            } else if old(self).state == GameState::MainMenu && event == GameEvent::MenuDown
                && old(self).menu.selected_index + 1 < 2 {
                old(self).menu.selected_index + 1
            } else {
                old(self).menu.selected_index as int
            }),
            old(self).state == GameState::MainMenu ==> match event {
                GameEvent::MenuUp => commands@.len() == 3 && menu_render_at(
                    commands@,
                    0,
                    final(self).menu.items.deep_view(),
                    final(self).menu.selected_index as int,
                ) && is_lights(
                    commands@[1],
                    LightsCommand::SetStripColors { r1: 0, g1: 0, b1: 50, r2: 0, g2: 0, b2: 0 },
                ) && is_sound(
                    commands@[2],
                    SoundCommand::PlayTone { frequency: 800, duration_ms: 100 },
                ),
                GameEvent::MenuDown => commands@.len() == 3 && menu_render_at(
                    commands@,
                    0,
                    final(self).menu.items.deep_view(),
                    final(self).menu.selected_index as int,
                ) && is_lights(
                    commands@[1],
                    LightsCommand::SetStripColors { r1: 0, g1: 0, b1: 0, r2: 0, g2: 0, b2: 50 },
                ) && is_sound(
                    commands@[2],
                    SoundCommand::PlayTone { frequency: 600, duration_ms: 100 },
                ),
                GameEvent::MenuSelect => if old(self).menu.selected_index == 0 {
                    commands@.len() == 4 && sd_render_at(commands@, 0, SearchAndDestroyState::Idle)
                        && is_lights(
                        commands@[2],
                        LightsCommand::SetBothColors { r: 0, g: 50, b: 0 },
                    ) && is_sound(
                        commands@[3],
                        SoundCommand::PlayTone { frequency: 1000, duration_ms: 200 },
                    )
                } else {
                    commands@.len() == 3 && is_write_text(
                        commands@[0],
                        "Configuration"@,
                        "Press 4 to back"@,
                    ) && is_lights(
                        commands@[1],
                        LightsCommand::SetBothColors { r: 0, g: 50, b: 0 },
                    ) && is_sound(
                        commands@[2],
                        SoundCommand::PlayTone { frequency: 1000, duration_ms: 200 },
                    )
                },
                _ => commands@.len() == 0,
            },
            old(self).state matches GameState::SearchAndDestroy(s) ==> {
                if (s is Defused || s is Exploded) && event == GameEvent::MenuSelect {
                    commands@.len() == 1 && menu_render_at(
                        commands@,
                        0,
                        final(self).menu.items.deep_view(),
                        final(self).menu.selected_index as int,
                    )
                } else if GameManager::sd_transition_happens(s, event) {
                    commands@.len() == 2 && sd_render_at(
                        commands@,
                        0,
                        gm_sd_transition(s, event, fresh_code),
                    )
                } else {
                    commands@.len() == 0
                }
            },
            old(self).state == GameState::Configuration ==> if event == GameEvent::MenuSelect {
                commands@.len() == 1 && menu_render_at(
                    commands@,
                    0,
                    final(self).menu.items.deep_view(),
                    final(self).menu.selected_index as int,
                )
            } else {
                commands@.len() == 0
            },
    {
        let mut commands: Vec<Command> = Vec::new();
        match self.state {
            GameState::MainMenu => {
                match event {
                    GameEvent::MenuUp => {
                        self.menu.move_up();
                        self.render_main_menu(&mut commands);
                        commands.push(
                            Command::Lights(
                                LightsCommand::SetStripColors {
                                    r1: 0,
                                    g1: 0,
                                    b1: 50,
                                    r2: 0,
                                    g2: 0,
                                    b2: 0,
                                },
                            ),
                        );
                        commands.push(
                            Command::Sound(SoundCommand::PlayTone { frequency: 800, duration_ms: 100 }),
                        );
                    },
                    GameEvent::MenuDown => {
                        self.menu.move_down();
                        self.render_main_menu(&mut commands);
                        commands.push(
                            Command::Lights(
                                LightsCommand::SetStripColors {
                                    r1: 0,
                                    g1: 0,
                                    b1: 0,
                                    r2: 0,
                                    g2: 0,
                                    b2: 50,
                                },
                            ),
                        );
                        commands.push(
                            Command::Sound(SoundCommand::PlayTone { frequency: 600, duration_ms: 100 }),
                        );
                    },
                    GameEvent::MenuSelect => {
                        if self.menu.selected_index == 0 {
                            self.state = GameState::SearchAndDestroy(SearchAndDestroyState::Idle);
                            GameManager::render_search_destroy(
                                SearchAndDestroyState::Idle,
                                &mut commands,
                            );
                        } else {
                            self.state = GameState::Configuration;
                            commands.push(
                                Command::DisplayText(
                                    DisplayCommand::WriteText {
                                        line1: String::from_str("Configuration"),
                                        line2: String::from_str("Press 4 to back"),
                                    },
                                ),
                            );
                        }
                        commands.push(
                            Command::Lights(LightsCommand::SetBothColors { r: 0, g: 50, b: 0 }),
                        );
                        commands.push(
                            Command::Sound(SoundCommand::PlayTone { frequency: 1000, duration_ms: 200 }),
                        );
                    },
                    _ => {},
                }
            },
            GameState::SearchAndDestroy(s) => {
                let finished = matches!(
                    s,
                    SearchAndDestroyState::Defused | SearchAndDestroyState::Exploded
                );
                if finished && matches!(event, GameEvent::MenuSelect) {
                    self.state = GameState::MainMenu;
                    self.render_main_menu(&mut commands);
                } else {
                    let next = GameManager::sd_step(s, event, fresh_code);
                    let changed = GameManager::sd_transitioned(s, event);
                    self.state = GameState::SearchAndDestroy(next);
                    if changed {
                        GameManager::render_search_destroy(next, &mut commands);
                    }
                }
            },
            GameState::Configuration => {
                if matches!(event, GameEvent::MenuSelect) {
                    self.state = GameState::MainMenu;
                    self.render_main_menu(&mut commands);
                }
            },
        }
        commands
    }

    /// Whether this event moves the bomb machine at all (only then is the
    /// new phase rendered).
    pub open spec fn sd_transition_happens(s: SearchAndDestroyState, event: GameEvent) -> bool {
        match (s, event) {
            (SearchAndDestroyState::Idle, GameEvent::GameArm) => true,
            (SearchAndDestroyState::ArmingCodeEntry { digits_entered, .. }, GameEvent::CodeDigit(_)) => digits_entered
                < 4,
            (SearchAndDestroyState::Armed { .. }, GameEvent::GameDisarm) => true,
            (SearchAndDestroyState::Armed { time_left_seconds, .. }, GameEvent::TimerTick) => time_left_seconds
                > 0,
            (
                SearchAndDestroyState::DisarmingCodeEntry { digits_entered, .. },
                GameEvent::CodeDigit(_),
            ) => digits_entered < 4,
            _ => false,
        }
    }

    fn sd_transitioned(s: SearchAndDestroyState, event: GameEvent) -> (b: bool)
        ensures
            b == GameManager::sd_transition_happens(s, event),
    {
        match (s, event) {
            (SearchAndDestroyState::Idle, GameEvent::GameArm) => true,
            (SearchAndDestroyState::ArmingCodeEntry { digits_entered, .. }, GameEvent::CodeDigit(_)) => digits_entered
                < 4,
            (SearchAndDestroyState::Armed { .. }, GameEvent::GameDisarm) => true,
            (SearchAndDestroyState::Armed { time_left_seconds, .. }, GameEvent::TimerTick) => time_left_seconds
                > 0,
            (
                SearchAndDestroyState::DisarmingCodeEntry { digits_entered, .. },
                GameEvent::CodeDigit(_),
            ) => digits_entered < 4,
            _ => false,
        }
    }

    /// One step of the bomb machine as an executable function.
    fn sd_step(s: SearchAndDestroyState, event: GameEvent, fresh_code: [u8; 4]) -> (next: SearchAndDestroyState)
        ensures
            next == gm_sd_transition(s, event, fresh_code),
    {
        match (s, event) {
            (SearchAndDestroyState::Idle, GameEvent::GameArm) => SearchAndDestroyState::ArmingCodeEntry {
                digits_entered: 0,
                code: fresh_code,
            },
            (SearchAndDestroyState::ArmingCodeEntry { digits_entered, code }, GameEvent::CodeDigit(_)) => {
                if digits_entered < 4 {
                    if digits_entered + 1 == 4 {
                        SearchAndDestroyState::Armed { time_left_seconds: BOMB_TIMER_SECONDS, code }
                    } else {
                        SearchAndDestroyState::ArmingCodeEntry {
                            digits_entered: digits_entered + 1,
                            code,
                        }
                    }
                } else {
                    s
                }
            },
            (SearchAndDestroyState::Armed { time_left_seconds: _, code }, GameEvent::GameDisarm) => SearchAndDestroyState::DisarmingCodeEntry {
                digits_entered: 0,
                code,
                entered_code: [0u8, 0u8, 0u8, 0u8],
            },
            (SearchAndDestroyState::Armed { time_left_seconds, code }, GameEvent::TimerTick) => {
                if time_left_seconds > 0 {
                    if time_left_seconds == 1 {
                        SearchAndDestroyState::Exploded
                    } else {
                        SearchAndDestroyState::Armed {
                            time_left_seconds: time_left_seconds - 1,
                            code,
                        }
                    }
                } else {
                    s
                }
            },
            (
                SearchAndDestroyState::DisarmingCodeEntry { digits_entered, code, entered_code },
                GameEvent::CodeDigit(digit),
            ) => {
                if digits_entered < 4 {
                    let filled: [u8; 4] = [
                        if digits_entered == 0 {
                            digit
                        } else {
                            entered_code[0]
                        },
                        if digits_entered == 1 {
                            digit
                        } else {
                            entered_code[1]
                        },
                        if digits_entered == 2 {
                            digit
                        } else {
                            entered_code[2]
                        },
                        if digits_entered == 3 {
                            digit
                        } else {
                            entered_code[3]
                        },
                    ];
                    proof {
                        assert(filled@ =~= spec_array_update(
                            entered_code,
                            digits_entered as int,
                            digit,
                        )@);
                        assert(filled =~= spec_array_update(entered_code, digits_entered as int, digit));
                    }
                    if digits_entered + 1 == 4 {
                        let matches_code = filled[0] == code[0] && filled[1] == code[1] && filled[2]
                            == code[2] && filled[3] == code[3];
                        proof {
                            assert(matches_code <==> filled@ =~= code@);
                        }
                        if matches_code {
                            SearchAndDestroyState::Defused
                        } else {
                            SearchAndDestroyState::Armed {
                                time_left_seconds: BOMB_TIMER_SECONDS,
                                code,
                            }
                        }
                    } else {
                        SearchAndDestroyState::DisarmingCodeEntry {
                            digits_entered: digits_entered + 1,
                            code,
                            entered_code: filled,
                        }
                    }
                } else {
                    s
                }
            },
            _ => s,
        }
    }
}

} // verus!
