//! The main menu screen of the two-screen dispatcher: a circular selection
//! over the game modes, with sound and light feedback on every handled key.

use vstd::prelude::*;
use vstd::string::StringExecFns;

use crate::events::{is_change_app, is_lights, is_sound, is_write_text, AppKind, Command, InputEvent};
use crate::display::DisplayCommand;
use crate::outputs::{LightsCommand, SoundCommand};

verus! {

/// The entries of the main menu, in display order.
#[derive(Debug, Clone, Copy, PartialEq, Eq, Structural)]
pub enum MainMenuSelection {
    SearchAndDestroy,
    TeamDeathMatch,
    Domination,
    Cashout,
    Config,
}

/// The entry after a given one, wrapping at the end.
pub open spec fn selection_next(s: MainMenuSelection) -> MainMenuSelection {
    match s {
        MainMenuSelection::SearchAndDestroy => MainMenuSelection::TeamDeathMatch,
        MainMenuSelection::TeamDeathMatch => MainMenuSelection::Domination,
        MainMenuSelection::Domination => MainMenuSelection::Cashout,
        MainMenuSelection::Cashout => MainMenuSelection::Config,
        MainMenuSelection::Config => MainMenuSelection::SearchAndDestroy,
    }
}

/// The entry before a given one, wrapping at the start.
pub open spec fn selection_prev(s: MainMenuSelection) -> MainMenuSelection {
    match s {
        MainMenuSelection::Config => MainMenuSelection::Cashout,
        MainMenuSelection::Cashout => MainMenuSelection::Domination,
        MainMenuSelection::Domination => MainMenuSelection::TeamDeathMatch,
        MainMenuSelection::TeamDeathMatch => MainMenuSelection::SearchAndDestroy,
        MainMenuSelection::SearchAndDestroy => MainMenuSelection::Config,
    }
}

impl MainMenuSelection {
    /// Move to the next entry, wrapping at the end.
    pub fn next(&mut self)
        ensures
            *final(self) == selection_next(*old(self)),
    {
        match self {
            MainMenuSelection::SearchAndDestroy => *self = MainMenuSelection::TeamDeathMatch,
            MainMenuSelection::TeamDeathMatch => *self = MainMenuSelection::Domination,
            MainMenuSelection::Domination => *self = MainMenuSelection::Cashout,
            MainMenuSelection::Cashout => *self = MainMenuSelection::Config,
            MainMenuSelection::Config => *self = MainMenuSelection::SearchAndDestroy,
        }
    }

    /// Move to the previous entry, wrapping at the start.
    pub fn prev(&mut self)
        ensures
            *final(self) == selection_prev(*old(self)),
    {
        match self {
            MainMenuSelection::Config => *self = MainMenuSelection::Cashout,
            MainMenuSelection::Cashout => *self = MainMenuSelection::Domination,
            MainMenuSelection::Domination => *self = MainMenuSelection::TeamDeathMatch,
            MainMenuSelection::TeamDeathMatch => *self = MainMenuSelection::SearchAndDestroy,
            MainMenuSelection::SearchAndDestroy => *self = MainMenuSelection::Config,
        }
    }

    /// The command a confirmed selection renders to: the bomb game starts;
    /// every other entry shows that it is not implemented.
    pub fn handle_select_render(&self) -> (c: Command)
        ensures
            *self == MainMenuSelection::SearchAndDestroy ==> is_change_app(
                c,
                AppKind::SearchAndDestroy,
            ),
            *self != MainMenuSelection::SearchAndDestroy ==> is_write_text(
                c,
                "Not implemented"@,
                ""@,
            ),
    {
        match self {
            MainMenuSelection::SearchAndDestroy => Command::ChangeApp(AppKind::SearchAndDestroy),
            _ => Command::DisplayText(
                DisplayCommand::WriteText {
                    line1: String::from_str("Not implemented"),
                    line2: String::from_str(""),
                },
            ),
        }
    }
}

/// The mathematical state of the main menu screen.
#[verifier::ext_equal]
pub ghost struct MainMenuModel {
    pub current_selection: MainMenuSelection,
    pub has_selected: bool,
    pub last_event: InputEvent,
}

/// How one event transforms the menu: the menu keys move the selection or
/// confirm it, everything else only records the last event.
pub open spec fn menu_step(s: MainMenuModel, event: InputEvent) -> MainMenuModel {
    let moved = match event {
        InputEvent::KeypadEvent(c) => {
            if c == 'a' {
                MainMenuModel { current_selection: selection_prev(s.current_selection), ..s }
            } else if c == 'b' {
                MainMenuModel { current_selection: selection_next(s.current_selection), ..s }
            } else if c == '4' {
                MainMenuModel { has_selected: true, ..s }
            } else {
                s
            }
        },
        _ => s,
    };
    MainMenuModel { last_event: event, ..moved }
}

/// Whether the last event was one of the keys this menu reacts to.
pub open spec fn valid_menu_event(event: InputEvent) -> bool {
    event == InputEvent::KeypadEvent('a') || event == InputEvent::KeypadEvent('b') || event
        == InputEvent::KeypadEvent('4')
}

/// The first display line for each selection, with the cursor marker.
pub open spec fn menu_line1(s: MainMenuSelection) -> Seq<char> {
    match s {
        MainMenuSelection::SearchAndDestroy => "Search&Destroy <-"@,
        MainMenuSelection::TeamDeathMatch => "TDMatch <-"@,
        MainMenuSelection::Domination => "Domination <-"@,
        MainMenuSelection::Cashout => "Cashout <-"@,
        MainMenuSelection::Config => "Config <-"@,
    }
}

/// The second display line for each selection: the entry that follows.
pub open spec fn menu_line2(s: MainMenuSelection) -> Seq<char> {
    match s {
        MainMenuSelection::SearchAndDestroy => "TDMatch"@,
        MainMenuSelection::TeamDeathMatch => "Domination"@,
        MainMenuSelection::Domination => "Cashout"@,
        MainMenuSelection::Cashout => "Config"@,
        MainMenuSelection::Config => ""@,
    }
}

/// The main menu screen.
pub struct MainMenu {
    current_selection: MainMenuSelection,
    has_selected: bool,
    last_event: InputEvent,
}

impl View for MainMenu {
    type V = MainMenuModel;

    closed spec fn view(&self) -> MainMenuModel {
        MainMenuModel {
            current_selection: self.current_selection,
            has_selected: self.has_selected,
            last_event: self.last_event,
        }
    }
}

impl Default for MainMenu {
    /// A fresh menu pointing at the first entry.
    fn default() -> (m: Self)
        ensures
            m@ == (MainMenuModel {
                current_selection: MainMenuSelection::SearchAndDestroy,
                has_selected: false,
                last_event: InputEvent::Null,
            }),
    {
        MainMenu {
            current_selection: MainMenuSelection::SearchAndDestroy,
            has_selected: false,
            last_event: InputEvent::Null,
        }
    }
}

impl MainMenu {
    /// Whether the last event was one of the keys this menu reacts to.
    pub fn valid_last_event(&self) -> (b: bool)
        ensures
            b == valid_menu_event(self@.last_event),
    {
        match &self.last_event {
            InputEvent::KeypadEvent(c) => *c == 'a' || *c == 'b' || *c == '4',
            _ => false,
        }
    }

    /// Move the selection up one entry.
    pub fn handle_menu_up(&mut self)
        ensures
            final(self)@ == (MainMenuModel {
                current_selection: selection_prev(old(self)@.current_selection),
                ..old(self)@
            }),
    {
        self.current_selection.prev();
    }

    /// Move the selection down one entry.
    pub fn handle_menu_down(&mut self)
        ensures
            final(self)@ == (MainMenuModel {
                current_selection: selection_next(old(self)@.current_selection),
                ..old(self)@
            }),
    {
        self.current_selection.next();
    }

    /// Feed one input event through the menu.
    pub fn handle_event(&mut self, event: InputEvent)
        ensures
            final(self)@ == menu_step(old(self)@, event),
    {
        match &event {
            InputEvent::KeypadEvent(c) => {
                if *c == 'a' {
                    self.handle_menu_up();
                } else if *c == 'b' {
                    self.handle_menu_down();
                } else if *c == '4' {
                    self.has_selected = true;
                }
            },
            _ => {},
        }
        self.last_event = event;
    }

    /// The drawable description of the menu: the two display lines for the
    /// current selection (or the confirmed entry's command), then feedback —
    /// an affirming or an error beep with a flash, except after a heartbeat.
    pub fn render(&self) -> (r: Vec<Command>)
        ensures
            r@.len() >= 1,
            self@.has_selected && self@.current_selection == MainMenuSelection::SearchAndDestroy
                ==> is_change_app(r@[0], AppKind::SearchAndDestroy),
            self@.has_selected && self@.current_selection != MainMenuSelection::SearchAndDestroy
                ==> is_write_text(r@[0], "Not implemented"@, ""@),
            !self@.has_selected ==> is_write_text(
                r@[0],
                menu_line1(self@.current_selection),
                menu_line2(self@.current_selection),
            ),
            self@.last_event is GameTick ==> r@.len() == 1,
            !(self@.last_event is GameTick) && valid_menu_event(self@.last_event) ==> r@.len() == 3
                && is_sound(r@[1], SoundCommand::SuccessBeep) && is_lights(
                r@[2],
                LightsCommand::Flash { r: 255, g: 255, b: 255, duration_ms: 50 },
            ),
            !(self@.last_event is GameTick) && !valid_menu_event(self@.last_event) ==> r@.len() == 3
                && is_sound(r@[1], SoundCommand::ErrorBeep) && is_lights(
                r@[2],
                LightsCommand::Flash { r: 255, g: 0, b: 0, duration_ms: 50 },
            ),
    {
        let mut commands: Vec<Command> = Vec::new();

        if self.has_selected {
            commands.push(self.current_selection.handle_select_render());
        } else {
            let line1 = match self.current_selection {
                MainMenuSelection::SearchAndDestroy => String::from_str("Search&Destroy <-"),
                MainMenuSelection::TeamDeathMatch => String::from_str("TDMatch <-"),
                MainMenuSelection::Domination => String::from_str("Domination <-"),
                MainMenuSelection::Cashout => String::from_str("Cashout <-"),
                MainMenuSelection::Config => String::from_str("Config <-"),
            };
            let line2 = match self.current_selection {
                MainMenuSelection::SearchAndDestroy => String::from_str("TDMatch"),
                MainMenuSelection::TeamDeathMatch => String::from_str("Domination"),
                MainMenuSelection::Domination => String::from_str("Cashout"),
                MainMenuSelection::Cashout => String::from_str("Config"),
                MainMenuSelection::Config => String::from_str(""),
            };
            commands.push(Command::DisplayText(DisplayCommand::WriteText { line1, line2 }));
        }

        let is_tick = self.last_event.is_game_tick();
        if self.valid_last_event() && !is_tick {
            commands.push(Command::Sound(SoundCommand::SuccessBeep));
            commands.push(
                Command::Lights(LightsCommand::Flash { r: 255, g: 255, b: 255, duration_ms: 50 }),
            );
        } else if !is_tick {
            commands.push(Command::Sound(SoundCommand::ErrorBeep));
            commands.push(
                Command::Lights(LightsCommand::Flash { r: 255, g: 0, b: 0, duration_ms: 50 }),
            );
        }

        commands
    }
}

} // verus!
