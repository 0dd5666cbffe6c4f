//! The game-mode selection screen of the view layer: a three-entry menu
//! with wrap-around navigation; confirming an entry asks the router to
//! switch to the matching game view.

use vstd::prelude::*;
use vstd::string::StringExecFns;

use crate::events::InputEvent;
use crate::mailbox::{lemma_notify_none, lemma_notify_one, sound_sent, TaskSenders};
use crate::outputs::SoundCommand;
use crate::views::{NavigationAction, ViewType};

verus! {

/// How many entries the menu has.
pub const MENU_ITEM_COUNT: usize = 3;

/// The game-mode selection screen.
#[derive(Debug, Clone, Copy, PartialEq, Eq, Structural)]
pub struct MainMenuView {
    pub selected_index: usize,
}

/// The cursor stays on one of the three entries.
pub open spec fn mm_wf(s: MainMenuView) -> bool {
    s.selected_index < MENU_ITEM_COUNT
}

/// The text of one menu entry.
pub open spec fn menu_item_text(i: int) -> Seq<char> {
    if i == 0 {
        "CSGO - Search & Destroy"@
    } else if i == 1 {
        "Battlefield - Domination"@
    } else {
        "The Finals - Cashout"@
    }
}

/// Moving the cursor up, wrapping to the last entry.
pub open spec fn mm_up(s: MainMenuView) -> MainMenuView {
    MainMenuView {
        selected_index: if s.selected_index > 0 {
            (s.selected_index - 1) as usize
        } else {
            (MENU_ITEM_COUNT - 1) as usize
        },
    }
}

/// Moving the cursor down, wrapping to the first entry.
pub open spec fn mm_down(s: MainMenuView) -> MainMenuView {
    MainMenuView {
        selected_index: if s.selected_index < MENU_ITEM_COUNT - 1 {
            (s.selected_index + 1) as usize
        } else {
            0usize
        },
    }
}

/// The view each entry leads to.
pub open spec fn mm_target(i: int) -> ViewType {
    if i == 0 {
        ViewType::CSGO
    } else if i == 1 {
        ViewType::Battlefield
    } else {
        ViewType::TheFinals
    }
}

/// How one input event moves the cursor.
pub open spec fn mm_step(s: MainMenuView, event: InputEvent) -> MainMenuView {
    match event {
        InputEvent::KeypadEvent(key) => if key == '2' {
            mm_up(s)
        } else if key == '8' {
            mm_down(s)
        } else {
            s
        },
        _ => s,
    }
}

/// The navigation this screen requests: confirming an entry goes to its
/// view.
pub open spec fn mm_action(s: MainMenuView, event: InputEvent) -> Option<NavigationAction> {
    if event == InputEvent::KeypadEvent('5') {
        Some(NavigationAction::GoTo(mm_target(s.selected_index as int)))
    } else {
        None
    }
}

/// The feedback sounds one event produces.
pub open spec fn mm_sounds(s: MainMenuView, event: InputEvent) -> Seq<SoundCommand> {
    match event {
        InputEvent::KeypadEvent(key) => if key == '2' || key == '8' {
            seq![SoundCommand::Beep]
        } else if key == '5' {
            seq![SoundCommand::SuccessBeep]
        } else {
            Seq::empty()
        },
        InputEvent::CardDetected(_) => seq![SoundCommand::Beep],
        _ => Seq::empty(),
    }
}

impl MainMenuView {
    /// A fresh menu pointing at the first entry.
    pub fn new() -> (v: MainMenuView)
        ensures
            v.selected_index == 0,
            mm_wf(v),
    {
        MainMenuView { selected_index: 0 }
    }

    /// Move the cursor up one entry, wrapping.
    pub fn move_selection_up(&mut self)
        requires
            mm_wf(*old(self)),
        ensures
            *final(self) == mm_up(*old(self)),
    {
        if self.selected_index > 0 {
            self.selected_index = self.selected_index - 1;
        } else {
            self.selected_index = MENU_ITEM_COUNT - 1;
        }
    }

    /// Move the cursor down one entry, wrapping.
    pub fn move_selection_down(&mut self)
        requires
            mm_wf(*old(self)),
        ensures
            *final(self) == mm_down(*old(self)),
    {
        if self.selected_index < MENU_ITEM_COUNT - 1 {
            self.selected_index = self.selected_index + 1;
        } else {
            self.selected_index = 0;
        }
    }

    /// The navigation a confirmed entry requests.
    pub fn select_current_item(&self) -> (action: Option<NavigationAction>)
        ensures
            action == Some(NavigationAction::GoTo(mm_target(self.selected_index as int))),
    {
        if self.selected_index == 0 {
            Some(NavigationAction::GoTo(ViewType::CSGO))
        } else if self.selected_index == 1 {
            Some(NavigationAction::GoTo(ViewType::Battlefield))
        } else {
            Some(NavigationAction::GoTo(ViewType::TheFinals))
        }
    }

    /// Feed one input event through the menu.
    pub fn handle_input(&mut self, event: InputEvent, senders: &mut TaskSenders) -> (action: Option<
        NavigationAction,
    >)
        requires
            mm_wf(*old(self)),
            old(senders).wf(),
        ensures
            *final(self) == mm_step(*old(self), event),
            mm_wf(*final(self)),
            action == mm_action(*old(self), event),
            sound_sent(*old(senders), *final(senders), mm_sounds(*old(self), event)),
            final(senders).wf(),
    {
        proof {
            lemma_notify_none(old(senders).sound@, old(senders).sound.capacity_spec());
        }
        match event {
            InputEvent::KeypadEvent(key) => {
                if key == '2' {
                    self.move_selection_up();
                    senders.sound.notify(SoundCommand::Beep);
                    proof {
                        lemma_notify_one(
                            old(senders).sound@,
                            old(senders).sound.capacity_spec(),
                            SoundCommand::Beep,
                        );
                    }
                    None
                } else if key == '8' {
                    self.move_selection_down();
                    senders.sound.notify(SoundCommand::Beep);
                    proof {
                        lemma_notify_one(
                            old(senders).sound@,
                            old(senders).sound.capacity_spec(),
                            SoundCommand::Beep,
                        );
                    }
                    None
                } else if key == '5' {
                    senders.sound.notify(SoundCommand::SuccessBeep);
                    proof {
                        lemma_notify_one(
                            old(senders).sound@,
                            old(senders).sound.capacity_spec(),
                            SoundCommand::SuccessBeep,
                        );
                    }
                    self.select_current_item()
                } else {
                    None
                }
            },
            InputEvent::CardDetected(_) => {
                senders.sound.notify(SoundCommand::Beep);
                proof {
                    lemma_notify_one(
                        old(senders).sound@,
                        old(senders).sound.capacity_spec(),
                        SoundCommand::Beep,
                    );
                }
                None
            },
            _ => None,
        }
    }

    /// The drawable description: title, the three entries with the cursor,
    /// and the key legend.
    pub fn render(&self) -> (lines: Vec<String>)
        requires
            mm_wf(*self),
        ensures
            lines@.len() == 5,
            lines@[0]@ == "AIRSOFT GAME SYSTEM"@,
            forall|j: int| 0 <= j < 3 ==> lines@[1 + j]@ == (if j == self.selected_index {
                "> "@
            } else {
                "  "@
            }) + menu_item_text(j),
            lines@[4]@ == "Use 2/8 to navigate, 5 to select"@,
    {
        let mut lines: Vec<String> = Vec::new();
        lines.push(String::from_str("AIRSOFT GAME SYSTEM"));
        let mut j: usize = 0;
        while j < 3
            invariant
                mm_wf(*self),
                j <= 3,
                lines@.len() == 1 + j,
                lines@[0]@ == "AIRSOFT GAME SYSTEM"@,
                forall|k: int| 0 <= k < j ==> lines@[1 + k]@ == (if k == self.selected_index {
                    "> "@
                } else {
                    "  "@
                }) + menu_item_text(k),
            decreases 3 - j,
        {
            let marker = if j == self.selected_index {
                String::from_str("> ")
            } else {
                String::from_str("  ")
            };
            let item = if j == 0 {
                "CSGO - Search & Destroy"
            } else if j == 1 {
                "Battlefield - Domination"
            } else {
                "The Finals - Cashout"
            };
            lines.push(marker.concat(item));
            j = j + 1;
        }
        lines.push(String::from_str("Use 2/8 to navigate, 5 to select"));
        lines
    }

    /// Entering this screen plays a greeting beep.
    pub fn on_enter(&mut self, senders: &mut TaskSenders)
        requires
            old(senders).wf(),
        ensures
            *final(self) == *old(self),
            sound_sent(*old(senders), *final(senders), seq![SoundCommand::Beep]),
            final(senders).wf(),
    {
        senders.sound.notify(SoundCommand::Beep);
        proof {
            lemma_notify_one(old(senders).sound@, old(senders).sound.capacity_spec(), SoundCommand::Beep);
        }
    }

    /// Which view this is.
    pub fn view_type(&self) -> (t: ViewType)
        ensures
            t == ViewType::MainMenu,
    {
        ViewType::MainMenu
    }
}

} // verus!
