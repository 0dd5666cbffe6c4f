//! The round-based search-and-destroy referee screen: rounds are started by
//! the referee, the bomb is planted and defused by key or card, and the
//! first side past half the rounds wins the match.

use vstd::prelude::*;
use vstd::string::StringExecFns;

use crate::events::InputEvent;
use crate::mailbox::{lemma_notify_none, lemma_notify_one, sound_sent, TaskSenders};
use crate::outputs::SoundCommand;
use crate::text::{clock_text, decimal_digits, format_clock, u32_to_string};
use crate::views::{NavigationAction, ViewType};

verus! {

/// The phases of a round.
#[derive(Debug, Clone, Copy, PartialEq, Eq, Structural)]
pub enum CSGOGameState {
    Waiting,
    RoundActive,
    BombPlanted,
    RoundEnded,
}

/// The round-based bomb-defusal referee screen.
#[derive(Debug, Clone, Copy, PartialEq)]
pub struct CSGOView {
    pub game_state: CSGOGameState,
    pub round_number: u32,
    pub terrorist_score: u32,
    pub counter_terrorist_score: u32,
    /// Round seconds remaining.
    pub round_time_remaining: u32,
    /// Fuse seconds; present exactly while the bomb is planted.
    pub bomb_time_remaining: Option<u32>,
    pub max_rounds: u32,
}

/// A match is over once a side has taken more than half the rounds.
pub open spec fn csgo_match_over(s: CSGOView) -> bool {
    s.terrorist_score > s.max_rounds / 2 || s.counter_terrorist_score > s.max_rounds / 2
}

/// A fresh referee screen: no rounds played, two-minute rounds, sixteen
/// rounds maximum.
pub open spec fn csgo_initial() -> CSGOView {
    CSGOView {
        game_state: CSGOGameState::Waiting,
        round_number: 0,
        terrorist_score: 0,
        counter_terrorist_score: 0,
        round_time_remaining: 120,
        bomb_time_remaining: None,
        max_rounds: 16,
    }
}

/// Scores stay within the sixteen-round match, and the round counter never
/// runs ahead of the rounds actually decided.
pub open spec fn csgo_wf(s: CSGOView) -> bool {
    s.max_rounds == 16 && match s.game_state {
        CSGOGameState::RoundActive | CSGOGameState::BombPlanted => s.terrorist_score <= 8
            && s.counter_terrorist_score <= 8 && s.round_number <= s.terrorist_score
            + s.counter_terrorist_score + 1,
        _ => s.terrorist_score <= 9 && s.counter_terrorist_score <= 9 && s.round_number
            <= s.terrorist_score + s.counter_terrorist_score,
    }
}

/// Starting a round: the next round begins with a fresh two-minute clock
/// and no bomb.
pub open spec fn csgo_start(s: CSGOView) -> CSGOView {
    CSGOView {
        game_state: CSGOGameState::RoundActive,
        round_number: (s.round_number + 1) as u32,
        round_time_remaining: 120,
        bomb_time_remaining: None,
        ..s
    }
}

/// Planting: only during an active round; the forty-second fuse appears.
pub open spec fn csgo_plant(s: CSGOView) -> CSGOView {
    if s.game_state == CSGOGameState::RoundActive {
        CSGOView { game_state: CSGOGameState::BombPlanted, bomb_time_remaining: Some(40u32), ..s }
    } else {
        s
    }
}

/// Defusing: only while the bomb is planted; the defenders take the round.
pub open spec fn csgo_defuse(s: CSGOView) -> CSGOView {
    if s.game_state == CSGOGameState::BombPlanted {
        CSGOView {
            game_state: CSGOGameState::RoundEnded,
            counter_terrorist_score: (s.counter_terrorist_score + 1) as u32,
            bomb_time_remaining: None,
            ..s
        }
    } else {
        s
    }
}

/// Ending a round in favour of one side.
pub open spec fn csgo_end(s: CSGOView, terrorists_win: bool) -> CSGOView {
    if terrorists_win {
        CSGOView {
            game_state: CSGOGameState::RoundEnded,
            bomb_time_remaining: None,
            terrorist_score: (s.terrorist_score + 1) as u32,
            ..s
        }
    } else {
        CSGOView {
            game_state: CSGOGameState::RoundEnded,
            bomb_time_remaining: None,
            counter_terrorist_score: (s.counter_terrorist_score + 1) as u32,
            ..s
        }
    }
}

/// Resetting: back to a fresh match; the configured round count stays.
pub open spec fn csgo_reset(s: CSGOView) -> CSGOView {
    CSGOView {
        game_state: CSGOGameState::Waiting,
        round_number: 0,
        terrorist_score: 0,
        counter_terrorist_score: 0,
        round_time_remaining: 120,
        bomb_time_remaining: None,
        ..s
    }
}

/// Whether a round can end right now (it is active or the bomb is
/// planted).
pub open spec fn csgo_in_round(s: CSGOView) -> bool {
    s.game_state == CSGOGameState::RoundActive || s.game_state == CSGOGameState::BombPlanted
}

/// How one key moves the screen.
pub open spec fn csgo_key_step(s: CSGOView, key: char) -> CSGOView {
    if key == '1' {
        match s.game_state {
            CSGOGameState::Waiting | CSGOGameState::RoundEnded => if csgo_match_over(s) {
                csgo_reset(s)
            } else {
                csgo_start(s)
            },
            _ => s,
        }
    } else if key == '3' {
        csgo_plant(s)
    } else if key == '7' {
        csgo_defuse(s)
    } else if key == '9' {
        if csgo_in_round(s) {
            csgo_end(s, true)
        } else {
            s
        }
    } else if key == '6' {
        if csgo_in_round(s) {
            csgo_end(s, false)
        } else {
            s
        }
    } else {
        s
    }
}

/// How one input event moves the screen: a card plants or defuses,
/// depending on the phase.
pub open spec fn csgo_step(s: CSGOView, event: InputEvent) -> CSGOView {
    match event {
        InputEvent::KeypadEvent(key) => csgo_key_step(s, key),
        InputEvent::CardDetected(_) => match s.game_state {
            CSGOGameState::RoundActive => csgo_plant(s),
            CSGOGameState::BombPlanted => csgo_defuse(s),
            _ => s,
        },
        _ => s,
    }
}

/// The navigation this screen requests: the back key, always.
pub open spec fn csgo_action(s: CSGOView, event: InputEvent) -> Option<NavigationAction> {
    if event == InputEvent::KeypadEvent('0') {
        Some(NavigationAction::Back)
    } else {
        None
    }
}

/// The feedback sounds one event produces.
pub open spec fn csgo_sounds(s: CSGOView, event: InputEvent) -> Seq<SoundCommand> {
    match event {
        InputEvent::KeypadEvent(key) => {
            if key == '1' && (s.game_state == CSGOGameState::Waiting || s.game_state
                == CSGOGameState::RoundEnded) && !csgo_match_over(s) {
                seq![SoundCommand::Beep]
            } else if key == '3' && s.game_state == CSGOGameState::RoundActive {
                seq![SoundCommand::ErrorBeep]
            } else if key == '7' && s.game_state == CSGOGameState::BombPlanted {
                seq![SoundCommand::SuccessBeep]
            } else if key == '9' && csgo_in_round(s) {
                seq![SoundCommand::DefeatSound]
            } else if key == '6' && csgo_in_round(s) {
                seq![SoundCommand::VictorySound]
            } else {
                Seq::empty()
            }
        },
        InputEvent::CardDetected(_) => {
            if s.game_state == CSGOGameState::RoundActive {
                seq![SoundCommand::ErrorBeep]
            } else if s.game_state == CSGOGameState::BombPlanted {
                seq![SoundCommand::SuccessBeep]
            } else {
                Seq::empty()
            }
        },
        _ => Seq::empty(),
    }
}

impl CSGOView {
    /// A fresh referee screen.
    pub fn new() -> (v: CSGOView)
        ensures
            v == csgo_initial(),
            csgo_wf(v),
    {
        CSGOView {
            game_state: CSGOGameState::Waiting,
            round_number: 0,
            terrorist_score: 0,
            counter_terrorist_score: 0,
            round_time_remaining: 120,
            bomb_time_remaining: None,
            max_rounds: 16,
        }
    }

    fn start_round(&mut self, senders: &mut TaskSenders)
        requires
            csgo_wf(*old(self)),
            old(senders).wf(),
            !csgo_match_over(*old(self)),
            old(self).game_state == CSGOGameState::Waiting || old(self).game_state
                == CSGOGameState::RoundEnded,
        ensures
            *final(self) == csgo_start(*old(self)),
            sound_sent(*old(senders), *final(senders), seq![SoundCommand::Beep]),
            final(senders).wf(),
    {
        self.game_state = CSGOGameState::RoundActive;
        self.round_number = self.round_number + 1;
        self.round_time_remaining = 120;
        self.bomb_time_remaining = None;
        senders.sound.notify(SoundCommand::Beep);
        proof {
            lemma_notify_one(old(senders).sound@, old(senders).sound.capacity_spec(), SoundCommand::Beep);
        }
    }

    fn plant_bomb(&mut self, senders: &mut TaskSenders)
        requires
            old(senders).wf(),
        ensures
            *final(self) == csgo_plant(*old(self)),
            old(self).game_state == CSGOGameState::RoundActive ==> sound_sent(
                *old(senders),
                *final(senders),
                seq![SoundCommand::ErrorBeep],
            ),
            old(self).game_state != CSGOGameState::RoundActive ==> *final(senders) == *old(senders),
            final(senders).wf(),
    {
        if matches!(self.game_state, CSGOGameState::RoundActive) {
            self.game_state = CSGOGameState::BombPlanted;
            self.bomb_time_remaining = Some(40);
            senders.sound.notify(SoundCommand::ErrorBeep);
            proof {
                lemma_notify_one(
                    old(senders).sound@,
                    old(senders).sound.capacity_spec(),
                    SoundCommand::ErrorBeep,
                );
            }
        }
    }

    fn defuse_bomb(&mut self, senders: &mut TaskSenders)
        requires
            csgo_wf(*old(self)),
            old(senders).wf(),
        ensures
            *final(self) == csgo_defuse(*old(self)),
            old(self).game_state == CSGOGameState::BombPlanted ==> sound_sent(
                *old(senders),
                *final(senders),
                seq![SoundCommand::SuccessBeep],
            ),
            old(self).game_state != CSGOGameState::BombPlanted ==> *final(senders) == *old(senders),
            final(senders).wf(),
    {
        if matches!(self.game_state, CSGOGameState::BombPlanted) {
            self.game_state = CSGOGameState::RoundEnded;
            self.counter_terrorist_score = self.counter_terrorist_score + 1;
            self.bomb_time_remaining = None;
            senders.sound.notify(SoundCommand::SuccessBeep);
            proof {
                lemma_notify_one(
                    old(senders).sound@,
                    old(senders).sound.capacity_spec(),
                    SoundCommand::SuccessBeep,
                );
            }
        }
    }

    fn end_round(&mut self, terrorists_win: bool, senders: &mut TaskSenders)
        requires
            csgo_wf(*old(self)),
            old(senders).wf(),
            csgo_in_round(*old(self)),
        ensures
            *final(self) == csgo_end(*old(self), terrorists_win),
            sound_sent(
                *old(senders),
                *final(senders),
                seq![
                    if terrorists_win {
                        SoundCommand::DefeatSound
                    } else {
                        SoundCommand::VictorySound
                    },
                ],
            ),
            final(senders).wf(),
    {
        self.game_state = CSGOGameState::RoundEnded;
        self.bomb_time_remaining = None;
        if terrorists_win {
            self.terrorist_score = self.terrorist_score + 1;
            senders.sound.notify(SoundCommand::DefeatSound);
            proof {
                lemma_notify_one(
                    old(senders).sound@,
                    old(senders).sound.capacity_spec(),
                    SoundCommand::DefeatSound,
                );
            }
        } else {
            self.counter_terrorist_score = self.counter_terrorist_score + 1;
            senders.sound.notify(SoundCommand::VictorySound);
            proof {
                lemma_notify_one(
                    old(senders).sound@,
                    old(senders).sound.capacity_spec(),
                    SoundCommand::VictorySound,
                );
            }
        }
    }

    /// Back to a fresh match.
    pub fn reset_game(&mut self)
        ensures
            *final(self) == csgo_reset(*old(self)),
    {
        self.game_state = CSGOGameState::Waiting;
        self.round_number = 0;
        self.terrorist_score = 0;
        self.counter_terrorist_score = 0;
        self.round_time_remaining = 120;
        self.bomb_time_remaining = None;
    }

    /// Whether a side has already taken more than half the rounds.
    pub fn is_match_over(&self) -> (over: bool)
        ensures
            over == csgo_match_over(*self),
    {
        let half_rounds = self.max_rounds / 2;
        self.terrorist_score > half_rounds || self.counter_terrorist_score > half_rounds
    }

    /// Feed one input event through the screen; the back key asks the
    /// router to navigate.
    pub fn handle_input(&mut self, event: InputEvent, senders: &mut TaskSenders) -> (action: Option<
        NavigationAction,
    >)
        requires
            csgo_wf(*old(self)),
            old(senders).wf(),
        ensures
            *final(self) == csgo_step(*old(self), event),
            csgo_wf(*final(self)),
            action == csgo_action(*old(self), event),
            sound_sent(*old(senders), *final(senders), csgo_sounds(*old(self), event)),
            final(senders).wf(),
    {
        proof {
            lemma_notify_none(old(senders).sound@, old(senders).sound.capacity_spec());
        }
        match event {
            InputEvent::KeypadEvent(key) => {
                if key == '1' {
                    match self.game_state {
                        CSGOGameState::Waiting | CSGOGameState::RoundEnded => {
                            if self.is_match_over() {
                                self.reset_game();
                            } else {
                                self.start_round(senders);
                            }
                        },
                        _ => {},
                    }
                    None
                } else if key == '3' {
                    self.plant_bomb(senders);
                    None
                } else if key == '7' {
                    self.defuse_bomb(senders);
                    None
                } else if key == '9' {
                    if matches!(self.game_state, CSGOGameState::RoundActive | CSGOGameState::BombPlanted) {
                        self.end_round(true, senders);
                    }
                    None
                } else if key == '6' {
                    if matches!(self.game_state, CSGOGameState::RoundActive | CSGOGameState::BombPlanted) {
                        self.end_round(false, senders);
                    }
                    None
                } else if key == '0' {
                    Some(NavigationAction::Back)
                } else {
                    None
                }
            },
            InputEvent::CardDetected(_) => {
                match self.game_state {
                    CSGOGameState::RoundActive => {
                        self.plant_bomb(senders);
                    },
                    CSGOGameState::BombPlanted => {
                        self.defuse_bomb(senders);
                    },
                    _ => {},
                }
                None
            },
            _ => None,
        }
    }

    /// The status line for the current phase.
    pub open spec fn status_text(s: CSGOView) -> Seq<char> {
        match s.game_state {
            CSGOGameState::Waiting => "Waiting to start..."@,
            CSGOGameState::RoundActive => "Round in progress"@,
            CSGOGameState::BombPlanted => "BOMB PLANTED!"@,
            CSGOGameState::RoundEnded => if csgo_match_over(s) {
                if s.terrorist_score > s.counter_terrorist_score {
                    "TERRORISTS WIN!"@
                } else {
                    "COUNTER-TERRORISTS WIN!"@
                }
            } else {
                "Round ended"@
            },
        }
    }

    /// The key legend for the current phase.
    pub open spec fn instructions_text(s: CSGOView) -> Seq<char> {
        match s.game_state {
            CSGOGameState::Waiting => "1: Start Round | 0: Back to Menu"@,
            CSGOGameState::RoundActive => "3: Plant Bomb | 6: CT Win | 9: T Win | 0: Back"@,
            CSGOGameState::BombPlanted => "7: Defuse | 6: CT Win | 9: T Win | 0: Back"@,
            CSGOGameState::RoundEnded => "1: Next Round | 0: Back to Menu"@,
        }
    }

    /// The timer line: the fuse while the bomb is planted, the round clock
    /// while the round runs, nothing otherwise.
    pub open spec fn timer_text(s: CSGOView) -> Seq<char> {
        match s.bomb_time_remaining {
            Some(t) => "Bomb: "@ + decimal_digits(t as int) + "s"@,
            None => if s.game_state == CSGOGameState::RoundActive {
                "Time: "@ + clock_text(s.round_time_remaining as int)
            } else {
                ""@
            },
        }
    }

    /// The drawable description: title, score, round, status, timer and key
    /// legend, one line each.
    pub fn render(&self) -> (lines: Vec<String>)
        ensures
            lines@.len() == 6,
            lines@[0]@ == "CSGO - Search & Destroy"@,
            lines@[1]@ == "T: "@ + decimal_digits(self.terrorist_score as int) + " | CT: "@
                + decimal_digits(self.counter_terrorist_score as int),
            lines@[2]@ == "Round: "@ + decimal_digits(self.round_number as int) + "/"@
                + decimal_digits(self.max_rounds as int),
            lines@[3]@ == CSGOView::status_text(*self),
            lines@[4]@ == CSGOView::timer_text(*self),
            lines@[5]@ == CSGOView::instructions_text(*self),
    {
        let mut lines: Vec<String> = Vec::new();
        lines.push(String::from_str("CSGO - Search & Destroy"));
        lines.push(
            String::from_str("T: ").concat(u32_to_string(self.terrorist_score).as_str()).concat(
                " | CT: ",
            ).concat(u32_to_string(self.counter_terrorist_score).as_str()),
        );
        lines.push(
            String::from_str("Round: ").concat(u32_to_string(self.round_number).as_str()).concat(
                "/",
            ).concat(u32_to_string(self.max_rounds).as_str()),
        );
        let status = match self.game_state {
            CSGOGameState::Waiting => String::from_str("Waiting to start..."),
            CSGOGameState::RoundActive => String::from_str("Round in progress"),
            CSGOGameState::BombPlanted => String::from_str("BOMB PLANTED!"),
            CSGOGameState::RoundEnded => {
                if self.is_match_over() {
                    if self.terrorist_score > self.counter_terrorist_score {
                        String::from_str("TERRORISTS WIN!")
                    } else {
                        String::from_str("COUNTER-TERRORISTS WIN!")
                    }
                } else {
                    String::from_str("Round ended")
                }
            },
        };
        lines.push(status);
        let timer = match self.bomb_time_remaining {
            Some(t) => String::from_str("Bomb: ").concat(u32_to_string(t).as_str()).concat("s"),
            None => {
                if matches!(self.game_state, CSGOGameState::RoundActive) {
                    String::from_str("Time: ").concat(format_clock(self.round_time_remaining).as_str())
                } else {
                    String::from_str("")
                }
            },
        };
        lines.push(timer);
        let instructions = match self.game_state {
            CSGOGameState::Waiting => String::from_str("1: Start Round | 0: Back to Menu"),
            CSGOGameState::RoundActive => String::from_str("3: Plant Bomb | 6: CT Win | 9: T Win | 0: Back"),
            CSGOGameState::BombPlanted => String::from_str("7: Defuse | 6: CT Win | 9: T Win | 0: Back"),
            CSGOGameState::RoundEnded => String::from_str("1: Next Round | 0: Back to Menu"),
        };
        lines.push(instructions);
        lines
    }

    /// Entering this screen plays a greeting beep.
    pub fn on_enter(&mut self, senders: &mut TaskSenders)
        requires
            old(senders).wf(),
        ensures
            *final(self) == *old(self),
            sound_sent(*old(senders), *final(senders), seq![SoundCommand::Beep]),
            final(senders).wf(),
    {
        senders.sound.notify(SoundCommand::Beep);
        proof {
            lemma_notify_one(old(senders).sound@, old(senders).sound.capacity_spec(), SoundCommand::Beep);
        }
    }

    /// Which view this is.
    pub fn view_type(&self) -> (t: ViewType)
        ensures
            t == ViewType::CSGO,
    {
        ViewType::CSGO
    }
}

} // verus!
