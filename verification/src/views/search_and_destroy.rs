//! The configurable search-and-destroy referee screen: a configuration
//! phase for round count, round length and bomb timer, then rounds that are
//! started by the referee, with plant, defuse and per-side round wins.

use vstd::prelude::*;
use vstd::string::StringExecFns;

use crate::events::InputEvent;
use crate::mailbox::{lemma_notify_none, lemma_notify_one, lemma_notify_two, sound_sent, TaskSenders};
use crate::outputs::SoundCommand;
use crate::text::{clock_text, decimal_digits, format_clock, u32_to_string};
use crate::views::{NavigationAction, ViewType};

verus! {

/// The phases of the screen, configuration included.
#[derive(Debug, Clone, Copy, PartialEq, Eq, Structural)]
pub enum SearchAndDestroyPhase {
    Configuration,
    WaitingToStart,
    RoundActive,
    BombPlanted,
    RoundEnded,
}

/// The in-round game state that shadows the phase.
#[derive(Debug, Clone, Copy, PartialEq, Eq, Structural)]
pub enum SearchAndDestroyGameState {
    Waiting,
    RoundActive,
    BombPlanted,
    RoundEnded,
}

/// The configurable search-and-destroy referee screen.
#[derive(Debug, Clone, Copy, PartialEq)]
pub struct SearchAndDestroyView {
    pub phase: SearchAndDestroyPhase,
    pub game_state: SearchAndDestroyGameState,
    pub round_number: u32,
    pub terrorist_score: u32,
    pub counter_terrorist_score: u32,
    /// Round seconds remaining.
    pub round_time_remaining: u32,
    /// Fuse seconds; present exactly while the bomb is planted.
    pub bomb_time_remaining: Option<u32>,
    pub max_rounds: u32,
    pub selected_config_index: usize,
    pub round_time_minutes: u32,
    pub bomb_timer_seconds: u32,
}

/// A match is over once a side has taken more than half the rounds.
pub open spec fn sd_match_over(s: SearchAndDestroyView) -> bool {
    s.terrorist_score > s.max_rounds / 2 || s.counter_terrorist_score > s.max_rounds / 2
}

/// A fresh screen in the configuration phase with the default settings.
pub open spec fn sd_initial() -> SearchAndDestroyView {
    SearchAndDestroyView {
        phase: SearchAndDestroyPhase::Configuration,
        game_state: SearchAndDestroyGameState::Waiting,
        round_number: 0,
        terrorist_score: 0,
        counter_terrorist_score: 0,
        round_time_remaining: 120,
        bomb_time_remaining: None,
        max_rounds: 16,
        selected_config_index: 0,
        round_time_minutes: 2,
        bomb_timer_seconds: 40,
    }
}

/// The configuration stays within its menu ranges and the scores within
/// the configured match.
pub open spec fn sd_wf(s: SearchAndDestroyView) -> bool {
    2 <= s.max_rounds <= 30 && s.max_rounds % 2 == 0 && 1 <= s.round_time_minutes <= 10 && 15
        <= s.bomb_timer_seconds <= 60 && s.bomb_timer_seconds % 5 == 0 && s.selected_config_index
        <= 2 && match s.phase {
        SearchAndDestroyPhase::Configuration => s.game_state == SearchAndDestroyGameState::Waiting
            && s.terrorist_score == 0 && s.counter_terrorist_score == 0 && s.round_number == 0,
        SearchAndDestroyPhase::WaitingToStart => s.game_state == SearchAndDestroyGameState::Waiting
            && s.terrorist_score <= s.max_rounds / 2 && s.counter_terrorist_score <= s.max_rounds
            / 2 && s.round_number <= s.terrorist_score + s.counter_terrorist_score,
        SearchAndDestroyPhase::RoundActive | SearchAndDestroyPhase::BombPlanted => (if s.phase
            == SearchAndDestroyPhase::RoundActive {
            s.game_state == SearchAndDestroyGameState::RoundActive
        } else {
            s.game_state == SearchAndDestroyGameState::BombPlanted
        }) && s.terrorist_score <= s.max_rounds / 2 && s.counter_terrorist_score <= s.max_rounds / 2
            && s.round_number <= s.terrorist_score + s.counter_terrorist_score + 1,
        SearchAndDestroyPhase::RoundEnded => s.game_state == SearchAndDestroyGameState::RoundEnded
            && s.terrorist_score <= s.max_rounds / 2 + 1 && s.counter_terrorist_score
            <= s.max_rounds / 2 + 1 && s.round_number <= s.terrorist_score
            + s.counter_terrorist_score,
    }
}

/// Back to the top of the configuration menu.
pub open spec fn sd_start_config(s: SearchAndDestroyView) -> SearchAndDestroyView {
    SearchAndDestroyView {
        phase: SearchAndDestroyPhase::Configuration,
        selected_config_index: 0,
        ..s
    }
}

/// Confirming the configuration: the round clock takes the configured
/// length and the screen waits for the first round.
pub open spec fn sd_apply_config(s: SearchAndDestroyView) -> SearchAndDestroyView {
    SearchAndDestroyView {
        round_time_remaining: (s.round_time_minutes * 60) as u32,
        phase: SearchAndDestroyPhase::WaitingToStart,
        ..s
    }
}

/// Moving the configuration cursor up, wrapping to the last row.
pub open spec fn sd_config_up(s: SearchAndDestroyView) -> SearchAndDestroyView {
    SearchAndDestroyView {
        selected_config_index: if s.selected_config_index > 0 {
            (s.selected_config_index - 1) as usize
        } else {
            2usize
        },
        ..s
    }
}

/// Moving the configuration cursor down, wrapping to the first row.
pub open spec fn sd_config_down(s: SearchAndDestroyView) -> SearchAndDestroyView {
    SearchAndDestroyView {
        selected_config_index: if s.selected_config_index < 2 {
            (s.selected_config_index + 1) as usize
        } else {
            0usize
        },
        ..s
    }
}

/// Adjusting the selected configuration row within its range: rounds in
/// steps of two up to thirty, minutes up to ten, bomb seconds in steps of
/// five up to sixty.
pub open spec fn sd_adjust(s: SearchAndDestroyView, increase: bool) -> SearchAndDestroyView {
    if s.selected_config_index == 0 {
        if increase && s.max_rounds < 30 {
            SearchAndDestroyView { max_rounds: (s.max_rounds + 2) as u32, ..s }
        } else if !increase && s.max_rounds > 2 {
            SearchAndDestroyView { max_rounds: (s.max_rounds - 2) as u32, ..s }
        } else {
            s
        }
    } else if s.selected_config_index == 1 {
        if increase && s.round_time_minutes < 10 {
            SearchAndDestroyView { round_time_minutes: (s.round_time_minutes + 1) as u32, ..s }
        } else if !increase && s.round_time_minutes > 1 {
            SearchAndDestroyView { round_time_minutes: (s.round_time_minutes - 1) as u32, ..s }
        } else {
            s
        }
    } else if s.selected_config_index == 2 {
        if increase && s.bomb_timer_seconds < 60 {
            SearchAndDestroyView { bomb_timer_seconds: (s.bomb_timer_seconds + 5) as u32, ..s }
        } else if !increase && s.bomb_timer_seconds > 15 {
            SearchAndDestroyView { bomb_timer_seconds: (s.bomb_timer_seconds - 5) as u32, ..s }
        } else {
            s
        }
    } else {
        s
    }
}

/// Starting a round: the next round begins with the configured clock and
/// no bomb.
pub open spec fn sd_start_round(s: SearchAndDestroyView) -> SearchAndDestroyView {
    SearchAndDestroyView {
        game_state: SearchAndDestroyGameState::RoundActive,
        phase: SearchAndDestroyPhase::RoundActive,
        round_number: (s.round_number + 1) as u32,
        round_time_remaining: (s.round_time_minutes * 60) as u32,
        bomb_time_remaining: None,
        ..s
    }
}

/// Planting: the configured fuse appears.
pub open spec fn sd_plant(s: SearchAndDestroyView) -> SearchAndDestroyView {
    SearchAndDestroyView {
        game_state: SearchAndDestroyGameState::BombPlanted,
        phase: SearchAndDestroyPhase::BombPlanted,
        bomb_time_remaining: Some(s.bomb_timer_seconds),
        ..s
    }
}

/// Ending a round in favour of one side.
pub open spec fn sd_end(s: SearchAndDestroyView, terrorists_win: bool) -> SearchAndDestroyView {
    let ended = SearchAndDestroyView {
        game_state: SearchAndDestroyGameState::RoundEnded,
        phase: SearchAndDestroyPhase::RoundEnded,
        bomb_time_remaining: None,
        ..s
    };
    if terrorists_win {
        SearchAndDestroyView { terrorist_score: (s.terrorist_score + 1) as u32, ..ended }
    } else {
        SearchAndDestroyView { counter_terrorist_score: (s.counter_terrorist_score + 1) as u32, ..ended }
    }
}

/// Defusing: only while the bomb is planted; the defenders take the
/// round.
pub open spec fn sd_defuse(s: SearchAndDestroyView) -> SearchAndDestroyView {
    if s.game_state == SearchAndDestroyGameState::BombPlanted {
        sd_end(SearchAndDestroyView { bomb_time_remaining: None, ..s }, false)
    } else {
        s
    }
}

/// After a decided round: configuration when the match is over, otherwise
/// waiting for the next round.
pub open spec fn sd_next_round_or_end(s: SearchAndDestroyView) -> SearchAndDestroyView {
    if sd_match_over(s) {
        SearchAndDestroyView { phase: SearchAndDestroyPhase::Configuration, ..s }
    } else {
        SearchAndDestroyView {
            phase: SearchAndDestroyPhase::WaitingToStart,
            game_state: SearchAndDestroyGameState::Waiting,
            ..s
        }
    }
}

/// Resetting: scores and rounds cleared; the configuration stays.
pub open spec fn sd_reset(s: SearchAndDestroyView) -> SearchAndDestroyView {
    SearchAndDestroyView {
        game_state: SearchAndDestroyGameState::Waiting,
        round_number: 0,
        terrorist_score: 0,
        counter_terrorist_score: 0,
        round_time_remaining: 120,
        bomb_time_remaining: None,
        ..s
    }
}

/// How one key moves the screen, by phase.
pub open spec fn sd_key_step(s: SearchAndDestroyView, key: char) -> SearchAndDestroyView {
    match s.phase {
        SearchAndDestroyPhase::Configuration => {
            if key == 'a' || key == 'A' {
                sd_config_up(s)
            } else if key == 'd' || key == 'D' {
                sd_config_down(s)
            } else if key == 'b' || key == 'B' {
                sd_adjust(s, true)
            } else if key == '1' {
                sd_apply_config(s)
            } else {
                s
            }
        },
        SearchAndDestroyPhase::WaitingToStart => {
            if key == '1' {
                sd_start_round(s)
            } else {
                s
            }
        },
        SearchAndDestroyPhase::RoundActive => {
            if key == '3' {
                sd_plant(s)
            } else if key == '9' {
                sd_end(s, true)
            } else if key == '6' {
                sd_end(s, false)
            } else {
                s
            }
        },
        SearchAndDestroyPhase::BombPlanted => {
            if key == '7' {
                sd_defuse(s)
            } else if key == '9' {
                sd_end(s, true)
            } else if key == '6' {
                sd_end(s, false)
            } else {
                s
            }
        },
        SearchAndDestroyPhase::RoundEnded => {
            if key == '1' {
                if sd_match_over(s) {
                    sd_start_config(sd_reset(s))
                } else {
                    sd_next_round_or_end(s)
                }
            } else {
                s
            }
        },
    }
}

/// How one input event moves the screen: a card plants or defuses,
/// depending on the phase.
pub open spec fn sd_step(s: SearchAndDestroyView, event: InputEvent) -> SearchAndDestroyView {
    match event {
        InputEvent::KeypadEvent(key) => sd_key_step(s, key),
        InputEvent::CardDetected(_) => match s.phase {
            SearchAndDestroyPhase::RoundActive => sd_plant(s),
            SearchAndDestroyPhase::BombPlanted => sd_defuse(s),
            _ => s,
        },
        _ => s,
    }
}

/// The navigation this screen requests: the back key, in every phase.
pub open spec fn sd_action(s: SearchAndDestroyView, event: InputEvent) -> Option<NavigationAction> {
    if event == InputEvent::KeypadEvent('0') {
        Some(NavigationAction::Back)
    } else {
        None
    }
}

/// The feedback tones one event produces: distinct tones for round start,
/// plant, round end and defuse.
pub open spec fn sd_sounds(s: SearchAndDestroyView, event: InputEvent) -> Seq<SoundCommand> {
    let plant_tone = SoundCommand::PlayTone { frequency: 500, duration_ms: 500 };
    let start_tone = SoundCommand::PlayTone { frequency: 1000, duration_ms: 200 };
    let end_tone = SoundCommand::PlayTone { frequency: 800, duration_ms: 400 };
    let defuse_tone = SoundCommand::PlayTone { frequency: 1500, duration_ms: 300 };
    match event {
        InputEvent::KeypadEvent(key) => {
            match s.phase {
                SearchAndDestroyPhase::WaitingToStart => if key == '1' {
                    seq![start_tone]
                } else {
                    Seq::empty()
                },
                SearchAndDestroyPhase::RoundActive => if key == '3' {
                    seq![plant_tone]
                } else if key == '9' || key == '6' {
                    seq![end_tone]
                } else {
                    Seq::empty()
                },
                SearchAndDestroyPhase::BombPlanted => if key == '7' {
                    seq![end_tone, defuse_tone]
                } else if key == '9' || key == '6' {
                    seq![end_tone]
                } else {
                    Seq::empty()
                },
                _ => Seq::empty(),
            }
        },
        InputEvent::CardDetected(_) => {
            match s.phase {
                SearchAndDestroyPhase::RoundActive => seq![plant_tone],
                SearchAndDestroyPhase::BombPlanted => seq![end_tone, defuse_tone],
                _ => Seq::empty(),
            }
        },
        _ => Seq::empty(),
    }
}

impl SearchAndDestroyView {
    /// A fresh screen in the configuration phase.
    pub fn new() -> (v: SearchAndDestroyView)
        ensures
            v == sd_initial(),
            sd_wf(v),
    {
        SearchAndDestroyView {
            phase: SearchAndDestroyPhase::Configuration,
            game_state: SearchAndDestroyGameState::Waiting,
            round_number: 0,
            terrorist_score: 0,
            counter_terrorist_score: 0,
            round_time_remaining: 120,
            bomb_time_remaining: None,
            max_rounds: 16,
            selected_config_index: 0,
            round_time_minutes: 2,
            bomb_timer_seconds: 40,
        }
    }

    /// Back to the top of the configuration menu.
    pub fn start_configuration(&mut self)
        ensures
            *final(self) == sd_start_config(*old(self)),
    {
        self.phase = SearchAndDestroyPhase::Configuration;
        self.selected_config_index = 0;
    }

    /// Confirm the configuration and wait for the first round.
    pub fn apply_configuration(&mut self)
        requires
            sd_wf(*old(self)),
        ensures
            *final(self) == sd_apply_config(*old(self)),
    {
        self.round_time_remaining = self.round_time_minutes * 60;
        self.phase = SearchAndDestroyPhase::WaitingToStart;
    }

    /// Move the configuration cursor up one row, wrapping.
    pub fn move_config_selection_up(&mut self)
        requires
            sd_wf(*old(self)),
        ensures
            *final(self) == sd_config_up(*old(self)),
    {
        if self.selected_config_index > 0 {
            self.selected_config_index = self.selected_config_index - 1;
        } else {
            self.selected_config_index = 2;
        }
    }

    /// Move the configuration cursor down one row, wrapping.
    pub fn move_config_selection_down(&mut self)
        requires
            sd_wf(*old(self)),
        ensures
            *final(self) == sd_config_down(*old(self)),
    {
        if self.selected_config_index < 2 {
            self.selected_config_index = self.selected_config_index + 1;
        } else {
            self.selected_config_index = 0;
        }
    }

    /// Adjust the selected configuration row within its range.
    pub fn adjust_config_value(&mut self, increase: bool)
        requires
            sd_wf(*old(self)),
            old(self).phase == SearchAndDestroyPhase::Configuration,
        ensures
            *final(self) == sd_adjust(*old(self), increase),
            sd_wf(*final(self)),
    {
        if self.selected_config_index == 0 {
            if increase && self.max_rounds < 30 {
                self.max_rounds = self.max_rounds + 2;
            } else if !increase && self.max_rounds > 2 {
                self.max_rounds = self.max_rounds - 2;
            }
        } else if self.selected_config_index == 1 {
            if increase && self.round_time_minutes < 10 {
                self.round_time_minutes = self.round_time_minutes + 1;
            } else if !increase && self.round_time_minutes > 1 {
                self.round_time_minutes = self.round_time_minutes - 1;
            }
        } else if self.selected_config_index == 2 {
            if increase && self.bomb_timer_seconds < 60 {
                self.bomb_timer_seconds = self.bomb_timer_seconds + 5;
            } else if !increase && self.bomb_timer_seconds > 15 {
                self.bomb_timer_seconds = self.bomb_timer_seconds - 5;
            }
        }
    }

    fn start_round(&mut self, senders: &mut TaskSenders)
        requires
            sd_wf(*old(self)),
            old(self).phase == SearchAndDestroyPhase::WaitingToStart,
            old(senders).wf(),
        ensures
            *final(self) == sd_start_round(*old(self)),
            sound_sent(
                *old(senders),
                *final(senders),
                seq![SoundCommand::PlayTone { frequency: 1000, duration_ms: 200 }],
            ),
            final(senders).wf(),
    {
        self.game_state = SearchAndDestroyGameState::RoundActive;
        self.phase = SearchAndDestroyPhase::RoundActive;
        self.round_number = self.round_number + 1;
        self.round_time_remaining = self.round_time_minutes * 60;
        self.bomb_time_remaining = None;
        senders.sound.notify(SoundCommand::PlayTone { frequency: 1000, duration_ms: 200 });
        proof {
            lemma_notify_one(
                old(senders).sound@,
                old(senders).sound.capacity_spec(),
                SoundCommand::PlayTone { frequency: 1000, duration_ms: 200 },
            );
        }
    }

    /// Plant the bomb: the configured fuse starts.
    pub fn plant_bomb(&mut self, senders: &mut TaskSenders)
        requires
            old(senders).wf(),
        ensures
            *final(self) == sd_plant(*old(self)),
            sound_sent(
                *old(senders),
                *final(senders),
                seq![SoundCommand::PlayTone { frequency: 500, duration_ms: 500 }],
            ),
            final(senders).wf(),
    {
        self.game_state = SearchAndDestroyGameState::BombPlanted;
        self.phase = SearchAndDestroyPhase::BombPlanted;
        self.bomb_time_remaining = Some(self.bomb_timer_seconds);
        senders.sound.notify(SoundCommand::PlayTone { frequency: 500, duration_ms: 500 });
        proof {
            lemma_notify_one(
                old(senders).sound@,
                old(senders).sound.capacity_spec(),
                SoundCommand::PlayTone { frequency: 500, duration_ms: 500 },
            );
        }
    }

    /// End the round in favour of one side.
    pub fn end_round(&mut self, terrorists_win: bool, senders: &mut TaskSenders)
        requires
            sd_wf(*old(self)),
            old(senders).wf(),
        ensures
            *final(self) == sd_end(*old(self), terrorists_win),
            sound_sent(
                *old(senders),
                *final(senders),
                seq![SoundCommand::PlayTone { frequency: 800, duration_ms: 400 }],
            ),
            final(senders).wf(),
    {
        self.game_state = SearchAndDestroyGameState::RoundEnded;
        self.phase = SearchAndDestroyPhase::RoundEnded;
        self.bomb_time_remaining = None;
        if terrorists_win {
            self.terrorist_score = self.terrorist_score + 1;
        } else {
            self.counter_terrorist_score = self.counter_terrorist_score + 1;
        }
        senders.sound.notify(SoundCommand::PlayTone { frequency: 800, duration_ms: 400 });
        proof {
            lemma_notify_one(
                old(senders).sound@,
                old(senders).sound.capacity_spec(),
                SoundCommand::PlayTone { frequency: 800, duration_ms: 400 },
            );
        }
    }

    /// Defuse the bomb: the defenders take the round.
    pub fn defuse_bomb(&mut self, senders: &mut TaskSenders)
        requires
            sd_wf(*old(self)),
            old(senders).wf(),
        ensures
            *final(self) == sd_defuse(*old(self)),
            old(self).game_state == SearchAndDestroyGameState::BombPlanted ==> sound_sent(
                *old(senders),
                *final(senders),
                seq![
                    SoundCommand::PlayTone { frequency: 800, duration_ms: 400 },
                    SoundCommand::PlayTone { frequency: 1500, duration_ms: 300 },
                ],
            ),
            old(self).game_state != SearchAndDestroyGameState::BombPlanted ==> *final(senders)
                == *old(senders),
            final(senders).wf(),
    {
        if matches!(self.game_state, SearchAndDestroyGameState::BombPlanted) {
            self.bomb_time_remaining = None;
            self.end_round(false, senders);
            senders.sound.notify(SoundCommand::PlayTone { frequency: 1500, duration_ms: 300 });
            proof {
                lemma_notify_one(
                    old(senders).sound@,
                    old(senders).sound.capacity_spec(),
                    SoundCommand::PlayTone { frequency: 800, duration_ms: 400 },
                );
                lemma_notify_two(
                    old(senders).sound@,
                    old(senders).sound.capacity_spec(),
                    SoundCommand::PlayTone { frequency: 800, duration_ms: 400 },
                    SoundCommand::PlayTone { frequency: 1500, duration_ms: 300 },
                );
            }
        }
    }

    /// After a decided round, go on to the next round or back to
    /// configuration when the match is over.
    pub fn next_round_or_end(&mut self)
        ensures
            *final(self) == sd_next_round_or_end(*old(self)),
    {
        if self.is_match_over() {
            self.phase = SearchAndDestroyPhase::Configuration;
        } else {
            self.phase = SearchAndDestroyPhase::WaitingToStart;
            self.game_state = SearchAndDestroyGameState::Waiting;
        }
    }

    /// Clear scores and rounds; the configuration stays.
    pub fn reset_game(&mut self)
        ensures
            *final(self) == sd_reset(*old(self)),
    {
        self.game_state = SearchAndDestroyGameState::Waiting;
        self.round_number = 0;
        self.terrorist_score = 0;
        self.counter_terrorist_score = 0;
        self.round_time_remaining = 120;
        self.bomb_time_remaining = None;
    }

    /// Whether a side has already taken more than half the rounds.
    pub fn is_match_over(&self) -> (over: bool)
        ensures
            over == sd_match_over(*self),
    {
        let half_rounds = self.max_rounds / 2;
        self.terrorist_score > half_rounds || self.counter_terrorist_score > half_rounds
    }

    /// Feed one input event through the screen; the back key asks the
    /// router to navigate.
    pub fn handle_input(&mut self, event: InputEvent, senders: &mut TaskSenders) -> (action: Option<
        NavigationAction,
    >)
        requires
            sd_wf(*old(self)),
            old(senders).wf(),
        ensures
            *final(self) == sd_step(*old(self), event),
            sd_wf(*final(self)),
            action == sd_action(*old(self), event),
            sound_sent(*old(senders), *final(senders), sd_sounds(*old(self), event)),
            final(senders).wf(),
    {
        proof {
            lemma_notify_none(old(senders).sound@, old(senders).sound.capacity_spec());
        }
        match event {
            InputEvent::KeypadEvent(key) => {
                let action = if key == '0' {
                    Some(NavigationAction::Back)
                } else {
                    None
                };
                match self.phase {
                    SearchAndDestroyPhase::Configuration => {
                        if key == 'a' || key == 'A' {
                            self.move_config_selection_up();
                        } else if key == 'd' || key == 'D' {
                            self.move_config_selection_down();
                        } else if key == 'b' || key == 'B' {
                            self.adjust_config_value(true);
                        } else if key == '1' {
                            self.apply_configuration();
                        }
                    },
                    SearchAndDestroyPhase::WaitingToStart => {
                        if key == '1' {
                            self.start_round(senders);
                        }
                    },
                    SearchAndDestroyPhase::RoundActive => {
                        if key == '3' {
                            self.plant_bomb(senders);
                        } else if key == '9' {
                            self.end_round(true, senders);
                        } else if key == '6' {
                            self.end_round(false, senders);
                        }
                    },
                    SearchAndDestroyPhase::BombPlanted => {
                        if key == '7' {
                            self.defuse_bomb(senders);
                        } else if key == '9' {
                            self.end_round(true, senders);
                        } else if key == '6' {
                            self.end_round(false, senders);
                        }
                    },
                    SearchAndDestroyPhase::RoundEnded => {
                        if key == '1' {
                            if self.is_match_over() {
                                self.reset_game();
                                self.start_configuration();
                            } else {
                                self.next_round_or_end();
                            }
                        }
                    },
                }
                action
            },
            InputEvent::CardDetected(_) => {
                match self.phase {
                    SearchAndDestroyPhase::RoundActive => {
                        self.plant_bomb(senders);
                    },
                    SearchAndDestroyPhase::BombPlanted => {
                        self.defuse_bomb(senders);
                    },
                    _ => {},
                }
                None
            },
            _ => None,
        }
    }

    /// The status line for the current phase.
    pub open spec fn status_text(s: SearchAndDestroyView) -> Seq<char> {
        match s.phase {
            SearchAndDestroyPhase::Configuration => "Search & Destroy Config"@,
            SearchAndDestroyPhase::WaitingToStart => "Ready to start..."@,
            SearchAndDestroyPhase::RoundActive => "Round Active"@,
            SearchAndDestroyPhase::BombPlanted => "BOMB PLANTED!"@,
            SearchAndDestroyPhase::RoundEnded => if sd_match_over(s) {
                if s.terrorist_score > s.counter_terrorist_score {
                    "TERRORISTS WIN MATCH!"@
                } else {
                    "CT WIN MATCH!"@
                }
            } else {
                "Round Complete"@
            },
        }
    }

    /// The timer line: the fuse while the bomb is planted, the round clock
    /// while the round runs, nothing otherwise.
    pub open spec fn timer_text(s: SearchAndDestroyView) -> Seq<char> {
        match s.bomb_time_remaining {
            Some(t) => "Bomb: "@ + decimal_digits(t as int) + "s"@,
            None => if s.phase == SearchAndDestroyPhase::RoundActive {
                "Time: "@ + clock_text(s.round_time_remaining as int)
            } else {
                ""@
            },
        }
    }

    /// The drawable description: status, score, round, the three
    /// configuration rows, and the timer line.
    pub fn render(&self) -> (lines: Vec<String>)
        ensures
            lines@.len() == 7,
            lines@[0]@ == SearchAndDestroyView::status_text(*self),
            lines@[1]@ == "T: "@ + decimal_digits(self.terrorist_score as int) + " | CT: "@
                + decimal_digits(self.counter_terrorist_score as int),
            lines@[2]@ == "Round: "@ + decimal_digits(self.round_number as int) + "/"@
                + decimal_digits(self.max_rounds as int),
            lines@[3]@ == "Max Rounds: "@ + decimal_digits(self.max_rounds as int),
            lines@[4]@ == "Round Time: "@ + decimal_digits(self.round_time_minutes as int) + "min"@,
            lines@[5]@ == "Bomb Timer: "@ + decimal_digits(self.bomb_timer_seconds as int) + "s"@,
            lines@[6]@ == SearchAndDestroyView::timer_text(*self),
    {
        let mut lines: Vec<String> = Vec::new();
        let status = match self.phase {
            SearchAndDestroyPhase::Configuration => String::from_str("Search & Destroy Config"),
            SearchAndDestroyPhase::WaitingToStart => String::from_str("Ready to start..."),
            SearchAndDestroyPhase::RoundActive => String::from_str("Round Active"),
            SearchAndDestroyPhase::BombPlanted => String::from_str("BOMB PLANTED!"),
            SearchAndDestroyPhase::RoundEnded => {
                if self.is_match_over() {
                    if self.terrorist_score > self.counter_terrorist_score {
                        String::from_str("TERRORISTS WIN MATCH!")
                    } else {
                        String::from_str("CT WIN MATCH!")
                    }
                } else {
                    String::from_str("Round Complete")
                }
            },
        };
        lines.push(status);
        lines.push(
            String::from_str("T: ").concat(u32_to_string(self.terrorist_score).as_str()).concat(
                " | CT: ",
            ).concat(u32_to_string(self.counter_terrorist_score).as_str()),
        );
        lines.push(
            String::from_str("Round: ").concat(u32_to_string(self.round_number).as_str()).concat(
                "/",
            ).concat(u32_to_string(self.max_rounds).as_str()),
        );
        lines.push(
            String::from_str("Max Rounds: ").concat(u32_to_string(self.max_rounds).as_str()),
        );
        lines.push(
            String::from_str("Round Time: ").concat(
                u32_to_string(self.round_time_minutes).as_str(),
            ).concat("min"),
        );
        lines.push(
            String::from_str("Bomb Timer: ").concat(
                u32_to_string(self.bomb_timer_seconds).as_str(),
            ).concat("s"),
        );
        let timer = match self.bomb_time_remaining {
            Some(t) => String::from_str("Bomb: ").concat(u32_to_string(t).as_str()).concat("s"),
            None => {
                if matches!(self.phase, SearchAndDestroyPhase::RoundActive) {
                    String::from_str("Time: ").concat(format_clock(self.round_time_remaining).as_str())
                } else {
                    String::from_str("")
                }
            },
        };
        lines.push(timer);
        lines
    }

    /// Entering this screen plays a greeting beep.
    pub fn on_enter(&mut self, senders: &mut TaskSenders)
        requires
            old(senders).wf(),
        ensures
            *final(self) == *old(self),
            sound_sent(*old(senders), *final(senders), seq![SoundCommand::Beep]),
            final(senders).wf(),
    {
        senders.sound.notify(SoundCommand::Beep);
        proof {
            lemma_notify_one(old(senders).sound@, old(senders).sound.capacity_spec(), SoundCommand::Beep);
        }
    }

    /// Which view this is.
    pub fn view_type(&self) -> (t: ViewType)
        ensures
            t == ViewType::SearchAndDestroy,
    {
        ViewType::SearchAndDestroy
    }
}

} // verus!
