//! The cash-out referee screen: cash tokens in the field are collected by
//! card taps, cash can be awarded to a selected team, and the first team to
//! reach the target triggers a cash-out phase.

use vstd::prelude::*;
use vstd::string::StringExecFns;

use crate::events::InputEvent;
use crate::mailbox::{lemma_notify_none, lemma_notify_one, lemma_notify_two, sound_sent, TaskSenders};
use crate::outputs::SoundCommand;
use crate::text::{clock_text, decimal_digits, format_clock, u32_to_string};
use crate::views::{NavigationAction, ViewType};

verus! {

/// The phases of a match.
#[derive(Debug, Clone, Copy, PartialEq, Eq, Structural)]
pub enum TheFinalsGameState {
    Waiting,
    Active,
    CashoutPhase,
    Ended,
}

/// The three competing teams.
#[derive(Debug, Clone, Copy, PartialEq, Eq, Structural)]
pub enum Team {
    Team1,
    Team2,
    Team3,
}

/// Where one cash token currently is.
#[derive(Debug, Clone, Copy, PartialEq)]
pub enum TokenLocation {
    Field,
    Captured(Team),
    Lost,
}

/// One physical cash token.
#[derive(Debug, Clone, Copy, PartialEq)]
pub struct CashToken {
    pub id: u8,
    pub value: u32,
    pub location: TokenLocation,
}

/// The mathematical state of the screen.
#[verifier::ext_equal]
pub ghost struct TheFinalsModel {
    pub game_state: TheFinalsGameState,
    pub team1_cash: u32,
    pub team2_cash: u32,
    pub team3_cash: u32,
    pub cash_tokens: Seq<CashToken>,
    pub selected_team_index: int,
    pub match_time_remaining: u32,
    pub cashout_time_remaining: Option<u32>,
    pub tokens_in_field: u8,
    pub target_cash: u32,
}

/// Five thousand-credit tokens in the field, a fifteen-minute clock, a
/// ten-thousand target.
pub open spec fn tf_initial() -> TheFinalsModel {
    TheFinalsModel {
        game_state: TheFinalsGameState::Waiting,
        team1_cash: 0,
        team2_cash: 0,
        team3_cash: 0,
        cash_tokens: Seq::new(5, |i: int| CashToken {
            id: i as u8,
            value: 1000,
            location: TokenLocation::Field,
        }),
        selected_team_index: 0,
        match_time_remaining: 900,
        cashout_time_remaining: None,
        tokens_in_field: 5,
        target_cash: 10000,
    }
}

/// One team's cash under the model.
pub open spec fn tf_cash(m: TheFinalsModel, team: int) -> u32 {
    if team == 0 {
        m.team1_cash
    } else if team == 1 {
        m.team2_cash
    } else {
        m.team3_cash
    }
}

/// Five thousand-credit tokens, a valid team cursor, and cash bounded by
/// the target while the match runs (once a team reaches it, the cash-out
/// phase begins).
pub open spec fn tf_wf(m: TheFinalsModel) -> bool {
    m.target_cash == 10000 && m.cash_tokens.len() == 5 && 0 <= m.selected_team_index < 3 && (forall|
        i: int,
    | 0 <= i < m.cash_tokens.len() ==> (#[trigger] m.cash_tokens[i]).value == 1000) && (m.game_state
        == TheFinalsGameState::Active ==> m.team1_cash < m.target_cash && m.team2_cash
        < m.target_cash && m.team3_cash < m.target_cash) && (m.game_state
        == TheFinalsGameState::Waiting ==> m.team1_cash == 0 && m.team2_cash == 0 && m.team3_cash
        == 0) && m.team1_cash <= 11000 && m.team2_cash <= 11000 && m.team3_cash <= 11000
}

/// Token `i` is the first one still lying in the field.
pub open spec fn is_first_field(tokens: Seq<CashToken>, i: int) -> bool {
    0 <= i < tokens.len() && tokens[i].location == TokenLocation::Field && (forall|j: int|
        0 <= j < i ==> (#[trigger] tokens[j]).location != TokenLocation::Field)
}

/// Some token still lies in the field.
pub open spec fn tf_has_field(tokens: Seq<CashToken>) -> bool {
    exists|i: int| is_first_field(tokens, i)
}

/// At most one token is the first one in the field.
pub proof fn lemma_first_field_unique(tokens: Seq<CashToken>, i: int, j: int)
    requires
        is_first_field(tokens, i),
        is_first_field(tokens, j),
    ensures
        i == j,
{
}

/// Starting the match: the clock rewinds and every token returns to the
/// field.
pub open spec fn tf_start(m: TheFinalsModel) -> TheFinalsModel {
    TheFinalsModel {
        game_state: TheFinalsGameState::Active,
        match_time_remaining: 900,
        cash_tokens: m.cash_tokens.map_values(
            |t: CashToken| CashToken { location: TokenLocation::Field, ..t },
        ),
        tokens_in_field: m.cash_tokens.len() as u8,
        ..m
    }
}

/// A team has reached the target: one minute to cash out.
pub open spec fn tf_start_cashout(m: TheFinalsModel) -> TheFinalsModel {
    TheFinalsModel {
        game_state: TheFinalsGameState::CashoutPhase,
        cashout_time_remaining: Some(60u32),
        ..m
    }
}

/// The cash-out succeeded: the match ends.
pub open spec fn tf_complete_cashout(m: TheFinalsModel) -> TheFinalsModel {
    TheFinalsModel { game_state: TheFinalsGameState::Ended, cashout_time_remaining: None, ..m }
}

/// Collecting token `i` for the first team; reaching the target starts the
/// cash-out phase.
pub open spec fn tf_pickup_at(m: TheFinalsModel, i: int) -> TheFinalsModel {
    let taken = TheFinalsModel {
        cash_tokens: m.cash_tokens.update(
            i,
            CashToken { location: TokenLocation::Captured(Team::Team1), ..m.cash_tokens[i] },
        ),
        tokens_in_field: if m.tokens_in_field > 0 {
            (m.tokens_in_field - 1) as u8
        } else {
            0u8
        },
        team1_cash: (m.team1_cash + m.cash_tokens[i].value) as u32,
        ..m
    };
    if taken.team1_cash >= taken.target_cash {
        tf_start_cashout(taken)
    } else {
        taken
    }
}

/// A card tap collects the first token still in the field, during a match.
pub open spec fn tf_pickup(m: TheFinalsModel) -> TheFinalsModel {
    if m.game_state != TheFinalsGameState::Active {
        m
    } else if tf_has_field(m.cash_tokens) {
        tf_pickup_at(m, choose|i: int| is_first_field(m.cash_tokens, i))
    } else {
        m
    }
}

/// Moving the team cursor, wrapping in either direction.
pub open spec fn tf_move(m: TheFinalsModel, direction: i8) -> TheFinalsModel {
    if direction == -1 {
        TheFinalsModel {
            selected_team_index: if m.selected_team_index > 0 {
                m.selected_team_index - 1
            } else {
                2
            },
            ..m
        }
    } else if direction == 1 {
        TheFinalsModel {
            selected_team_index: if m.selected_team_index < 2 {
                m.selected_team_index + 1
            } else {
                0
            },
            ..m
        }
    } else {
        m
    }
}

/// Awarding cash to the selected team during a match; reaching the target
/// starts the cash-out phase.
pub open spec fn tf_award(m: TheFinalsModel, amount: u32) -> TheFinalsModel {
    if m.game_state != TheFinalsGameState::Active {
        m
    } else {
        let credited = if m.selected_team_index == 0 {
            TheFinalsModel { team1_cash: (m.team1_cash + amount) as u32, ..m }
        } else if m.selected_team_index == 1 {
            TheFinalsModel { team2_cash: (m.team2_cash + amount) as u32, ..m }
        } else {
            TheFinalsModel { team3_cash: (m.team3_cash + amount) as u32, ..m }
        };
        if credited.team1_cash >= credited.target_cash || credited.team2_cash
            >= credited.target_cash || credited.team3_cash >= credited.target_cash {
            tf_start_cashout(credited)
        } else {
            credited
        }
    }
}

/// Resetting: all cash gone, tokens back in the field, clock rewound.
pub open spec fn tf_reset(m: TheFinalsModel) -> TheFinalsModel {
    TheFinalsModel {
        game_state: TheFinalsGameState::Waiting,
        team1_cash: 0,
        team2_cash: 0,
        team3_cash: 0,
        match_time_remaining: 900,
        cashout_time_remaining: None,
        selected_team_index: 0,
        cash_tokens: m.cash_tokens.map_values(
            |t: CashToken| CashToken { location: TokenLocation::Field, ..t },
        ),
        tokens_in_field: m.cash_tokens.len() as u8,
        ..m
    }
}

/// The team with strictly the most cash, if there is one.
pub open spec fn tf_winner(m: TheFinalsModel) -> Option<Team> {
    if m.team1_cash > m.team2_cash && m.team1_cash > m.team3_cash {
        Some(Team::Team1)
    } else if m.team2_cash > m.team1_cash && m.team2_cash > m.team3_cash {
        Some(Team::Team2)
    } else if m.team3_cash > m.team1_cash && m.team3_cash > m.team2_cash {
        Some(Team::Team3)
    } else {
        None
    }
}

/// How one key moves the screen.
pub open spec fn tf_key_step(m: TheFinalsModel, key: char) -> TheFinalsModel {
    if key == '1' {
        match m.game_state {
            TheFinalsGameState::Waiting => tf_start(m),
            TheFinalsGameState::Ended => tf_reset(m),
            _ => m,
        }
    } else if key == '4' {
        tf_move(m, -1i8)
    } else if key == '6' {
        tf_move(m, 1i8)
    } else if key == '5' {
        tf_award(m, 1000)
    } else if key == '7' {
        if m.game_state == TheFinalsGameState::CashoutPhase {
            tf_complete_cashout(m)
        } else {
            m
        }
    } else {
        m
    }
}

/// How one input event moves the screen: a card tap collects a token.
pub open spec fn tf_step(m: TheFinalsModel, event: InputEvent) -> TheFinalsModel {
    match event {
        InputEvent::KeypadEvent(key) => tf_key_step(m, key),
        InputEvent::CardDetected(_) => tf_pickup(m),
        _ => m,
    }
}

/// The navigation this screen requests: the back key, always.
pub open spec fn tf_action(m: TheFinalsModel, event: InputEvent) -> Option<NavigationAction> {
    if event == InputEvent::KeypadEvent('0') {
        Some(NavigationAction::Back)
    } else {
        None
    }
}

/// Whether an award of this amount to the selected team reaches the
/// target.
pub open spec fn tf_award_reaches_target(m: TheFinalsModel, amount: u32) -> bool {
    tf_cash(m, m.selected_team_index) + amount >= m.target_cash
}

/// The feedback sounds a card tap produces.
pub open spec fn tf_pickup_sounds(m: TheFinalsModel) -> Seq<SoundCommand> {
    if m.game_state == TheFinalsGameState::Active && tf_has_field(m.cash_tokens) {
        if m.team1_cash + 1000 >= m.target_cash {
            seq![SoundCommand::SuccessBeep, SoundCommand::VictorySound]
        } else {
            seq![SoundCommand::SuccessBeep]
        }
    } else {
        Seq::empty()
    }
}

/// The feedback sounds one event produces.
pub open spec fn tf_sounds(m: TheFinalsModel, event: InputEvent) -> Seq<SoundCommand> {
    match event {
        InputEvent::KeypadEvent(key) => {
            if key == '1' && m.game_state == TheFinalsGameState::Waiting {
                seq![SoundCommand::Beep]
            } else if key == '4' || key == '6' {
                seq![SoundCommand::Beep]
            } else if key == '5' && m.game_state == TheFinalsGameState::Active {
                if tf_award_reaches_target(m, 1000) {
                    seq![SoundCommand::SuccessBeep, SoundCommand::VictorySound]
                } else {
                    seq![SoundCommand::SuccessBeep]
                }
            } else if key == '7' && m.game_state == TheFinalsGameState::CashoutPhase {
                seq![SoundCommand::VictorySound]
            } else {
                Seq::empty()
            }
        },
        InputEvent::CardDetected(_) => tf_pickup_sounds(m),
        _ => Seq::empty(),
    }
}

/// The cash-out referee screen.
pub struct TheFinalsView {
    pub game_state: TheFinalsGameState,
    pub team1_cash: u32,
    pub team2_cash: u32,
    pub team3_cash: u32,
    pub cash_tokens: Vec<CashToken>,
    pub selected_team_index: usize,
    /// Match seconds remaining.
    pub match_time_remaining: u32,
    /// Cash-out seconds; present exactly during the cash-out phase.
    pub cashout_time_remaining: Option<u32>,
    pub tokens_in_field: u8,
    pub target_cash: u32,
}

impl View for TheFinalsView {
    type V = TheFinalsModel;

    open spec fn view(&self) -> TheFinalsModel {
        TheFinalsModel {
            game_state: self.game_state,
            team1_cash: self.team1_cash,
            team2_cash: self.team2_cash,
            team3_cash: self.team3_cash,
            cash_tokens: self.cash_tokens@,
            selected_team_index: self.selected_team_index as int,
            match_time_remaining: self.match_time_remaining,
            cashout_time_remaining: self.cashout_time_remaining,
            tokens_in_field: self.tokens_in_field,
            target_cash: self.target_cash,
        }
    }
}

impl TheFinalsView {
    /// A fresh referee screen.
    pub fn new() -> (v: TheFinalsView)
        ensures
            v@ == tf_initial(),
            tf_wf(v@),
    {
        let mut tokens: Vec<CashToken> = Vec::new();
        let mut i: u8 = 0;
        while i < 5
            invariant
                i <= 5,
                tokens@.len() == i,
                forall|j: int| 0 <= j < i ==> tokens@[j] == (CashToken {
                    id: j as u8,
                    value: 1000,
                    location: TokenLocation::Field,
                }),
            decreases 5 - i,
        {
            tokens.push(CashToken { id: i, value: 1000, location: TokenLocation::Field });
            i = i + 1;
        }
        let v = TheFinalsView {
            game_state: TheFinalsGameState::Waiting,
            team1_cash: 0,
            team2_cash: 0,
            team3_cash: 0,
            cash_tokens: tokens,
            selected_team_index: 0,
            match_time_remaining: 900,
            cashout_time_remaining: None,
            tokens_in_field: 5,
            target_cash: 10000,
        };
        proof {
            assert(v@.cash_tokens =~= tf_initial().cash_tokens);
            assert(v@ =~= tf_initial());
        }
        v
    }

    fn start_match(&mut self, senders: &mut TaskSenders)
        requires
            old(senders).wf(),
            old(self).cash_tokens@.len() <= 255,
            old(self).game_state == TheFinalsGameState::Waiting,
        ensures
            final(self)@ == tf_start(old(self)@),
            tf_wf(old(self)@) ==> tf_wf(final(self)@),
            sound_sent(*old(senders), *final(senders), seq![SoundCommand::Beep]),
            final(senders).wf(),
    {
        self.game_state = TheFinalsGameState::Active;
        self.match_time_remaining = 900;
        self.drop_tokens_to_field();
        proof {
            assert forall|i: int| 0 <= i < self@.cash_tokens.len() implies (
            #[trigger] self@.cash_tokens[i]).value == old(self)@.cash_tokens[i].value by {}
        }
        senders.sound.notify(SoundCommand::Beep);
        proof {
            lemma_notify_one(old(senders).sound@, old(senders).sound.capacity_spec(), SoundCommand::Beep);
        }
    }

    /// Return every token to the field and refresh the field count.
    fn drop_tokens_to_field(&mut self)
        requires
            old(self).cash_tokens@.len() <= 255,
        ensures
            final(self)@ == (TheFinalsModel {
                cash_tokens: old(self)@.cash_tokens.map_values(
                    |t: CashToken| CashToken { location: TokenLocation::Field, ..t },
                ),
                tokens_in_field: old(self)@.cash_tokens.len() as u8,
                ..old(self)@
            }),
    {
        let mut i: usize = 0;
        while i < self.cash_tokens.len()
            invariant
                i <= self.cash_tokens@.len(),
                self.cash_tokens@.len() == old(self).cash_tokens@.len(),
                self.game_state == old(self).game_state,
                self.team1_cash == old(self).team1_cash,
                self.team2_cash == old(self).team2_cash,
                self.team3_cash == old(self).team3_cash,
                self.selected_team_index == old(self).selected_team_index,
                self.match_time_remaining == old(self).match_time_remaining,
                self.cashout_time_remaining == old(self).cashout_time_remaining,
                self.target_cash == old(self).target_cash,
                forall|j: int| 0 <= j < i ==> self.cash_tokens@[j] == (CashToken {
                    location: TokenLocation::Field,
                    ..old(self).cash_tokens@[j]
                }),
                forall|j: int| i <= j < self.cash_tokens@.len() ==> self.cash_tokens@[j]
                    == old(self).cash_tokens@[j],
            decreases self.cash_tokens@.len() - i,
        {
            let token = self.cash_tokens[i];
            self.cash_tokens.set(i, CashToken { location: TokenLocation::Field, ..token });
            i = i + 1;
        }
        self.tokens_in_field = self.cash_tokens.len() as u8;
        proof {
            assert(self.cash_tokens@ =~= old(self)@.cash_tokens.map_values(
                |t: CashToken| CashToken { location: TokenLocation::Field, ..t },
            ));
            assert(self@ =~= (TheFinalsModel {
                cash_tokens: old(self)@.cash_tokens.map_values(
                    |t: CashToken| CashToken { location: TokenLocation::Field, ..t },
                ),
                tokens_in_field: old(self)@.cash_tokens.len() as u8,
                ..old(self)@
            }));
        }
    }

    /// A card tap: collect the first token still in the field for the
    /// first team.
    pub fn pickup_token_nfc(&mut self, senders: &mut TaskSenders)
        requires
            tf_wf(old(self)@),
            old(senders).wf(),
        ensures
            final(self)@ == tf_pickup(old(self)@),
            tf_wf(final(self)@),
            sound_sent(*old(senders), *final(senders), tf_pickup_sounds(old(self)@)),
            final(senders).wf(),
    {
        proof {
            lemma_notify_none(old(senders).sound@, old(senders).sound.capacity_spec());
        }
        if !matches!(self.game_state, TheFinalsGameState::Active) {
            return ;
        }
        let ghost pre = self@;
        let mut i: usize = 0;
        while i < self.cash_tokens.len()
            invariant
                pre == old(self)@,
                self@ == pre,
                *senders == *old(senders),
                old(senders).wf(),
                tf_wf(pre),
                self.game_state == TheFinalsGameState::Active,
                i <= self.cash_tokens@.len(),
                forall|j: int| 0 <= j < i ==> (#[trigger] self.cash_tokens@[j]).location
                    != TokenLocation::Field,
            decreases self.cash_tokens@.len() - i,
        {
            let token = self.cash_tokens[i];
            if matches!(token.location, TokenLocation::Field) {
                proof {
                    assert(is_first_field(pre.cash_tokens, i as int));
                    assert(tf_has_field(pre.cash_tokens));
                    lemma_first_field_unique(
                        pre.cash_tokens,
                        i as int,
                        choose|k: int| is_first_field(pre.cash_tokens, k),
                    );
                    assert(pre.cash_tokens[i as int].value == 1000);
                }
                self.cash_tokens.set(
                    i,
                    CashToken { location: TokenLocation::Captured(Team::Team1), ..token },
                );
                if self.tokens_in_field > 0 {
                    self.tokens_in_field = self.tokens_in_field - 1;
                }
                self.team1_cash = self.team1_cash + token.value;
                senders.sound.notify(SoundCommand::SuccessBeep);
                if self.team1_cash >= self.target_cash {
                    self.game_state = TheFinalsGameState::CashoutPhase;
                    self.cashout_time_remaining = Some(60);
                    senders.sound.notify(SoundCommand::VictorySound);
                    proof {
                        lemma_notify_two(
                            old(senders).sound@,
                            old(senders).sound.capacity_spec(),
                            SoundCommand::SuccessBeep,
                            SoundCommand::VictorySound,
                        );
                        assert(self@ =~= tf_pickup_at(pre, i as int));
                        assert(self@ == tf_pickup(pre));
                    }
                } else {
                    proof {
                        lemma_notify_one(
                            old(senders).sound@,
                            old(senders).sound.capacity_spec(),
                            SoundCommand::SuccessBeep,
                        );
                        assert(self@ =~= tf_pickup_at(pre, i as int));
                        assert(self@ == tf_pickup(pre));
                    }
                }
                return ;
            }
            i = i + 1;
        }
        proof {
            assert(!tf_has_field(pre.cash_tokens));
        }
    }

    fn start_cashout_phase(&mut self, senders: &mut TaskSenders)
        requires
            old(senders).wf(),
        ensures
            final(self)@ == tf_start_cashout(old(self)@),
            sound_sent(*old(senders), *final(senders), seq![SoundCommand::VictorySound]),
            final(senders).wf(),
    {
        self.game_state = TheFinalsGameState::CashoutPhase;
        self.cashout_time_remaining = Some(60);
        senders.sound.notify(SoundCommand::VictorySound);
        proof {
            lemma_notify_one(
                old(senders).sound@,
                old(senders).sound.capacity_spec(),
                SoundCommand::VictorySound,
            );
        }
    }

    fn complete_cashout(&mut self, senders: &mut TaskSenders)
        requires
            old(senders).wf(),
        ensures
            final(self)@ == tf_complete_cashout(old(self)@),
            sound_sent(*old(senders), *final(senders), seq![SoundCommand::VictorySound]),
            final(senders).wf(),
    {
        self.game_state = TheFinalsGameState::Ended;
        self.cashout_time_remaining = None;
        senders.sound.notify(SoundCommand::VictorySound);
        proof {
            lemma_notify_one(
                old(senders).sound@,
                old(senders).sound.capacity_spec(),
                SoundCommand::VictorySound,
            );
        }
    }

    /// Move the team cursor one step in either direction, wrapping.
    pub fn move_team_selection(&mut self, direction: i8)
        requires
            tf_wf(old(self)@),
        ensures
            final(self)@ == tf_move(old(self)@, direction),
    {
        if direction == -1 {
            if self.selected_team_index > 0 {
                self.selected_team_index = self.selected_team_index - 1;
            } else {
                self.selected_team_index = 2;
            }
        } else if direction == 1 {
            if self.selected_team_index < 2 {
                self.selected_team_index = self.selected_team_index + 1;
            } else {
                self.selected_team_index = 0;
            }
        }
    }

    /// Award cash to the selected team during a match; reaching the target
    /// starts the cash-out phase.
    pub fn award_cash_to_selected_team(&mut self, amount: u32, senders: &mut TaskSenders)
        requires
            tf_wf(old(self)@),
            old(senders).wf(),
            amount <= 1000,
        ensures
            final(self)@ == tf_award(old(self)@, amount),
            old(self).game_state == TheFinalsGameState::Active ==> sound_sent(
                *old(senders),
                *final(senders),
                if tf_award_reaches_target(old(self)@, amount) {
                    seq![SoundCommand::SuccessBeep, SoundCommand::VictorySound]
                } else {
                    seq![SoundCommand::SuccessBeep]
                },
            ),
            old(self).game_state != TheFinalsGameState::Active ==> *final(senders) == *old(senders),
            final(senders).wf(),
    {
        if !matches!(self.game_state, TheFinalsGameState::Active) {
            return ;
        }
        if self.selected_team_index == 0 {
            self.team1_cash = self.team1_cash + amount;
        } else if self.selected_team_index == 1 {
            self.team2_cash = self.team2_cash + amount;
        } else {
            self.team3_cash = self.team3_cash + amount;
        }
        senders.sound.notify(SoundCommand::SuccessBeep);
        if self.team1_cash >= self.target_cash || self.team2_cash >= self.target_cash
            || self.team3_cash >= self.target_cash {
            self.game_state = TheFinalsGameState::CashoutPhase;
            self.cashout_time_remaining = Some(60);
            senders.sound.notify(SoundCommand::VictorySound);
            proof {
                lemma_notify_two(
                    old(senders).sound@,
                    old(senders).sound.capacity_spec(),
                    SoundCommand::SuccessBeep,
                    SoundCommand::VictorySound,
                );
            }
        } else {
            proof {
                lemma_notify_one(
                    old(senders).sound@,
                    old(senders).sound.capacity_spec(),
                    SoundCommand::SuccessBeep,
                );
            }
        }
    }

    /// Back to the waiting state: cash cleared, tokens in the field.
    pub fn reset_match(&mut self)
        requires
            old(self).cash_tokens@.len() <= 255,
        ensures
            final(self)@ == tf_reset(old(self)@),
            tf_wf(old(self)@) ==> tf_wf(final(self)@),
    {
        self.game_state = TheFinalsGameState::Waiting;
        self.team1_cash = 0;
        self.team2_cash = 0;
        self.team3_cash = 0;
        self.match_time_remaining = 900;
        self.cashout_time_remaining = None;
        self.selected_team_index = 0;
        self.drop_tokens_to_field();
        proof {
            assert forall|i: int| 0 <= i < self@.cash_tokens.len() implies (
            #[trigger] self@.cash_tokens[i]).value == old(self)@.cash_tokens[i].value by {}
        }
    }

    /// The team with strictly the most cash, if any.
    pub fn get_winning_team(&self) -> (winner: Option<Team>)
        ensures
            winner == tf_winner(self@),
    {
        if self.team1_cash > self.team2_cash && self.team1_cash > self.team3_cash {
            Some(Team::Team1)
        } else if self.team2_cash > self.team1_cash && self.team2_cash > self.team3_cash {
            Some(Team::Team2)
        } else if self.team3_cash > self.team1_cash && self.team3_cash > self.team2_cash {
            Some(Team::Team3)
        } else {
            None
        }
    }

    /// Feed one input event through the screen; the back key asks the
    /// router to navigate.
    pub fn handle_input(&mut self, event: InputEvent, senders: &mut TaskSenders) -> (action: Option<
        NavigationAction,
    >)
        requires
            tf_wf(old(self)@),
            old(senders).wf(),
        ensures
            final(self)@ == tf_step(old(self)@, event),
            tf_wf(final(self)@),
            action == tf_action(old(self)@, event),
            sound_sent(*old(senders), *final(senders), tf_sounds(old(self)@, event)),
            final(senders).wf(),
    {
        proof {
            lemma_notify_none(old(senders).sound@, old(senders).sound.capacity_spec());
        }
        match event {
            InputEvent::KeypadEvent(key) => {
                if key == '1' {
                    match self.game_state {
                        TheFinalsGameState::Waiting => {
                            self.start_match(senders);
                        },
                        TheFinalsGameState::Ended => {
                            self.reset_match();
                        },
                        _ => {},
                    }
                    None
                } else if key == '4' {
                    self.move_team_selection(-1);
                    senders.sound.notify(SoundCommand::Beep);
                    proof {
                        lemma_notify_one(
                            old(senders).sound@,
                            old(senders).sound.capacity_spec(),
                            SoundCommand::Beep,
                        );
                    }
                    None
                } else if key == '6' {
                    self.move_team_selection(1);
                    senders.sound.notify(SoundCommand::Beep);
                    proof {
                        lemma_notify_one(
                            old(senders).sound@,
                            old(senders).sound.capacity_spec(),
                            SoundCommand::Beep,
                        );
                    }
                    None
                } else if key == '5' {
                    self.award_cash_to_selected_team(1000, senders);
                    None
                } else if key == '7' {
                    if matches!(self.game_state, TheFinalsGameState::CashoutPhase) {
                        self.complete_cashout(senders);
                    }
                    None
                } else if key == '0' {
                    Some(NavigationAction::Back)
                } else {
                    None
                }
            },
            InputEvent::CardDetected(_) => {
                self.pickup_token_nfc(senders);
                None
            },
            _ => None,
        }
    }

    /// The status line for the current phase.
    pub open spec fn status_text(m: TheFinalsModel) -> Seq<char> {
        match m.game_state {
            TheFinalsGameState::Waiting => "Waiting to start..."@,
            TheFinalsGameState::Active => "Match in progress - Collect cash tokens!"@,
            TheFinalsGameState::CashoutPhase => "CASHOUT PHASE! Secure your winnings!"@,
            TheFinalsGameState::Ended => match tf_winner(m) {
                Some(Team::Team1) => "TEAM 1 WINS!"@,
                Some(Team::Team2) => "TEAM 2 WINS!"@,
                Some(Team::Team3) => "TEAM 3 WINS!"@,
                None => "TIE GAME!"@,
            },
        }
    }

    /// The key legend for the current phase.
    pub open spec fn instructions_text(m: TheFinalsModel) -> Seq<char> {
        match m.game_state {
            TheFinalsGameState::Waiting => "1: Start Match | 0: Back to Menu"@,
            TheFinalsGameState::Active => "NFC: Pickup Cash | 4/6: Select Team | 5: Award Cash | 0: Back"@,
            TheFinalsGameState::CashoutPhase => "7: Complete Cashout | 0: Back to Menu"@,
            TheFinalsGameState::Ended => "1: New Match | 0: Back to Menu"@,
        }
    }

    /// The timer line: the cash-out countdown when one runs, the match
    /// clock otherwise.
    pub open spec fn timer_text(m: TheFinalsModel) -> Seq<char> {
        match m.cashout_time_remaining {
            Some(t) => "Cashout: "@ + decimal_digits(t as int) + "s"@,
            None => "Match Time: "@ + clock_text(m.match_time_remaining as int),
        }
    }

    /// The drawable description: title, the three cash lines with the team
    /// cursor, tokens left in the field, the clock, status and key legend.
    pub fn render(&self) -> (lines: Vec<String>)
        requires
            tf_wf(self@),
        ensures
            lines@.len() == 8,
            lines@[0]@ == "THE FINALS - Cashout"@,
            forall|j: int| 0 <= j < 3 ==> lines@[1 + j]@ == (if j == self@.selected_team_index {
                "> Team "@
            } else {
                "  Team "@
            }) + decimal_digits(j + 1) + ": $"@ + decimal_digits(tf_cash(self@, j) as int),
            lines@[4]@ == "Cash Tokens in Field: "@ + decimal_digits(self@.tokens_in_field as int),
            lines@[5]@ == TheFinalsView::timer_text(self@),
            lines@[6]@ == TheFinalsView::status_text(self@),
            lines@[7]@ == TheFinalsView::instructions_text(self@),
    {
        let mut lines: Vec<String> = Vec::new();
        lines.push(String::from_str("THE FINALS - Cashout"));
        let mut j: usize = 0;
        while j < 3
            invariant
                tf_wf(self@),
                j <= 3,
                lines@.len() == 1 + j,
                lines@[0]@ == "THE FINALS - Cashout"@,
                forall|k: int| 0 <= k < j ==> lines@[1 + k]@ == (if k == self@.selected_team_index {
                    "> Team "@
                } else {
                    "  Team "@
                }) + decimal_digits(k + 1) + ": $"@ + decimal_digits(tf_cash(self@, k) as int),
            decreases 3 - j,
        {
            let marker = if j == self.selected_team_index {
                String::from_str("> Team ")
            } else {
                String::from_str("  Team ")
            };
            let cash = if j == 0 {
                self.team1_cash
            } else if j == 1 {
                self.team2_cash
            } else {
                self.team3_cash
            };
            lines.push(
                marker.concat(u32_to_string((j + 1) as u32).as_str()).concat(": $").concat(
                    u32_to_string(cash).as_str(),
                ),
            );
            j = j + 1;
        }
        lines.push(
            String::from_str("Cash Tokens in Field: ").concat(
                u32_to_string(self.tokens_in_field as u32).as_str(),
            ),
        );
        let timer = match self.cashout_time_remaining {
            Some(t) => String::from_str("Cashout: ").concat(u32_to_string(t).as_str()).concat("s"),
            None => String::from_str("Match Time: ").concat(
                format_clock(self.match_time_remaining).as_str(),
            ),
        };
        lines.push(timer);
        let status = match self.game_state {
            TheFinalsGameState::Waiting => String::from_str("Waiting to start..."),
            TheFinalsGameState::Active => String::from_str("Match in progress - Collect cash tokens!"),
            TheFinalsGameState::CashoutPhase => String::from_str("CASHOUT PHASE! Secure your winnings!"),
            TheFinalsGameState::Ended => {
                match self.get_winning_team() {
                    Some(Team::Team1) => String::from_str("TEAM 1 WINS!"),
                    Some(Team::Team2) => String::from_str("TEAM 2 WINS!"),
                    Some(Team::Team3) => String::from_str("TEAM 3 WINS!"),
                    None => String::from_str("TIE GAME!"),
                }
            },
        };
        lines.push(status);
        let instructions = match self.game_state {
            TheFinalsGameState::Waiting => String::from_str("1: Start Match | 0: Back to Menu"),
            TheFinalsGameState::Active => String::from_str(
                "NFC: Pickup Cash | 4/6: Select Team | 5: Award Cash | 0: Back",
            ),
            TheFinalsGameState::CashoutPhase => String::from_str("7: Complete Cashout | 0: Back to Menu"),
            TheFinalsGameState::Ended => String::from_str("1: New Match | 0: Back to Menu"),
        };
        lines.push(instructions);
        lines
    }

    /// Entering this screen plays a greeting beep.
    pub fn on_enter(&mut self, senders: &mut TaskSenders)
        requires
            old(senders).wf(),
        ensures
            *final(self) == *old(self),
            sound_sent(*old(senders), *final(senders), seq![SoundCommand::Beep]),
            final(senders).wf(),
    {
        senders.sound.notify(SoundCommand::Beep);
        proof {
            lemma_notify_one(old(senders).sound@, old(senders).sound.capacity_spec(), SoundCommand::Beep);
        }
    }

    /// Which view this is.
    pub fn view_type(&self) -> (t: ViewType)
        ensures
            t == ViewType::TheFinals,
    {
        ViewType::TheFinals
    }
}

} // verus!
