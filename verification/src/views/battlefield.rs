//! The zone-capture referee screen: three control points that either team
//! can take or neutralize, ticket pools that drain toward defeat, and a
//! selection cursor over the points.

use vstd::prelude::*;
use vstd::string::StringExecFns;

use crate::events::InputEvent;
use crate::mailbox::{lemma_notify_none, lemma_notify_one, sound_sent, TaskSenders};
use crate::outputs::SoundCommand;
use crate::text::{clock_text, decimal_digits, format_clock, u32_to_string};
use crate::views::{NavigationAction, ViewType};

verus! {

/// The phases of a match.
#[derive(Debug, Clone, Copy, PartialEq, Eq, Structural)]
pub enum BattlefieldGameState {
    Waiting,
    Active,
    Ended,
}

/// The two sides.
#[derive(Debug, Clone, Copy, PartialEq, Eq, Structural)]
pub enum Team {
    Team1,
    Team2,
}

/// One capturable control point.
#[derive(Debug, Clone, Copy, PartialEq)]
pub struct ControlPoint {
    pub name: &'static str,
    pub owner: Option<Team>,
    /// Capture progress in percent.
    pub capture_progress: u8,
}

/// The mathematical state of the screen.
#[verifier::ext_equal]
pub ghost struct BattlefieldModel {
    pub game_state: BattlefieldGameState,
    pub team1_tickets: u32,
    pub team2_tickets: u32,
    pub control_points: Seq<ControlPoint>,
    pub selected_point_index: int,
    pub match_time_remaining: u32,
    pub max_tickets: u32,
}

/// Three neutral points, full ticket pools, a twenty-minute clock.
pub open spec fn bf_initial() -> BattlefieldModel {
    BattlefieldModel {
        game_state: BattlefieldGameState::Waiting,
        team1_tickets: 500,
        team2_tickets: 500,
        control_points: seq![
            ControlPoint { name: "Alpha", owner: None, capture_progress: 0 },
            ControlPoint { name: "Bravo", owner: None, capture_progress: 0 },
            ControlPoint { name: "Charlie", owner: None, capture_progress: 0 },
        ],
        selected_point_index: 0,
        match_time_remaining: 1200,
        max_tickets: 500,
    }
}

/// Three points, a valid cursor, tickets within the pool.
pub open spec fn bf_wf(m: BattlefieldModel) -> bool {
    m.control_points.len() == 3 && 0 <= m.selected_point_index < 3 && m.max_tickets == 500
        && m.team1_tickets <= m.max_tickets && m.team2_tickets <= m.max_tickets
}

/// The match is decided once a ticket pool or the clock runs out.
pub open spec fn bf_match_over(m: BattlefieldModel) -> bool {
    m.team1_tickets == 0 || m.team2_tickets == 0 || m.match_time_remaining == 0
}

/// Starting the match: the clock is rewound; points and tickets stand.
pub open spec fn bf_start(m: BattlefieldModel) -> BattlefieldModel {
    BattlefieldModel { game_state: BattlefieldGameState::Active, match_time_remaining: 1200, ..m }
}

/// Capturing the selected point for a team: a no-op when that team already
/// owns it, otherwise the point flips to the team at full progress.
pub open spec fn bf_capture(m: BattlefieldModel, team: Team) -> BattlefieldModel {
    let point = m.control_points[m.selected_point_index];
    if point.owner == Some(team) {
        m
    } else {
        BattlefieldModel {
            control_points: m.control_points.update(
                m.selected_point_index,
                ControlPoint { owner: Some(team), capture_progress: 100, ..point },
            ),
            ..m
        }
    }
}

/// Neutralizing the selected point.
pub open spec fn bf_neutralize(m: BattlefieldModel) -> BattlefieldModel {
    let point = m.control_points[m.selected_point_index];
    BattlefieldModel {
        control_points: m.control_points.update(
            m.selected_point_index,
            ControlPoint { owner: None, capture_progress: 0, ..point },
        ),
        ..m
    }
}

/// Moving the cursor left, wrapping to the last point.
pub open spec fn bf_left(m: BattlefieldModel) -> BattlefieldModel {
    BattlefieldModel {
        selected_point_index: if m.selected_point_index > 0 {
            m.selected_point_index - 1
        } else {
            m.control_points.len() - 1
        },
        ..m
    }
}

/// Moving the cursor right, wrapping to the first point.
pub open spec fn bf_right(m: BattlefieldModel) -> BattlefieldModel {
    BattlefieldModel {
        selected_point_index: if m.selected_point_index < m.control_points.len() - 1 {
            m.selected_point_index + 1
        } else {
            0
        },
        ..m
    }
}

/// Deducting tickets from a team, saturating at zero; an emptied pool ends
/// the match.
pub open spec fn bf_deduct(m: BattlefieldModel, team: Team, amount: u32) -> BattlefieldModel {
    let deducted = match team {
        Team::Team1 => BattlefieldModel {
            team1_tickets: if m.team1_tickets >= amount {
                (m.team1_tickets - amount) as u32
            } else {
                0u32
            },
            ..m
        },
        Team::Team2 => BattlefieldModel {
            team2_tickets: if m.team2_tickets >= amount {
                (m.team2_tickets - amount) as u32
            } else {
                0u32
            },
            ..m
        },
    };
    if deducted.team1_tickets == 0 || deducted.team2_tickets == 0 {
        BattlefieldModel { game_state: BattlefieldGameState::Ended, ..deducted }
    } else {
        deducted
    }
}

/// Resetting: back to the waiting state with full pools and neutral
/// points.
pub open spec fn bf_reset(m: BattlefieldModel) -> BattlefieldModel {
    BattlefieldModel {
        game_state: BattlefieldGameState::Waiting,
        team1_tickets: m.max_tickets,
        team2_tickets: m.max_tickets,
        match_time_remaining: 1200,
        selected_point_index: 0,
        control_points: m.control_points.map_values(
            |p: ControlPoint| ControlPoint { owner: None, capture_progress: 0, ..p },
        ),
        ..m
    }
}

/// How one key moves the screen.
pub open spec fn bf_key_step(m: BattlefieldModel, key: char) -> BattlefieldModel {
    if key == '1' {
        match m.game_state {
            BattlefieldGameState::Waiting | BattlefieldGameState::Ended => if bf_match_over(m) {
                bf_reset(m)
            } else {
                bf_start(m)
            },
            _ => m,
        }
    } else if key == '4' {
        bf_left(m)
    } else if key == '6' {
        bf_right(m)
    } else if key == '7' {
        if m.game_state == BattlefieldGameState::Active {
            bf_capture(m, Team::Team1)
        } else {
            m
        }
    } else if key == '9' {
        if m.game_state == BattlefieldGameState::Active {
            bf_capture(m, Team::Team2)
        } else {
            m
        }
    } else if key == '5' {
        if m.game_state == BattlefieldGameState::Active {
            bf_neutralize(m)
        } else {
            m
        }
    } else if key == '2' {
        if m.game_state == BattlefieldGameState::Active {
            bf_deduct(m, Team::Team1, 10)
        } else {
            m
        }
    } else if key == '8' {
        if m.game_state == BattlefieldGameState::Active {
            bf_deduct(m, Team::Team2, 10)
        } else {
            m
        }
    } else {
        m
    }
}

/// How one input event moves the screen: a card captures the selected
/// point for the first team during a match.
pub open spec fn bf_step(m: BattlefieldModel, event: InputEvent) -> BattlefieldModel {
    match event {
        InputEvent::KeypadEvent(key) => bf_key_step(m, key),
        InputEvent::CardDetected(_) => if m.game_state == BattlefieldGameState::Active {
            bf_capture(m, Team::Team1)
        } else {
            m
        },
        _ => m,
    }
}

/// The navigation this screen requests: the back key, always.
pub open spec fn bf_action(m: BattlefieldModel, event: InputEvent) -> Option<NavigationAction> {
    if event == InputEvent::KeypadEvent('0') {
        Some(NavigationAction::Back)
    } else {
        None
    }
}

/// Whether capturing for a team would change the selected point.
pub open spec fn bf_capture_changes(m: BattlefieldModel, team: Team) -> bool {
    m.control_points[m.selected_point_index].owner != Some(team)
}

/// The feedback sounds one event produces.
pub open spec fn bf_sounds(m: BattlefieldModel, event: InputEvent) -> Seq<SoundCommand> {
    match event {
        InputEvent::KeypadEvent(key) => {
            if key == '1' && (m.game_state == BattlefieldGameState::Waiting || m.game_state
                == BattlefieldGameState::Ended) && !bf_match_over(m) {
                seq![SoundCommand::Beep]
            } else if key == '4' || key == '6' {
                seq![SoundCommand::Beep]
            } else if (key == '7' && m.game_state == BattlefieldGameState::Active
                && bf_capture_changes(m, Team::Team1)) || (key == '9' && m.game_state
                == BattlefieldGameState::Active && bf_capture_changes(m, Team::Team2)) {
                seq![SoundCommand::SuccessBeep]
            } else if key == '5' && m.game_state == BattlefieldGameState::Active {
                seq![SoundCommand::Beep]
            } else if (key == '2' || key == '8') && m.game_state == BattlefieldGameState::Active {
                seq![SoundCommand::ErrorBeep]
            } else {
                Seq::empty()
            }
        },
        InputEvent::CardDetected(_) => if m.game_state == BattlefieldGameState::Active
            && bf_capture_changes(m, Team::Team1) {
            seq![SoundCommand::SuccessBeep]
        } else {
            Seq::empty()
        },
        _ => Seq::empty(),
    }
}

/// The zone-capture referee screen.
pub struct BattlefieldView {
    pub game_state: BattlefieldGameState,
    pub team1_tickets: u32,
    pub team2_tickets: u32,
    pub control_points: Vec<ControlPoint>,
    pub selected_point_index: usize,
    /// Match seconds remaining.
    pub match_time_remaining: u32,
    pub max_tickets: u32,
}

impl View for BattlefieldView {
    type V = BattlefieldModel;

    open spec fn view(&self) -> BattlefieldModel {
        BattlefieldModel {
            game_state: self.game_state,
            team1_tickets: self.team1_tickets,
            team2_tickets: self.team2_tickets,
            control_points: self.control_points@,
            selected_point_index: self.selected_point_index as int,
            match_time_remaining: self.match_time_remaining,
            max_tickets: self.max_tickets,
        }
    }
}

impl BattlefieldView {
    /// A fresh referee screen.
    pub fn new() -> (v: BattlefieldView)
        ensures
            v@ == bf_initial(),
            bf_wf(v@),
    {
        let mut points: Vec<ControlPoint> = Vec::new();
        points.push(ControlPoint { name: "Alpha", owner: None, capture_progress: 0 });
        points.push(ControlPoint { name: "Bravo", owner: None, capture_progress: 0 });
        points.push(ControlPoint { name: "Charlie", owner: None, capture_progress: 0 });
        let v = BattlefieldView {
            game_state: BattlefieldGameState::Waiting,
            team1_tickets: 500,
            team2_tickets: 500,
            control_points: points,
            selected_point_index: 0,
            match_time_remaining: 1200,
            max_tickets: 500,
        };
        proof {
            assert(v@.control_points =~= bf_initial().control_points);
            assert(v@ =~= bf_initial());
        }
        v
    }

    fn start_match(&mut self, senders: &mut TaskSenders)
        requires
            old(senders).wf(),
        ensures
            final(self)@ == bf_start(old(self)@),
            sound_sent(*old(senders), *final(senders), seq![SoundCommand::Beep]),
            final(senders).wf(),
    {
        self.game_state = BattlefieldGameState::Active;
        self.match_time_remaining = 1200;
        senders.sound.notify(SoundCommand::Beep);
        proof {
            lemma_notify_one(old(senders).sound@, old(senders).sound.capacity_spec(), SoundCommand::Beep);
        }
    }

    fn capture_point(&mut self, team: Team, senders: &mut TaskSenders)
        requires
            bf_wf(old(self)@),
            old(senders).wf(),
        ensures
            final(self)@ == bf_capture(old(self)@, team),
            bf_capture_changes(old(self)@, team) ==> sound_sent(
                *old(senders),
                *final(senders),
                seq![SoundCommand::SuccessBeep],
            ),
            !bf_capture_changes(old(self)@, team) ==> *final(senders) == *old(senders),
            final(senders).wf(),
    {
        let point = self.control_points[self.selected_point_index];
        let already_owned = match point.owner {
            Some(current_owner) => matches!(
                (current_owner, team),
                (Team::Team1, Team::Team1) | (Team::Team2, Team::Team2)
            ),
            None => false,
        };
        if !already_owned {
            self.control_points.set(
                self.selected_point_index,
                ControlPoint { owner: Some(team), capture_progress: 100, ..point },
            );
            senders.sound.notify(SoundCommand::SuccessBeep);
            proof {
                lemma_notify_one(
                    old(senders).sound@,
                    old(senders).sound.capacity_spec(),
                    SoundCommand::SuccessBeep,
                );
            }
        }
    }

    fn neutralize_point(&mut self, senders: &mut TaskSenders)
        requires
            bf_wf(old(self)@),
            old(senders).wf(),
        ensures
            final(self)@ == bf_neutralize(old(self)@),
            sound_sent(*old(senders), *final(senders), seq![SoundCommand::Beep]),
            final(senders).wf(),
    {
        let point = self.control_points[self.selected_point_index];
        self.control_points.set(
            self.selected_point_index,
            ControlPoint { owner: None, capture_progress: 0, ..point },
        );
        senders.sound.notify(SoundCommand::Beep);
        proof {
            lemma_notify_one(old(senders).sound@, old(senders).sound.capacity_spec(), SoundCommand::Beep);
        }
    }

    /// Move the selection cursor left, wrapping.
    pub fn move_selection_left(&mut self)
        requires
            bf_wf(old(self)@),
        ensures
            final(self)@ == bf_left(old(self)@),
    {
        if self.selected_point_index > 0 {
            self.selected_point_index = self.selected_point_index - 1;
        } else {
            self.selected_point_index = self.control_points.len() - 1;
        }
    }

    /// Move the selection cursor right, wrapping.
    pub fn move_selection_right(&mut self)
        requires
            bf_wf(old(self)@),
        ensures
            final(self)@ == bf_right(old(self)@),
    {
        if self.selected_point_index < self.control_points.len() - 1 {
            self.selected_point_index = self.selected_point_index + 1;
        } else {
            self.selected_point_index = 0;
        }
    }

    /// Deduct tickets from a team, saturating at zero; an emptied pool ends
    /// the match.
    pub fn deduct_tickets(&mut self, team: Team, amount: u32)
        ensures
            final(self)@ == bf_deduct(old(self)@, team, amount),
    {
        match team {
            Team::Team1 => {
                self.team1_tickets = if self.team1_tickets >= amount {
                    self.team1_tickets - amount
                } else {
                    0
                };
            },
            Team::Team2 => {
                self.team2_tickets = if self.team2_tickets >= amount {
                    self.team2_tickets - amount
                } else {
                    0
                };
            },
        }
        if self.team1_tickets == 0 || self.team2_tickets == 0 {
            self.game_state = BattlefieldGameState::Ended;
        }
    }

    /// Back to the waiting state with full pools and neutral points.
    pub fn reset_match(&mut self)
        requires
            bf_wf(old(self)@),
        ensures
            final(self)@ == bf_reset(old(self)@),
            bf_wf(final(self)@),
    {
        let mut i: usize = 0;
        while i < self.control_points.len()
            invariant
                i <= self.control_points.len(),
                self.control_points@.len() == old(self).control_points@.len(),
                self.max_tickets == old(self).max_tickets,
                forall|j: int| 0 <= j < i ==> self.control_points@[j] == (ControlPoint {
                    owner: None,
                    capture_progress: 0,
                    ..old(self).control_points@[j]
                }),
                forall|j: int| i <= j < self.control_points@.len() ==> self.control_points@[j]
                    == old(self).control_points@[j],
            decreases self.control_points@.len() - i,
        {
            let point = self.control_points[i];
            self.control_points.set(i, ControlPoint { owner: None, capture_progress: 0, ..point });
            i = i + 1;
        }
        self.game_state = BattlefieldGameState::Waiting;
        self.team1_tickets = self.max_tickets;
        self.team2_tickets = self.max_tickets;
        self.match_time_remaining = 1200;
        self.selected_point_index = 0;
        proof {
            assert(self.control_points@ =~= old(self).control_points@.map_values(
                |p: ControlPoint| ControlPoint { owner: None, capture_progress: 0, ..p },
            ));
        }
    }

    /// Whether the match is decided.
    pub fn is_match_over(&self) -> (over: bool)
        ensures
            over == bf_match_over(self@),
    {
        self.team1_tickets == 0 || self.team2_tickets == 0 || self.match_time_remaining == 0
    }

    /// Feed one input event through the screen; the back key asks the
    /// router to navigate.
    pub fn handle_input(&mut self, event: InputEvent, senders: &mut TaskSenders) -> (action: Option<
        NavigationAction,
    >)
        requires
            bf_wf(old(self)@),
            old(senders).wf(),
        ensures
            final(self)@ == bf_step(old(self)@, event),
            bf_wf(final(self)@),
            action == bf_action(old(self)@, event),
            sound_sent(*old(senders), *final(senders), bf_sounds(old(self)@, event)),
            final(senders).wf(),
    {
        proof {
            lemma_notify_none(old(senders).sound@, old(senders).sound.capacity_spec());
        }
        match event {
            InputEvent::KeypadEvent(key) => {
                if key == '1' {
                    match self.game_state {
                        BattlefieldGameState::Waiting | BattlefieldGameState::Ended => {
                            if self.is_match_over() {
                                self.reset_match();
                            } else {
                                self.start_match(senders);
                            }
                        },
                        _ => {},
                    }
                    None
                } else if key == '4' {
                    self.move_selection_left();
                    senders.sound.notify(SoundCommand::Beep);
                    proof {
                        lemma_notify_one(
                            old(senders).sound@,
                            old(senders).sound.capacity_spec(),
                            SoundCommand::Beep,
                        );
                    }
                    None
                } else if key == '6' {
                    self.move_selection_right();
                    senders.sound.notify(SoundCommand::Beep);
                    proof {
                        lemma_notify_one(
                            old(senders).sound@,
                            old(senders).sound.capacity_spec(),
                            SoundCommand::Beep,
                        );
                    }
                    None
                } else if key == '7' {
                    if matches!(self.game_state, BattlefieldGameState::Active) {
                        self.capture_point(Team::Team1, senders);
                    }
                    None
                } else if key == '9' {
                    if matches!(self.game_state, BattlefieldGameState::Active) {
                        self.capture_point(Team::Team2, senders);
                    }
                    None
                } else if key == '5' {
                    if matches!(self.game_state, BattlefieldGameState::Active) {
                        self.neutralize_point(senders);
                    }
                    None
                } else if key == '2' {
                    if matches!(self.game_state, BattlefieldGameState::Active) {
                        self.deduct_tickets(Team::Team1, 10);
                        senders.sound.notify(SoundCommand::ErrorBeep);
                        proof {
                            lemma_notify_one(
                                old(senders).sound@,
                                old(senders).sound.capacity_spec(),
                                SoundCommand::ErrorBeep,
                            );
                        }
                    }
                    None
                } else if key == '8' {
                    if matches!(self.game_state, BattlefieldGameState::Active) {
                        self.deduct_tickets(Team::Team2, 10);
                        senders.sound.notify(SoundCommand::ErrorBeep);
                        proof {
                            lemma_notify_one(
                                old(senders).sound@,
                                old(senders).sound.capacity_spec(),
                                SoundCommand::ErrorBeep,
                            );
                        }
                    }
                    None
                } else if key == '0' {
                    Some(NavigationAction::Back)
                } else {
                    None
                }
            },
            InputEvent::CardDetected(_) => {
                if matches!(self.game_state, BattlefieldGameState::Active) {
                    self.capture_point(Team::Team1, senders);
                }
                None
            },
            _ => None,
        }
    }

    /// The status line for the current phase.
    pub open spec fn status_text(m: BattlefieldModel) -> Seq<char> {
        match m.game_state {
            BattlefieldGameState::Waiting => "Waiting to start..."@,
            BattlefieldGameState::Active => "Match in progress"@,
            BattlefieldGameState::Ended => if m.team1_tickets > m.team2_tickets {
                "TEAM 1 WINS!"@
            } else if m.team2_tickets > m.team1_tickets {
                "TEAM 2 WINS!"@
            } else {
                "DRAW!"@
            },
        }
    }

    /// The key legend for the current phase.
    pub open spec fn instructions_text(m: BattlefieldModel) -> Seq<char> {
        match m.game_state {
            BattlefieldGameState::Waiting => "1: Start Match | 0: Back to Menu"@,
            BattlefieldGameState::Active => "7: T1 Cap | 9: T2 Cap | 5: Neutral | 2/8: -Tickets | 0: Back"@,
            BattlefieldGameState::Ended => "1: New Match | 0: Back to Menu"@,
        }
    }

    /// The owner tag shown beside a point.
    pub open spec fn owner_text(p: ControlPoint) -> Seq<char> {
        match p.owner {
            Some(Team::Team1) => " [T1]"@,
            Some(Team::Team2) => " [T2]"@,
            None => " [--]"@,
        }
    }

    /// The drawable description: title, tickets, the three points with
    /// their owner tags, the clock, status and key legend.
    pub fn render(&self) -> (lines: Vec<String>)
        requires
            bf_wf(self@),
        ensures
            lines@.len() == 8,
            lines@[0]@ == "BATTLEFIELD - Domination"@,
            lines@[1]@ == "Team 1: "@ + decimal_digits(self@.team1_tickets as int) + " | Team 2: "@
                + decimal_digits(self@.team2_tickets as int),
            forall|j: int| 0 <= j < 3 ==> lines@[2 + j]@ == (if j == self@.selected_point_index {
                "> "@
            } else {
                "  "@
            }) + self@.control_points[j].name@ + BattlefieldView::owner_text(self@.control_points[j]),
            lines@[5]@ == "Time: "@ + clock_text(self@.match_time_remaining as int),
            lines@[6]@ == BattlefieldView::status_text(self@),
            lines@[7]@ == BattlefieldView::instructions_text(self@),
    {
        let mut lines: Vec<String> = Vec::new();
        lines.push(String::from_str("BATTLEFIELD - Domination"));
        lines.push(
            String::from_str("Team 1: ").concat(u32_to_string(self.team1_tickets).as_str()).concat(
                " | Team 2: ",
            ).concat(u32_to_string(self.team2_tickets).as_str()),
        );
        let mut i: usize = 0;
        while i < 3
            invariant
                bf_wf(self@),
                i <= 3,
                lines@.len() == 2 + i,
                lines@[0]@ == "BATTLEFIELD - Domination"@,
                lines@[1]@ == "Team 1: "@ + decimal_digits(self@.team1_tickets as int)
                    + " | Team 2: "@ + decimal_digits(self@.team2_tickets as int),
                forall|j: int| 0 <= j < i ==> lines@[2 + j]@ == (if j == self@.selected_point_index {
                    "> "@
                } else {
                    "  "@
                }) + self@.control_points[j].name@ + BattlefieldView::owner_text(
                    self@.control_points[j],
                ),
            decreases 3 - i,
        {
            let point = self.control_points[i];
            let marker = if i == self.selected_point_index {
                String::from_str("> ")
            } else {
                String::from_str("  ")
            };
            let owner = match point.owner {
                Some(Team::Team1) => " [T1]",
                Some(Team::Team2) => " [T2]",
                None => " [--]",
            };
            lines.push(marker.concat(point.name).concat(owner));
            i = i + 1;
        }
        lines.push(String::from_str("Time: ").concat(format_clock(self.match_time_remaining).as_str()));
        let status = match self.game_state {
            BattlefieldGameState::Waiting => String::from_str("Waiting to start..."),
            BattlefieldGameState::Active => String::from_str("Match in progress"),
            BattlefieldGameState::Ended => {
                if self.team1_tickets > self.team2_tickets {
                    String::from_str("TEAM 1 WINS!")
                } else if self.team2_tickets > self.team1_tickets {
                    String::from_str("TEAM 2 WINS!")
                } else {
                    String::from_str("DRAW!")
                }
            },
        };
        lines.push(status);
        let instructions = match self.game_state {
            BattlefieldGameState::Waiting => String::from_str("1: Start Match | 0: Back to Menu"),
            BattlefieldGameState::Active => String::from_str(
                "7: T1 Cap | 9: T2 Cap | 5: Neutral | 2/8: -Tickets | 0: Back",
            ),
            BattlefieldGameState::Ended => String::from_str("1: New Match | 0: Back to Menu"),
        };
        lines.push(instructions);
        lines
    }

    /// Entering this screen plays a greeting beep.
    pub fn on_enter(&mut self, senders: &mut TaskSenders)
        requires
            old(senders).wf(),
        ensures
            *final(self) == *old(self),
            sound_sent(*old(senders), *final(senders), seq![SoundCommand::Beep]),
            final(senders).wf(),
    {
        senders.sound.notify(SoundCommand::Beep);
        proof {
            lemma_notify_one(old(senders).sound@, old(senders).sound.capacity_spec(), SoundCommand::Beep);
        }
    }

    /// Which view this is.
    pub fn view_type(&self) -> (t: ViewType)
        ensures
            t == ViewType::Battlefield,
    {
        ViewType::Battlefield
    }
}

} // verus!
