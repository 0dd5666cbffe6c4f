//! The arm/disarm bomb game: a multi-phase state machine with a one-second
//! countdown, code-entry sub-states and failure recovery.
//!
//! Two policy choices this implementation fixes and proves: a failed disarm
//! attempt returns to the ticking state with the remaining time preserved
//! (the timer is never reset by a wrong code), and the `wants_game_tick`
//! flag holds exactly while the bomb is armed, ticking or being disarmed.
//! The arm/disarm code is a configuration value; `default` uses a fixed
//! code, and [`SearchAndDestroy::with_code`] installs any four characters.

use vstd::prelude::*;
use vstd::string::StrSliceExecFns;
use vstd::string::StringExecFns;

use crate::events::{is_change_app, is_lights, is_sound, is_write_text, AppKind, Command, InputEvent};
use crate::display::DisplayCommand;
use crate::outputs::{LightsCommand, SoundCommand};
use crate::text::{clock_text_padded, format_clock_padded};

verus! {

/// How many seconds the fuse runs once armed.
pub const INITIAL_FUSE_SECONDS: u32 = 600;

/// The phases of the bomb game.
#[derive(Debug, Clone, Copy, PartialEq, Eq, Structural)]
pub enum Stage {
    /// Idle; waiting for the arm key.
    WaitingForArm,
    /// Accumulating the four-character arm code.
    Arming,
    /// Just armed; the countdown takes over on the next event.
    Armed,
    /// The fuse counts down one second per tick.
    Ticking,
    /// Terminal losing outcome: the fuse ran out.
    Exploded,
    /// Accumulating the four-character disarm code; the fuse is paused.
    Disarming,
    /// Terminal winning outcome.
    Disarmed,
}

/// The mathematical state of the bomb game.
#[verifier::ext_equal]
pub ghost struct BombModel {
    pub time_left: u32,
    pub code: Seq<char>,
    pub stage: Stage,
    pub current_code: Seq<char>,
    pub wants_game_tick: bool,
    pub last_was_tick: bool,
}

/// The fixed arm/disarm code used when none is configured.
pub open spec fn default_code() -> Seq<char> {
    "1234"@
}

/// The state a fresh game starts in.
pub open spec fn initial_bomb() -> BombModel {
    BombModel {
        time_left: INITIAL_FUSE_SECONDS,
        code: default_code(),
        stage: Stage::WaitingForArm,
        current_code: Seq::empty(),
        wants_game_tick: false,
        last_was_tick: false,
    }
}

/// A code buffer takes one more character while it is short of four.
pub open spec fn with_digit(buf: Seq<char>, c: char) -> Seq<char> {
    if buf.len() < 4 {
        buf.push(c)
    } else {
        buf
    }
}

/// One second of fuse: the countdown continues, or the bomb explodes when
/// the last second runs out. Time saturates at zero; it is never negative.
pub open spec fn tick_down(s: BombModel) -> BombModel {
    if s.time_left > 1 {
        BombModel { stage: Stage::Ticking, time_left: (s.time_left - 1) as u32, ..s }
    } else {
        BombModel { stage: Stage::Exploded, time_left: 0, wants_game_tick: false, ..s }
    }
}

/// The phase transition for one event, before the last-event marker is
/// updated.
pub open spec fn bomb_transition(s: BombModel, event: InputEvent) -> BombModel {
    match s.stage {
        Stage::WaitingForArm => {
            if event == InputEvent::KeypadEvent('a') {
                BombModel { stage: Stage::Arming, ..s }
            } else {
                s
            }
        },
        Stage::Arming => {
            match event {
                InputEvent::KeypadEvent(c) => {
                    let buf = with_digit(s.current_code, c);
                    if buf.len() == 4 {
                        if buf == s.code {
                            BombModel {
                                stage: Stage::Armed,
                                wants_game_tick: true,
                                current_code: buf,
                                ..s
                            }
                        } else {
                            BombModel { current_code: Seq::empty(), ..s }
                        }
                    } else {
                        BombModel { current_code: buf, ..s }
                    }
                },
                _ => s,
            }
        },
        Stage::Armed => {
            match event {
                InputEvent::GameTick => tick_down(s),
                InputEvent::KeypadEvent(c) => {
                    if c == 'b' {
                        BombModel { stage: Stage::Disarming, current_code: Seq::empty(), ..s }
                    } else {
                        BombModel { stage: Stage::Ticking, ..s }
                    }
                },
                _ => BombModel { stage: Stage::Ticking, ..s },
            }
        },
        Stage::Ticking => {
            match event {
                InputEvent::GameTick => tick_down(s),
                InputEvent::KeypadEvent(c) => {
                    if c == 'b' {
                        BombModel { stage: Stage::Disarming, current_code: Seq::empty(), ..s }
                    } else {
                        s
                    }
                },
                _ => s,
            }
        },
        Stage::Disarming => {
            match event {
                InputEvent::CardDetected(_) => BombModel {
                    stage: Stage::Disarmed,
                    wants_game_tick: false,
                    ..s
                },
                InputEvent::KeypadEvent(c) => {
                    let buf = with_digit(s.current_code, c);
                    if buf.len() == 4 {
                        if buf == s.code {
                            BombModel {
                                stage: Stage::Disarmed,
                                wants_game_tick: false,
                                current_code: buf,
                                ..s
                            }
                        } else {
                            BombModel { stage: Stage::Ticking, current_code: Seq::empty(), ..s }
                        }
                    } else {
                        BombModel { current_code: buf, ..s }
                    }
                },
                _ => s,
            }
        },
        Stage::Exploded => s,
        Stage::Disarmed => s,
    }
}

/// How one event transforms the game: the phase transition, with the
/// last-event marker recording whether the event was the heartbeat.
pub open spec fn bomb_step(s: BombModel, event: InputEvent) -> BombModel {
    BombModel { last_was_tick: event is GameTick, ..bomb_transition(s, event) }
}

/// The state after a number of heartbeat ticks.
pub open spec fn after_ticks(s: BombModel, n: nat) -> BombModel
    decreases n,
{
    if n == 0 {
        s
    } else {
        bomb_step(after_ticks(s, (n - 1) as nat), InputEvent::GameTick)
    }
}

/// The arm/disarm bomb game.
pub struct SearchAndDestroy {
    /// Fuse seconds remaining.
    pub time_left: u32,
    code: String,
    /// The current phase.
    pub stage: Stage,
    /// The partially entered arm or disarm code.
    pub current_code: String,
    /// Whether this mode wants the periodic tick forwarded to it.
    pub wants_game_tick: bool,
    last_was_tick: bool,
}

impl View for SearchAndDestroy {
    type V = BombModel;

    closed spec fn view(&self) -> BombModel {
        BombModel {
            time_left: self.time_left,
            code: self.code@,
            stage: self.stage,
            current_code: self.current_code@,
            wants_game_tick: self.wants_game_tick,
            last_was_tick: self.last_was_tick,
        }
    }
}

impl Default for SearchAndDestroy {
    /// A fresh game with the fixed default code.
    fn default() -> (s: Self)
        ensures
            s@ == initial_bomb(),
            s.wf(),
    {
        let s = SearchAndDestroy {
            time_left: INITIAL_FUSE_SECONDS,
            code: String::from_str("1234"),
            stage: Stage::WaitingForArm,
            current_code: String::new(),
            wants_game_tick: false,
            last_was_tick: false,
        };
        proof {
            reveal_strlit("1234");
        }
        s
    }
}

impl SearchAndDestroy {
    /// The code is four characters, the entry buffer never exceeds four, and
    /// the fuse never exceeds its initial length.
    pub open spec fn wf(&self) -> bool {
        self@.code.len() == 4 && self@.current_code.len() <= 4 && self@.time_left
            <= INITIAL_FUSE_SECONDS
    }

    /// A fresh game with a configured four-character arm/disarm code.
    pub fn with_code(code: String) -> (s: Self)
        requires
            code@.len() == 4,
        ensures
            s@ == (BombModel { code: code@, ..initial_bomb() }),
            s.wf(),
    {
        SearchAndDestroy {
            time_left: INITIAL_FUSE_SECONDS,
            code,
            stage: Stage::WaitingForArm,
            current_code: String::new(),
            wants_game_tick: false,
            last_was_tick: false,
        }
    }

    /// Feed one input event through the state machine.
    pub fn handle_event(&mut self, event: InputEvent)
        requires
            old(self).wf(),
        ensures
            final(self)@ == bomb_step(old(self)@, event),
            final(self).wf(),
    {
        let is_tick = event.is_game_tick();
        match self.stage {
            Stage::WaitingForArm => {
                if let InputEvent::KeypadEvent(k) = event {
                    if k == 'a' {
                        self.stage = Stage::Arming;
                    }
                }
            },
            Stage::Arming => {
                if let InputEvent::KeypadEvent(c) = event {
                    if self.current_code.as_str().unicode_len() < 4 {
                        self.current_code.push(c);
                    }
                    if self.current_code.as_str().unicode_len() == 4 {
                        if self.current_code == self.code {
                            self.stage = Stage::Armed;
                            self.wants_game_tick = true;
                        } else {
                            self.current_code = String::new();
                        }
                    }
                }
            },
            Stage::Armed => {
                match event {
                    InputEvent::GameTick => {
                        self.tick_once();
                    },
                    InputEvent::KeypadEvent(c) => {
                        if c == 'b' {
                            self.current_code = String::new();
                            self.stage = Stage::Disarming;
                        } else {
                            self.stage = Stage::Ticking;
                        }
                    },
                    _ => {
                        self.stage = Stage::Ticking;
                    },
                }
            },
            Stage::Ticking => {
                match event {
                    InputEvent::GameTick => {
                        self.tick_once();
                    },
                    InputEvent::KeypadEvent(c) => {
                        if c == 'b' {
                            self.current_code = String::new();
                            self.stage = Stage::Disarming;
                        }
                    },
                    _ => {},
                }
            },
            Stage::Disarming => {
                match event {
                    InputEvent::CardDetected(_) => {
                        self.stage = Stage::Disarmed;
                        self.wants_game_tick = false;
                    },
                    InputEvent::KeypadEvent(c) => {
                        if self.current_code.as_str().unicode_len() < 4 {
                            self.current_code.push(c);
                        }
                        if self.current_code.as_str().unicode_len() == 4 {
                            if self.current_code == self.code {
                                self.stage = Stage::Disarmed;
                                self.wants_game_tick = false;
                            } else {
                                self.current_code = String::new();
                                self.stage = Stage::Ticking;
                            }
                        }
                    },
                    _ => {},
                }
            },
            Stage::Exploded => {},
            Stage::Disarmed => {},
        }
        self.last_was_tick = is_tick;
    }

    /// One second of fuse.
    fn tick_once(&mut self)
        ensures
            final(self)@ == (BombModel { last_was_tick: old(self)@.last_was_tick, ..tick_down(old(self)@) }),
    {
        if self.time_left > 1 {
            self.time_left = self.time_left - 1;
            self.stage = Stage::Ticking;
        } else {
            self.time_left = 0;
            self.stage = Stage::Exploded;
            self.wants_game_tick = false;
        }
    }

    /// The drawable description of the current phase: the two display lines,
    /// the feedback sounds and lights, and — in the terminal phases — the
    /// command that returns the device to the main menu.
    pub fn render(&self) -> (r: Vec<Command>)
        requires
            self.wf(),
        ensures
            self@.stage == Stage::WaitingForArm ==> r@.len() == 1 && is_write_text(
                r@[0],
                "Search & Destroy"@,
                "Press A to arm"@,
            ),
            self@.stage == Stage::Arming ==> is_write_text(
                r@[0],
                "Enter arm code:"@,
                self@.current_code,
            ) && if self@.last_was_tick {
                r@.len() == 1
            } else {
                r@.len() == 2 && is_sound(r@[1], SoundCommand::Beep)
            },
            self@.stage == Stage::Armed ==> r@.len() == 3 && is_write_text(r@[0], "Armed!"@, ""@)
                && is_sound(r@[1], SoundCommand::DoubleBeep) && is_lights(
                r@[2],
                LightsCommand::Flash { r: 255, g: 0, b: 0, duration_ms: 50 },
            ),
            self@.stage == Stage::Ticking ==> r@.len() == 3 && is_write_text(
                r@[0],
                "Time: "@ + clock_text_padded(self@.time_left as int),
                "Press B to disarm"@,
            ) && is_sound(r@[1], SoundCommand::Beep) && is_lights(
                r@[2],
                LightsCommand::Flash { r: 255, g: 0, b: 0, duration_ms: 50 },
            ),
            self@.stage == Stage::Disarming ==> is_write_text(
                r@[0],
                "Enter disarm code:"@,
                self@.current_code,
            ) && if self@.last_was_tick {
                r@.len() == 1
            } else {
                r@.len() == 2 && is_sound(r@[1], SoundCommand::Beep)
            },
            self@.stage == Stage::Disarmed ==> r@.len() == 3 && is_write_text(
                r@[0],
                "Bomb has been"@,
                "defused!"@,
            ) && is_sound(r@[1], SoundCommand::VictorySound) && is_change_app(
                r@[2],
                AppKind::MainMenu,
            ),
            self@.stage == Stage::Exploded ==> r@.len() == 3 && is_write_text(
                r@[0],
                "Bomb has exploded"@,
                "Game Over"@,
            ) && is_sound(r@[1], SoundCommand::DefeatSound) && is_change_app(
                r@[2],
                AppKind::MainMenu,
            ),
    {
        let mut commands: Vec<Command> = Vec::new();
        match self.stage {
            Stage::WaitingForArm => {
                commands.push(
                    Command::DisplayText(
                        DisplayCommand::WriteText {
                            line1: String::from_str("Search & Destroy"),
                            line2: String::from_str("Press A to arm"),
                        },
                    ),
                );
            },
            Stage::Arming => {
                commands.push(
                    Command::DisplayText(
                        DisplayCommand::WriteText {
                            line1: String::from_str("Enter arm code:"),
                            line2: self.current_code.clone(),
                        },
                    ),
                );
                if !self.last_was_tick {
                    commands.push(Command::Sound(SoundCommand::Beep));
                }
            },
            Stage::Armed => {
                commands.push(
                    Command::DisplayText(
                        DisplayCommand::WriteText {
                            line1: String::from_str("Armed!"),
                            line2: String::from_str(""),
                        },
                    ),
                );
                commands.push(Command::Sound(SoundCommand::DoubleBeep));
                commands.push(
                    Command::Lights(LightsCommand::Flash { r: 255, g: 0, b: 0, duration_ms: 50 }),
                );
            },
            Stage::Ticking => {
                let clock = format_clock_padded(self.time_left);
                commands.push(
                    Command::DisplayText(
                        DisplayCommand::WriteText {
                            line1: String::from_str("Time: ").concat(clock.as_str()),
                            line2: String::from_str("Press B to disarm"),
                        },
                    ),
                );
                commands.push(Command::Sound(SoundCommand::Beep));
                commands.push(
                    Command::Lights(LightsCommand::Flash { r: 255, g: 0, b: 0, duration_ms: 50 }),
                );
            },
            Stage::Disarming => {
                commands.push(
                    Command::DisplayText(
                        DisplayCommand::WriteText {
                            line1: String::from_str("Enter disarm code:"),
                            line2: self.current_code.clone(),
                        },
                    ),
                );
                if !self.last_was_tick {
                    commands.push(Command::Sound(SoundCommand::Beep));
                }
            },
            Stage::Disarmed => {
                commands.push(
                    Command::DisplayText(
                        DisplayCommand::WriteText {
                            line1: String::from_str("Bomb has been"),
                            line2: String::from_str("defused!"),
                        },
                    ),
                );
                commands.push(Command::Sound(SoundCommand::VictorySound));
                commands.push(Command::ChangeApp(AppKind::MainMenu));
            },
            Stage::Exploded => {
                commands.push(
                    Command::DisplayText(
                        DisplayCommand::WriteText {
                            line1: String::from_str("Bomb has exploded"),
                            line2: String::from_str("Game Over"),
                        },
                    ),
                );
                commands.push(Command::Sound(SoundCommand::DefeatSound));
                commands.push(Command::ChangeApp(AppKind::MainMenu));
            },
        }
        commands
    }
}

/// The tick-interest flag is set exactly while the bomb is armed, ticking
/// or being disarmed.
pub open spec fn wants_tick_consistent(s: BombModel) -> bool {
    s.wants_game_tick <==> (s.stage == Stage::Armed || s.stage == Stage::Ticking || s.stage
        == Stage::Disarming)
}

/// Law (tick interest): every transition preserves that the
/// `wants_game_tick` flag holds exactly while the machine consumes ticks,
/// and a fresh game starts with it clear.
pub proof fn lemma_wants_tick_invariant(s: BombModel, event: InputEvent)
    requires
        wants_tick_consistent(s),
    ensures
        wants_tick_consistent(bomb_step(s, event)),
        wants_tick_consistent(initial_bomb()),
{
}

/// Law (fuse countdown): from an armed or ticking bomb, the fuse loses
/// exactly one second per heartbeat, the bomb never explodes before the
/// remaining seconds have elapsed, and it has exploded once they have.
pub proof fn lemma_fuse_counts_down(s: BombModel, n: nat)
    requires
        s.stage == Stage::Armed || s.stage == Stage::Ticking,
        s.time_left >= 1,
    ensures
        n < s.time_left ==> after_ticks(s, n).stage != Stage::Exploded && after_ticks(s, n).time_left
            == s.time_left - n,
        1 <= n < s.time_left ==> after_ticks(s, n).stage == Stage::Ticking,
        n >= s.time_left ==> after_ticks(s, n).stage == Stage::Exploded && after_ticks(s, n).time_left
            == 0,
    decreases n,
{
    if n > 0 {
        lemma_fuse_counts_down(s, (n - 1) as nat);
    }
}

/// Law (arming): from the idle state with an empty entry buffer, the arm
/// key followed by the four characters of the configured code arms the bomb
/// without touching the fuse.
pub proof fn lemma_arm_with_correct_code(s: BombModel)
    requires
        s.stage == Stage::WaitingForArm,
        s.current_code.len() == 0,
        s.code.len() == 4,
    ensures
        ({
            let armed = bomb_step(
                bomb_step(
                    bomb_step(
                        bomb_step(
                            bomb_step(s, InputEvent::KeypadEvent('a')),
                            InputEvent::KeypadEvent(s.code[0]),
                        ),
                        InputEvent::KeypadEvent(s.code[1]),
                    ),
                    InputEvent::KeypadEvent(s.code[2]),
                ),
                InputEvent::KeypadEvent(s.code[3]),
            );
            armed.stage == Stage::Armed && armed.wants_game_tick && armed.time_left == s.time_left
        }),
{
    let s1 = bomb_step(s, InputEvent::KeypadEvent('a'));
    assert(s1.stage == Stage::Arming && s1.current_code == s.current_code);
    let s2 = bomb_step(s1, InputEvent::KeypadEvent(s.code[0]));
    let s3 = bomb_step(s2, InputEvent::KeypadEvent(s.code[1]));
    let s4 = bomb_step(s3, InputEvent::KeypadEvent(s.code[2]));
    assert(s4.stage == Stage::Arming && s4.current_code =~= seq![s.code[0], s.code[1], s.code[2]]);
    let s5 = bomb_step(s4, InputEvent::KeypadEvent(s.code[3]));
    assert(with_digit(s4.current_code, s.code[3]) =~= s.code);
    assert(s5.stage == Stage::Armed);
}

/// Law (failed disarm preserves the timer): entering a wrong four-character
/// code while disarming returns the game to the ticking state with the
/// remaining time unchanged and the entry buffer cleared; the fuse is never
/// reset by a failed attempt.
pub proof fn lemma_disarm_failure_preserves_timer(s: BombModel, c0: char, c1: char, c2: char, c3: char)
    requires
        s.stage == Stage::Disarming,
        s.current_code.len() == 0,
        s.code.len() == 4,
        seq![c0, c1, c2, c3] != s.code,
    ensures
        ({
            let after = bomb_step(
                bomb_step(
                    bomb_step(
                        bomb_step(s, InputEvent::KeypadEvent(c0)),
                        InputEvent::KeypadEvent(c1),
                    ),
                    InputEvent::KeypadEvent(c2),
                ),
                InputEvent::KeypadEvent(c3),
            );
            after.stage == Stage::Ticking && after.time_left == s.time_left
                && after.current_code.len() == 0
        }),
{
    let s1 = bomb_step(s, InputEvent::KeypadEvent(c0));
    assert(s1.stage == Stage::Disarming && s1.current_code =~= seq![c0]);
    let s2 = bomb_step(s1, InputEvent::KeypadEvent(c1));
    let s3 = bomb_step(s2, InputEvent::KeypadEvent(c2));
    assert(s3.stage == Stage::Disarming && s3.current_code =~= seq![c0, c1, c2]);
    let s4 = bomb_step(s3, InputEvent::KeypadEvent(c3));
    assert(with_digit(s3.current_code, c3) =~= seq![c0, c1, c2, c3]);
    assert(s4.stage == Stage::Ticking && s4.time_left == s.time_left);
}

} // verus!
