//! Input events and output commands: the values that flow between the input
//! sources, the router and the output actors.

use vstd::prelude::*;

use crate::display::DisplayCommand;
use crate::outputs::{LightsCommand, SoundCommand};

verus! {

/// One unit of user input. Produced by exactly one input source per
/// occurrence and consumed exactly once by the router.
#[derive(Debug, Clone, PartialEq)]
pub enum InputEvent {
    /// A debounced keypress.
    KeypadEvent(char),
    /// A proximity card was read; carries the raw identifier bytes.
    CardDetected(Vec<u8>),
    /// The periodic one-second heartbeat.
    GameTick,
    /// A no-op marker used to force a re-render after a transition.
    Null,
}

impl InputEvent {
    /// True exactly on the periodic heartbeat.
    pub fn is_game_tick(&self) -> (b: bool)
        ensures
            b == (self is GameTick),
    {
        matches!(self, InputEvent::GameTick)
    }
}

/// The mode screens that the older two-screen dispatcher can switch between.
#[derive(Debug, Clone, Copy, PartialEq, Eq, Structural)]
pub enum AppKind {
    MainMenu,
    SearchAndDestroy,
}

/// One desired effect, produced by a mode's render step and forwarded by the
/// router to the matching output actor.
#[derive(Debug, Clone, PartialEq)]
pub enum Command {
    /// Write to the character display.
    DisplayText(DisplayCommand),
    /// Play a tone or a jingle.
    Sound(SoundCommand),
    /// Drive the light strips.
    Lights(LightsCommand),
    /// Switch the active mode screen.
    ChangeApp(AppKind),
}

/// The command writes exactly this two-line text.
pub open spec fn is_write_text(c: Command, line1: Seq<char>, line2: Seq<char>) -> bool {
    c matches Command::DisplayText(DisplayCommand::WriteText { line1: l1, line2: l2 }) && l1@ == line1
        && l2@ == line2
}

/// The command plays exactly this sound.
pub open spec fn is_sound(c: Command, sound: SoundCommand) -> bool {
    c matches Command::Sound(s) && s == sound
}

/// The command drives the lights exactly so.
pub open spec fn is_lights(c: Command, lights: LightsCommand) -> bool {
    c matches Command::Lights(l) && l == lights
}

/// The command switches to exactly this mode screen.
pub open spec fn is_change_app(c: Command, app: AppKind) -> bool {
    c matches Command::ChangeApp(a) && a == app
}

} // verus!
