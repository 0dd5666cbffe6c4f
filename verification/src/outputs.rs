//! Commands understood by the two output actors: the buzzer and the light
//! strips. Each actor owns its driver exclusively and consumes these values
//! from its mailbox.

use vstd::prelude::*;

verus! {

/// A request to the sound actor. The named jingles (victory, defeat, the
/// beeps) stand for fixed tone sequences that the driver layer owns.
#[derive(Debug, Clone, Copy, PartialEq, Eq, Structural)]
pub enum SoundCommand {
    PlayTone { frequency: u32, duration_ms: u32 },
    Beep,
    DoubleBeep,
    ErrorBeep,
    SuccessBeep,
    VictorySound,
    DefeatSound,
    Stop,
}

/// A request to the lights actor.
#[derive(Debug, Clone, Copy, PartialEq, Eq, Structural)]
pub enum LightsCommand {
    /// Set every pixel of both strips to one color.
    SetAllColor { r: u8, g: u8, b: u8 },
    /// Set each strip to its own color.
    SetStripColors { r1: u8, g1: u8, b1: u8, r2: u8, g2: u8, b2: u8 },
    /// Set both strips to one color (alias used by the older dispatcher).
    SetBothColors { r: u8, g: u8, b: u8 },
    TurnOff,
    /// Show a color for a bounded time, then turn the strips off.
    Flash { r: u8, g: u8, b: u8, duration_ms: u32 },
}

} // verus!
