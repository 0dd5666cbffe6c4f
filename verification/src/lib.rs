//! Control core of a battery-powered game-referee device: a keypad, an NFC
//! reader, light strips, a buzzer and a small character display, driven by a
//! set of cooperating actors.
//!
//! This crate holds the verified heart of that firmware: the bounded-mailbox
//! messaging substrate, the event router with its view-navigation stack, the
//! per-mode game state machines (most notably the arm/disarm bomb timer), the
//! display diff engine that suppresses redundant writes, and the pure decision
//! logic of the input sources (keypad debounce, NFC response parsing).
//! Hardware buses, timers and the async executor stay outside; they hand the
//! library plain values and carry its commands to the peripherals.

pub mod apps;
pub mod display;
pub mod events;
pub mod game;
pub mod game_state;
pub mod keypad;
pub mod mailbox;
pub mod nfc;
pub mod outputs;
pub mod text;
pub mod views;
