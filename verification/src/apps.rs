//! The two-screen mode dispatcher of the earlier device generation: a main
//! menu and the arm/disarm bomb game. Each screen owns its state, consumes
//! input events one at a time, and renders a list of output commands that the
//! runtime forwards to the display, sound and lights actors.

pub mod main_menu;
pub mod search_and_destroy;
