use airsoft_v2::apps::main_menu::{MainMenu, MainMenuSelection};
use airsoft_v2::display::DisplayCommand;
use airsoft_v2::events::{AppKind, Command, InputEvent};
use airsoft_v2::outputs::SoundCommand;

fn key(c: char) -> InputEvent {
    InputEvent::KeypadEvent(c)
}

#[test]
fn selection_wraps_in_both_directions() {
    let mut selection = MainMenuSelection::SearchAndDestroy;
    selection.prev();
    assert_eq!(selection, MainMenuSelection::Config);
    selection.next();
    assert_eq!(selection, MainMenuSelection::SearchAndDestroy);
    selection.next();
    assert_eq!(selection, MainMenuSelection::TeamDeathMatch);
}

#[test]
fn menu_keys_move_and_confirm() {
    let mut menu = MainMenu::default();
    menu.handle_event(key('b'));
    menu.handle_event(key('b'));
    let commands = menu.render();
    match &commands[0] {
        Command::DisplayText(DisplayCommand::WriteText { line1, line2 }) => {
            assert_eq!(line1, "Domination <-");
            assert_eq!(line2, "Cashout");
        }
        other => panic!("expected a text write, got {:?}", other),
    }
    // A handled key earns the affirming feedback.
    assert!(matches!(commands[1], Command::Sound(SoundCommand::SuccessBeep)));
}

#[test]
fn confirming_the_bomb_game_switches_screens() {
    let mut menu = MainMenu::default();
    menu.handle_event(key('4'));
    let commands = menu.render();
    assert!(matches!(commands[0], Command::ChangeApp(AppKind::SearchAndDestroy)));
}

#[test]
fn unknown_keys_earn_the_error_feedback() {
    let mut menu = MainMenu::default();
    menu.handle_event(key('7'));
    assert!(!menu.valid_last_event());
    let commands = menu.render();
    assert!(matches!(commands[1], Command::Sound(SoundCommand::ErrorBeep)));
}

#[test]
fn heartbeats_earn_no_feedback() {
    let mut menu = MainMenu::default();
    menu.handle_event(InputEvent::GameTick);
    let commands = menu.render();
    assert_eq!(commands.len(), 1);
}
