use airsoft_v2::apps::search_and_destroy::{SearchAndDestroy, Stage, INITIAL_FUSE_SECONDS};
use airsoft_v2::display::DisplayCommand;
use airsoft_v2::events::{AppKind, Command, InputEvent};
use airsoft_v2::outputs::SoundCommand;

fn key(c: char) -> InputEvent {
    InputEvent::KeypadEvent(c)
}

fn armed_bomb() -> SearchAndDestroy {
    let mut game = SearchAndDestroy::default();
    game.handle_event(key('a'));
    for c in ['1', '2', '3', '4'] {
        game.handle_event(key(c));
    }
    game
}

#[test]
fn arm_key_and_correct_code_arm_the_bomb() {
    let mut game = SearchAndDestroy::default();
    assert!(matches!(game.stage, Stage::WaitingForArm));
    game.handle_event(key('a'));
    assert!(matches!(game.stage, Stage::Arming));
    for c in ['1', '2', '3', '4'] {
        game.handle_event(key(c));
    }
    assert!(matches!(game.stage, Stage::Armed));
    assert!(game.wants_game_tick);
    assert_eq!(game.time_left, INITIAL_FUSE_SECONDS);
}

#[test]
fn wrong_arm_code_clears_the_buffer() {
    let mut game = SearchAndDestroy::default();
    game.handle_event(key('a'));
    for c in ['9', '9', '9', '9'] {
        game.handle_event(key(c));
    }
    assert!(matches!(game.stage, Stage::Arming));
    assert_eq!(game.current_code, "");
    // The correct code still works afterwards.
    for c in ['1', '2', '3', '4'] {
        game.handle_event(key(c));
    }
    assert!(matches!(game.stage, Stage::Armed));
}

#[test]
fn six_hundred_ticks_explode_and_none_earlier() {
    let mut game = armed_bomb();
    for n in 1..=600u32 {
        game.handle_event(InputEvent::GameTick);
        if n < 600 {
            assert!(!matches!(game.stage, Stage::Exploded), "exploded early at tick {}", n);
            assert_eq!(game.time_left, 600 - n);
        }
    }
    assert!(matches!(game.stage, Stage::Exploded));
    assert_eq!(game.time_left, 0);
}

#[test]
fn failed_disarm_preserves_remaining_time() {
    let mut game = armed_bomb();
    for _ in 0..5 {
        game.handle_event(InputEvent::GameTick);
    }
    let remaining = game.time_left;
    assert_eq!(remaining, 595);
    game.handle_event(key('b'));
    assert!(matches!(game.stage, Stage::Disarming));
    for c in ['9', '9', '9', '9'] {
        game.handle_event(key(c));
    }
    assert!(matches!(game.stage, Stage::Ticking));
    assert_eq!(game.time_left, remaining);
    assert_eq!(game.current_code, "");
}

#[test]
fn correct_disarm_code_defuses() {
    let mut game = armed_bomb();
    game.handle_event(InputEvent::GameTick);
    game.handle_event(key('b'));
    for c in ['1', '2', '3', '4'] {
        game.handle_event(key(c));
    }
    assert!(matches!(game.stage, Stage::Disarmed));
    assert!(!game.wants_game_tick);
}

#[test]
fn card_tap_disarms_as_alternate_credential() {
    let mut game = armed_bomb();
    game.handle_event(InputEvent::GameTick);
    game.handle_event(key('b'));
    game.handle_event(InputEvent::CardDetected(vec![0xAA, 0xBB]));
    assert!(matches!(game.stage, Stage::Disarmed));
}

#[test]
fn timer_pauses_during_disarm_entry() {
    let mut game = armed_bomb();
    game.handle_event(InputEvent::GameTick);
    let remaining = game.time_left;
    game.handle_event(key('b'));
    game.handle_event(InputEvent::GameTick);
    game.handle_event(InputEvent::GameTick);
    assert_eq!(game.time_left, remaining);
}

#[test]
fn configured_code_is_honoured() {
    let mut game = SearchAndDestroy::with_code(String::from("8642"));
    game.handle_event(key('a'));
    for c in ['8', '6', '4', '2'] {
        game.handle_event(key(c));
    }
    assert!(matches!(game.stage, Stage::Armed));
}

fn first_write_text(commands: &[Command]) -> (String, String) {
    match &commands[0] {
        Command::DisplayText(DisplayCommand::WriteText { line1, line2 }) => {
            (line1.clone(), line2.clone())
        }
        other => panic!("expected a text write, got {:?}", other),
    }
}

#[test]
fn render_shows_the_clock_while_ticking() {
    let mut game = armed_bomb();
    game.handle_event(InputEvent::GameTick);
    game.handle_event(InputEvent::GameTick);
    assert!(matches!(game.stage, Stage::Ticking));
    let commands = game.render();
    let (line1, line2) = first_write_text(&commands);
    assert_eq!(line1, "Time: 09:58");
    assert_eq!(line2, "Press B to disarm");
    assert!(matches!(commands[1], Command::Sound(SoundCommand::Beep)));
}

#[test]
fn terminal_renders_announce_and_return_to_menu() {
    let mut game = armed_bomb();
    game.handle_event(InputEvent::GameTick);
    game.handle_event(key('b'));
    game.handle_event(InputEvent::CardDetected(vec![1]));
    let commands = game.render();
    let (line1, line2) = first_write_text(&commands);
    assert_eq!(line1, "Bomb has been");
    assert_eq!(line2, "defused!");
    assert!(matches!(commands[1], Command::Sound(SoundCommand::VictorySound)));
    assert!(matches!(commands[2], Command::ChangeApp(AppKind::MainMenu)));
}

#[test]
fn arming_render_echoes_the_partial_code() {
    let mut game = SearchAndDestroy::default();
    game.handle_event(key('a'));
    game.handle_event(key('1'));
    game.handle_event(key('2'));
    let commands = game.render();
    let (line1, line2) = first_write_text(&commands);
    assert_eq!(line1, "Enter arm code:");
    assert_eq!(line2, "12");
    // The last event was a keypress, so a feedback beep follows.
    assert!(matches!(commands[1], Command::Sound(SoundCommand::Beep)));
}
