use airsoft_v2::display::DisplayCommand;
use airsoft_v2::events::Command;
use airsoft_v2::game::{
    code_from_randoms, GameEvent, GameManager, GameState, MenuState, SearchAndDestroyState,
    BOMB_TIMER_SECONDS,
};

const NO_CODE: [u8; 4] = [0, 0, 0, 0];

fn digits(manager: &mut GameManager, ds: [u8; 4]) {
    for d in ds {
        manager.handle_event(GameEvent::CodeDigit(d), NO_CODE);
    }
}

#[test]
fn menu_cursor_moves_and_stops_at_the_edges() {
    let mut menu = MenuState::new(vec![String::from("one"), String::from("two")]);
    assert!(!menu.can_move_up());
    assert!(menu.can_move_down());
    menu.move_up();
    assert_eq!(menu.selected_index, 0);
    menu.move_down();
    assert_eq!(menu.selected_index, 1);
    assert!(!menu.can_move_down());
    menu.move_down();
    assert_eq!(menu.selected_index, 1);
    assert_eq!(menu.get_selected(), "two");
}

#[test]
fn code_digits_come_from_the_raw_draws() {
    assert_eq!(code_from_randoms([10, 21, 32, 49]), [0, 1, 2, 9]);
    assert_eq!(code_from_randoms([7, 1234567, 90, 10_000_000]), [7, 7, 0, 0]);
}

#[test]
fn selecting_the_first_entry_opens_the_bomb_game() {
    let mut manager = GameManager::new();
    let commands = manager.handle_event(GameEvent::MenuSelect, NO_CODE);
    assert_eq!(manager.state, GameState::SearchAndDestroy(SearchAndDestroyState::Idle));
    match &commands[0] {
        Command::DisplayText(DisplayCommand::WriteText { line1, line2 }) => {
            assert_eq!(line1, "Search&Destroy");
            assert_eq!(line2, "Press A to arm");
        }
        other => panic!("expected a text write, got {:?}", other),
    }
}

#[test]
fn arming_counts_four_digits_then_arms_with_the_full_timer() {
    let mut manager = GameManager::new();
    manager.handle_event(GameEvent::MenuSelect, NO_CODE);
    manager.handle_event(GameEvent::GameArm, [1, 2, 3, 4]);
    assert_eq!(
        manager.state,
        GameState::SearchAndDestroy(SearchAndDestroyState::ArmingCodeEntry {
            digits_entered: 0,
            code: [1, 2, 3, 4],
        })
    );
    digits(&mut manager, [5, 5, 5, 5]);
    assert_eq!(
        manager.state,
        GameState::SearchAndDestroy(SearchAndDestroyState::Armed {
            time_left_seconds: BOMB_TIMER_SECONDS,
            code: [1, 2, 3, 4],
        })
    );
}

fn armed_manager() -> GameManager {
    let mut manager = GameManager::new();
    manager.handle_event(GameEvent::MenuSelect, NO_CODE);
    manager.handle_event(GameEvent::GameArm, [1, 2, 3, 4]);
    digits(&mut manager, [1, 2, 3, 4]);
    manager
}

#[test]
fn the_timer_explodes_exactly_at_zero() {
    let mut manager = armed_manager();
    for n in 1..=BOMB_TIMER_SECONDS {
        manager.handle_event(GameEvent::TimerTick, NO_CODE);
        if n < BOMB_TIMER_SECONDS {
            assert!(
                !matches!(
                    manager.state,
                    GameState::SearchAndDestroy(SearchAndDestroyState::Exploded)
                ),
                "exploded early at tick {}",
                n
            );
        }
    }
    assert_eq!(manager.state, GameState::SearchAndDestroy(SearchAndDestroyState::Exploded));
}

#[test]
fn wrong_disarm_code_rearms_with_the_full_timer() {
    let mut manager = armed_manager();
    manager.handle_event(GameEvent::TimerTick, NO_CODE);
    manager.handle_event(GameEvent::GameDisarm, NO_CODE);
    digits(&mut manager, [9, 9, 9, 9]);
    // This generation resets the timer on a failed attempt.
    assert_eq!(
        manager.state,
        GameState::SearchAndDestroy(SearchAndDestroyState::Armed {
            time_left_seconds: BOMB_TIMER_SECONDS,
            code: [1, 2, 3, 4],
        })
    );
}

#[test]
fn correct_disarm_code_defuses_and_returns_to_menu() {
    let mut manager = armed_manager();
    manager.handle_event(GameEvent::GameDisarm, NO_CODE);
    digits(&mut manager, [1, 2, 3, 4]);
    assert_eq!(manager.state, GameState::SearchAndDestroy(SearchAndDestroyState::Defused));
    let commands = manager.handle_event(GameEvent::MenuSelect, NO_CODE);
    assert_eq!(manager.state, GameState::MainMenu);
    match &commands[0] {
        Command::DisplayText(DisplayCommand::WriteText { line1, line2 }) => {
            assert_eq!(line1, "Airsoft Master");
            assert_eq!(line2, " Search & Destroy\u{2193}");
        }
        other => panic!("expected a text write, got {:?}", other),
    }
}

#[test]
fn menu_render_marks_the_available_directions() {
    let mut manager = GameManager::new();
    let commands = manager.handle_event(GameEvent::MenuDown, NO_CODE);
    assert_eq!(manager.menu.selected_index, 1);
    match &commands[0] {
        Command::DisplayText(DisplayCommand::WriteText { line2, .. }) => {
            assert_eq!(line2, "\u{2191}Configuration");
        }
        other => panic!("expected a text write, got {:?}", other),
    }
}

#[test]
fn configuration_screen_returns_to_the_menu() {
    let mut manager = GameManager::new();
    manager.handle_event(GameEvent::MenuDown, NO_CODE);
    manager.handle_event(GameEvent::MenuSelect, NO_CODE);
    assert_eq!(manager.state, GameState::Configuration);
    manager.handle_event(GameEvent::MenuSelect, NO_CODE);
    assert_eq!(manager.state, GameState::MainMenu);
}

#[test]
fn armed_render_shows_the_clock() {
    let mut manager = armed_manager();
    let commands = manager.handle_event(GameEvent::TimerTick, NO_CODE);
    match &commands[0] {
        Command::DisplayText(DisplayCommand::WriteText { line1, line2 }) => {
            assert_eq!(line1, "BOMB ARMED!");
            assert_eq!(line2, "1:59 Press B");
        }
        other => panic!("expected a text write, got {:?}", other),
    }
}
