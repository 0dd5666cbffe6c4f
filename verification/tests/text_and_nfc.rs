use airsoft_v2::game_state::{game_states_equal, init_game_state, GameData, GameState};
use airsoft_v2::nfc::{parse_target_response, NfcCooldown};
use airsoft_v2::text::{format_clock, format_clock_padded, two_digit_string, u32_to_string};

#[test]
fn decimal_rendering_is_exact() {
    assert_eq!(u32_to_string(0), "0");
    assert_eq!(u32_to_string(7), "7");
    assert_eq!(u32_to_string(600), "600");
    assert_eq!(u32_to_string(12345), "12345");
    assert_eq!(u32_to_string(u32::MAX), "4294967295");
    assert_eq!(two_digit_string(0), "00");
    assert_eq!(two_digit_string(59), "59");
}

#[test]
fn clocks_use_division_and_modulo() {
    assert_eq!(format_clock(0), "0:00");
    assert_eq!(format_clock(600), "10:00");
    assert_eq!(format_clock(1200), "20:00");
    assert_eq!(format_clock(119), "1:59");
    assert_eq!(format_clock_padded(599), "09:59");
    assert_eq!(format_clock_padded(0), "00:00");
    assert_eq!(format_clock_padded(5999), "99:59");
}

#[test]
fn well_formed_response_yields_the_identifier() {
    let response = vec![1, 0, 0, 0, 0x08, 3, 0xAA, 0xBB, 0xCC];
    assert_eq!(parse_target_response(&response), Some(vec![0xAA, 0xBB, 0xCC]));
    // Trailing bytes beyond the identifier are ignored.
    let longer = vec![2, 0, 0, 0, 0x08, 2, 0x01, 0x02, 0x99, 0x99];
    assert_eq!(parse_target_response(&longer), Some(vec![0x01, 0x02]));
}

#[test]
fn malformed_responses_yield_no_detection() {
    // Too short for a header.
    assert_eq!(parse_target_response(&vec![1, 2, 3]), None);
    // No target listed.
    assert_eq!(parse_target_response(&vec![0, 0, 0, 0, 0, 4, 1, 2, 3, 4]), None);
    // Zero-length identifier.
    assert_eq!(parse_target_response(&vec![1, 0, 0, 0, 0, 0]), None);
    // Identifier longer than the response.
    assert_eq!(parse_target_response(&vec![1, 0, 0, 0, 0, 7, 1, 2]), None);
}

#[test]
fn cooldown_blocks_until_the_window_elapses() {
    let mut cooldown = NfcCooldown::new(2000);
    assert!(cooldown.eligible(0));
    cooldown.record_detection(1000);
    assert!(!cooldown.eligible(1001));
    assert!(!cooldown.eligible(2999));
    assert!(cooldown.eligible(3000));
    assert!(cooldown.eligible(9000));
}

#[test]
fn snapshot_store_publishes_updates() {
    let mut store = init_game_state();
    let initial = store.get_current_state();
    assert!(!initial.is_in_game);
    assert_eq!(initial.current_game, "main_menu");

    store.update_search_and_destroy_state(600, "ticking", 2, true);
    let snapshot = store.get_current_state();
    assert!(snapshot.is_in_game);
    assert_eq!(snapshot.current_game, "search_and_destroy");
    match snapshot.game_data {
        GameData::SearchAndDestroy { time_left, ref stage, code_length, wants_game_tick } => {
            assert_eq!(time_left, 600);
            assert_eq!(stage, "ticking");
            assert_eq!(code_length, 2);
            assert!(wants_game_tick);
        }
        ref other => panic!("expected the bomb-game snapshot, got {:?}", other),
    }

    store.update_main_menu_state("configuration", true);
    let snapshot = store.get_current_state();
    assert!(!snapshot.is_in_game);
}

#[test]
fn snapshot_equality_compares_content() {
    let a = GameState::default();
    let b = GameState::default();
    assert!(game_states_equal(&a, &b));

    let mut store = init_game_state();
    store.update_main_menu_state("search_and_destroy", true);
    let changed = store.get_current_state();
    assert!(!game_states_equal(&a, &changed));

    let different_mode = GameState {
        is_in_game: true,
        current_game: String::from("search_and_destroy"),
        game_data: GameData::SearchAndDestroy {
            time_left: 1,
            stage: String::from("armed"),
            code_length: 0,
            wants_game_tick: true,
        },
    };
    assert!(!game_states_equal(&a, &different_mode));
}
