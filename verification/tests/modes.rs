use airsoft_v2::events::InputEvent;
use airsoft_v2::mailbox::TaskSenders;
use airsoft_v2::views::battlefield::{BattlefieldGameState, BattlefieldView, Team};
use airsoft_v2::views::csgo::{CSGOGameState, CSGOView};
use airsoft_v2::views::search_and_destroy::{SearchAndDestroyPhase, SearchAndDestroyView};
use airsoft_v2::views::the_finals::{TheFinalsGameState, TheFinalsView, Team as FinalsTeam};

fn key(c: char) -> InputEvent {
    InputEvent::KeypadEvent(c)
}

fn card() -> InputEvent {
    InputEvent::CardDetected(vec![0xDE, 0xAD])
}

fn senders() -> TaskSenders {
    TaskSenders::with_capacity(32)
}

#[test]
fn csgo_round_flow_and_scores() {
    let mut s = senders();
    let mut view = CSGOView::new();
    view.handle_input(key('1'), &mut s);
    assert_eq!(view.game_state, CSGOGameState::RoundActive);
    assert_eq!(view.round_number, 1);
    view.handle_input(key('3'), &mut s);
    assert_eq!(view.game_state, CSGOGameState::BombPlanted);
    assert_eq!(view.bomb_time_remaining, Some(40));
    view.handle_input(key('7'), &mut s);
    assert_eq!(view.game_state, CSGOGameState::RoundEnded);
    assert_eq!(view.counter_terrorist_score, 1);
    assert_eq!(view.bomb_time_remaining, None);
}

#[test]
fn csgo_card_plants_then_defuses() {
    let mut s = senders();
    let mut view = CSGOView::new();
    view.handle_input(key('1'), &mut s);
    view.handle_input(card(), &mut s);
    assert_eq!(view.game_state, CSGOGameState::BombPlanted);
    view.handle_input(card(), &mut s);
    assert_eq!(view.game_state, CSGOGameState::RoundEnded);
}

#[test]
fn csgo_match_ends_past_half_the_rounds() {
    let mut s = senders();
    let mut view = CSGOView::new();
    for _ in 0..9 {
        view.handle_input(key('1'), &mut s);
        view.handle_input(key('9'), &mut s);
    }
    assert_eq!(view.terrorist_score, 9);
    assert!(view.is_match_over());
    // The next start key resets the match instead.
    view.handle_input(key('1'), &mut s);
    assert_eq!(view.game_state, CSGOGameState::Waiting);
    assert_eq!(view.terrorist_score, 0);
    assert_eq!(view.round_number, 0);
}

#[test]
fn csgo_render_shows_score_and_round() {
    let mut s = senders();
    let mut view = CSGOView::new();
    view.handle_input(key('1'), &mut s);
    view.handle_input(key('6'), &mut s);
    let lines = view.render();
    assert_eq!(lines[1], "T: 0 | CT: 1");
    assert_eq!(lines[2], "Round: 1/16");
    assert_eq!(lines[3], "Round ended");
    assert_eq!(lines[5], "1: Next Round | 0: Back to Menu");
}

#[test]
fn battlefield_capture_and_neutralize() {
    let mut s = senders();
    let mut view = BattlefieldView::new();
    view.handle_input(key('1'), &mut s);
    assert_eq!(view.game_state, BattlefieldGameState::Active);
    view.handle_input(key('6'), &mut s);
    assert_eq!(view.selected_point_index, 1);
    view.handle_input(key('7'), &mut s);
    assert_eq!(view.control_points[1].owner, Some(Team::Team1));
    assert_eq!(view.control_points[1].capture_progress, 100);
    view.handle_input(key('5'), &mut s);
    assert_eq!(view.control_points[1].owner, None);
    assert_eq!(view.control_points[1].capture_progress, 0);
}

#[test]
fn battlefield_selection_wraps_both_ways() {
    let mut s = senders();
    let mut view = BattlefieldView::new();
    view.handle_input(key('4'), &mut s);
    assert_eq!(view.selected_point_index, 2);
    view.handle_input(key('6'), &mut s);
    assert_eq!(view.selected_point_index, 0);
}

#[test]
fn battlefield_tickets_saturate_and_end_the_match() {
    let mut s = senders();
    let mut view = BattlefieldView::new();
    view.handle_input(key('1'), &mut s);
    for _ in 0..49 {
        view.handle_input(key('2'), &mut s);
    }
    assert_eq!(view.team1_tickets, 10);
    assert_eq!(view.game_state, BattlefieldGameState::Active);
    view.handle_input(key('2'), &mut s);
    assert_eq!(view.team1_tickets, 0);
    assert_eq!(view.game_state, BattlefieldGameState::Ended);
    // Ended: deductions no longer apply, and the winner line shows team 2.
    let lines = view.render();
    assert_eq!(lines[1], "Team 1: 0 | Team 2: 500");
    assert_eq!(lines[6], "TEAM 2 WINS!");
}

#[test]
fn battlefield_render_marks_the_cursor() {
    let view = BattlefieldView::new();
    let lines = view.render();
    assert_eq!(lines[0], "BATTLEFIELD - Domination");
    assert_eq!(lines[2], "> Alpha [--]");
    assert_eq!(lines[3], "  Bravo [--]");
    assert_eq!(lines[4], "  Charlie [--]");
    assert_eq!(lines[5], "Time: 20:00");
}

#[test]
fn finals_card_taps_collect_tokens_in_order() {
    let mut s = senders();
    let mut view = TheFinalsView::new();
    view.handle_input(key('1'), &mut s);
    assert_eq!(view.game_state, TheFinalsGameState::Active);
    view.handle_input(card(), &mut s);
    assert_eq!(view.team1_cash, 1000);
    assert_eq!(view.tokens_in_field, 4);
    // The first token was taken; the second tap takes the next one.
    view.handle_input(card(), &mut s);
    assert_eq!(view.team1_cash, 2000);
    assert_eq!(view.tokens_in_field, 3);
}

#[test]
fn finals_award_reaching_target_starts_cashout() {
    let mut s = senders();
    let mut view = TheFinalsView::new();
    view.handle_input(key('1'), &mut s);
    view.handle_input(key('6'), &mut s);
    assert_eq!(view.selected_team_index, 1);
    for _ in 0..9 {
        view.handle_input(key('5'), &mut s);
    }
    assert_eq!(view.team2_cash, 9000);
    assert_eq!(view.game_state, TheFinalsGameState::Active);
    view.handle_input(key('5'), &mut s);
    assert_eq!(view.team2_cash, 10000);
    assert_eq!(view.game_state, TheFinalsGameState::CashoutPhase);
    assert_eq!(view.cashout_time_remaining, Some(60));
    view.handle_input(key('7'), &mut s);
    assert_eq!(view.game_state, TheFinalsGameState::Ended);
    assert_eq!(view.get_winning_team(), Some(FinalsTeam::Team2));
}

#[test]
fn finals_tie_has_no_winner() {
    let view = TheFinalsView::new();
    assert_eq!(view.get_winning_team(), None);
}

#[test]
fn finals_reset_returns_tokens_to_the_field() {
    let mut s = senders();
    let mut view = TheFinalsView::new();
    view.handle_input(key('1'), &mut s);
    view.handle_input(card(), &mut s);
    view.reset_match();
    assert_eq!(view.team1_cash, 0);
    assert_eq!(view.tokens_in_field, 5);
    assert_eq!(view.game_state, TheFinalsGameState::Waiting);
}

#[test]
fn sd_configuration_adjusts_within_bounds() {
    let mut s = senders();
    let mut view = SearchAndDestroyView::new();
    assert_eq!(view.phase, SearchAndDestroyPhase::Configuration);
    // Max rounds climbs in steps of two and stops at thirty.
    for _ in 0..10 {
        view.handle_input(key('b'), &mut s);
    }
    assert_eq!(view.max_rounds, 30);
    view.handle_input(key('b'), &mut s);
    assert_eq!(view.max_rounds, 30);
    // The bomb timer row climbs in steps of five and stops at sixty.
    view.handle_input(key('d'), &mut s);
    view.handle_input(key('d'), &mut s);
    assert_eq!(view.selected_config_index, 2);
    for _ in 0..10 {
        view.handle_input(key('B'), &mut s);
    }
    assert_eq!(view.bomb_timer_seconds, 60);
}

#[test]
fn sd_round_flow_with_configured_clock() {
    let mut s = senders();
    let mut view = SearchAndDestroyView::new();
    // One more minute of round time.
    view.handle_input(key('d'), &mut s);
    view.handle_input(key('b'), &mut s);
    assert_eq!(view.round_time_minutes, 3);
    view.handle_input(key('1'), &mut s);
    assert_eq!(view.phase, SearchAndDestroyPhase::WaitingToStart);
    view.handle_input(key('1'), &mut s);
    assert_eq!(view.phase, SearchAndDestroyPhase::RoundActive);
    assert_eq!(view.round_time_remaining, 180);
    view.handle_input(card(), &mut s);
    assert_eq!(view.phase, SearchAndDestroyPhase::BombPlanted);
    assert_eq!(view.bomb_time_remaining, Some(40));
    view.handle_input(card(), &mut s);
    assert_eq!(view.phase, SearchAndDestroyPhase::RoundEnded);
    assert_eq!(view.counter_terrorist_score, 1);
    // On to the next round.
    view.handle_input(key('1'), &mut s);
    assert_eq!(view.phase, SearchAndDestroyPhase::WaitingToStart);
}

#[test]
fn sd_render_shows_the_configuration() {
    let view = SearchAndDestroyView::new();
    let lines = view.render();
    assert_eq!(lines[0], "Search & Destroy Config");
    assert_eq!(lines[3], "Max Rounds: 16");
    assert_eq!(lines[4], "Round Time: 2min");
    assert_eq!(lines[5], "Bomb Timer: 40s");
}
