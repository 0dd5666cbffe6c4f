use airsoft_v2::events::InputEvent;
use airsoft_v2::mailbox::TaskSenders;
use airsoft_v2::outputs::SoundCommand;
use airsoft_v2::views::{NavigationAction, Router, ViewType};

fn key(c: char) -> InputEvent {
    InputEvent::KeypadEvent(c)
}

fn fresh_router(senders: &mut TaskSenders) -> Router {
    let mut router = Router::new(senders);
    // Drain the main menu's greeting beep.
    while senders.sound.receive().is_some() {}
    router.view_stack.clear();
    router
}

#[test]
fn goto_then_back_restores_the_previous_view() {
    let mut senders = TaskSenders::with_capacity(16);
    let mut router = fresh_router(&mut senders);
    assert_eq!(router.current_view(), ViewType::MainMenu);

    // Confirm the first menu entry: a single hop.
    let action = router.handle_input(key('5'), &mut senders);
    assert!(matches!(action, Some(NavigationAction::GoTo(ViewType::CSGO))));
    assert_eq!(router.current_view(), ViewType::CSGO);
    assert_eq!(router.view_stack, vec![ViewType::MainMenu]);

    // Back restores the view and empties the stack.
    let action = router.handle_input(key('0'), &mut senders);
    assert!(matches!(action, Some(NavigationAction::Back)));
    assert_eq!(router.current_view(), ViewType::MainMenu);
    assert!(router.view_stack.is_empty());
}

#[test]
fn back_on_empty_stack_is_a_no_op() {
    let mut senders = TaskSenders::with_capacity(16);
    let mut router = fresh_router(&mut senders);
    // Walk into a game view, then clear the history by hand.
    router.handle_input(key('5'), &mut senders);
    router.view_stack.clear();
    assert_eq!(router.current_view(), ViewType::CSGO);

    let action = router.handle_input(key('0'), &mut senders);
    assert!(matches!(action, Some(NavigationAction::Back)));
    // Nothing to go back to: the view is unchanged.
    assert_eq!(router.current_view(), ViewType::CSGO);
    assert!(router.view_stack.is_empty());
}

#[test]
fn goto_same_view_does_not_grow_the_stack() {
    let mut senders = TaskSenders::with_capacity(16);
    let mut router = fresh_router(&mut senders);
    router.handle_input(key('5'), &mut senders);
    assert_eq!(router.view_stack.len(), 1);
    // Navigate menu within the game view: no navigation request.
    let action = router.handle_input(key('3'), &mut senders);
    assert!(action.is_none());
    assert_eq!(router.view_stack.len(), 1);
}

#[test]
fn menu_selection_targets_each_game_view() {
    let mut senders = TaskSenders::with_capacity(16);
    let mut router = fresh_router(&mut senders);

    router.handle_input(key('8'), &mut senders);
    let action = router.handle_input(key('5'), &mut senders);
    assert!(matches!(action, Some(NavigationAction::GoTo(ViewType::Battlefield))));
    assert_eq!(router.current_view(), ViewType::Battlefield);
    router.handle_input(key('0'), &mut senders);

    router.handle_input(key('8'), &mut senders);
    let action = router.handle_input(key('5'), &mut senders);
    assert!(matches!(action, Some(NavigationAction::GoTo(ViewType::TheFinals))));
    assert_eq!(router.current_view(), ViewType::TheFinals);
}

#[test]
fn entering_a_view_queues_its_greeting_beep() {
    let mut senders = TaskSenders::with_capacity(16);
    let mut router = fresh_router(&mut senders);
    router.handle_input(key('5'), &mut senders);
    // The menu confirmation beep, then the entered view's greeting.
    assert_eq!(senders.sound.receive(), Some(SoundCommand::SuccessBeep));
    assert_eq!(senders.sound.receive(), Some(SoundCommand::Beep));
    assert_eq!(senders.sound.receive(), None);
}

#[test]
fn router_render_delegates_to_the_active_view() {
    let mut senders = TaskSenders::with_capacity(16);
    let mut router = fresh_router(&mut senders);
    let lines = router.render();
    assert_eq!(lines.len(), 5);
    assert_eq!(lines[0], "AIRSOFT GAME SYSTEM");
    assert_eq!(lines[1], "> CSGO - Search & Destroy");
    assert_eq!(lines[4], "Use 2/8 to navigate, 5 to select");

    router.handle_input(key('5'), &mut senders);
    let lines = router.render();
    assert_eq!(lines.len(), 6);
    assert_eq!(lines[0], "CSGO - Search & Destroy");
}
