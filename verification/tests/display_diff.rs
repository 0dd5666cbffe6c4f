use airsoft_v2::display::{DisplayCommand, DisplayDiffer, DisplayState, ScrollDirection};

fn write_text(line1: &str, line2: &str) -> DisplayCommand {
    DisplayCommand::WriteText { line1: String::from(line1), line2: String::from(line2) }
}

#[test]
fn write_text_emitted_exactly_once() {
    let mut differ = DisplayDiffer::new();
    let cmd = write_text("A", "B");
    assert!(differ.diff_command(&cmd).is_some());
    assert!(differ.diff_command(&cmd).is_none());
    assert!(differ.diff_command(&write_text("A", "B")).is_none());
    assert!(differ.diff_command(&write_text("A", "C")).is_some());
}

#[test]
fn write_text_diffs_against_last_emitted_not_last_seen() {
    let mut differ = DisplayDiffer::new();
    assert!(differ.diff_command(&write_text("A", "B")).is_some());
    // A suppressed repeat does not move the shadow.
    assert!(differ.diff_command(&write_text("A", "B")).is_none());
    assert_eq!(differ.current_state().line1, "A");
    assert_eq!(differ.current_state().line2, "B");
}

#[test]
fn write_at_round_trip_pads_with_spaces() {
    let mut differ = DisplayDiffer::new();
    let cmd = DisplayCommand::WriteAt { text: String::from("X"), row: 0, col: 5 };
    assert!(differ.diff_command(&cmd).is_some());
    let line1 = differ.current_state().line1.clone();
    assert_eq!(line1, "     X");
    assert_eq!(&line1[..5], "     ");
    assert_eq!(&line1[5..], "X");
}

#[test]
fn write_at_overwrites_in_place_and_extends() {
    let mut state = DisplayState::default();
    state.apply_command(&write_text("HELLO", ""));
    state.apply_command(&DisplayCommand::WriteAt { text: String::from("ab"), row: 0, col: 3 });
    assert_eq!(state.line1, "HELab");
    state.apply_command(&DisplayCommand::WriteAt { text: String::from("Z"), row: 1, col: 2 });
    assert_eq!(state.line2, "  Z");
    assert_eq!(state.cursor_row, 1);
    assert_eq!(state.cursor_col, 3);
}

#[test]
fn identical_write_at_is_suppressed() {
    let mut differ = DisplayDiffer::new();
    let cmd = DisplayCommand::WriteAt { text: String::from("X"), row: 0, col: 5 };
    assert!(differ.diff_command(&cmd).is_some());
    assert!(differ.diff_command(&cmd).is_none());
}

#[test]
fn clear_only_when_content_shown() {
    let mut differ = DisplayDiffer::new();
    assert!(differ.diff_command(&DisplayCommand::Clear).is_none());
    assert!(differ.diff_command(&write_text("X", "")).is_some());
    assert!(differ.diff_command(&DisplayCommand::Clear).is_some());
    assert!(differ.diff_command(&DisplayCommand::Clear).is_none());
}

#[test]
fn set_cursor_only_on_change() {
    let mut differ = DisplayDiffer::new();
    assert!(differ.diff_command(&DisplayCommand::SetCursor { row: 0, col: 0 }).is_none());
    assert!(differ.diff_command(&DisplayCommand::SetCursor { row: 1, col: 3 }).is_some());
    assert!(differ.diff_command(&DisplayCommand::SetCursor { row: 1, col: 3 }).is_none());
}

#[test]
fn scroll_always_passes_and_forgets_shadow() {
    let mut differ = DisplayDiffer::new();
    assert!(differ.diff_command(&write_text("A", "B")).is_some());
    let scroll = DisplayCommand::ScrollText {
        text: String::from("banner"),
        col: 0,
        times: 2,
        direction: ScrollDirection::Left,
    };
    assert!(differ.diff_command(&scroll).is_some());
    assert_eq!(differ.current_state().line1, "");
    assert_eq!(differ.current_state().line2, "");
    // After a scroll the same text is a real change again.
    assert!(differ.diff_command(&write_text("A", "B")).is_some());
}

#[test]
fn reset_state_forgets_shadow() {
    let mut differ = DisplayDiffer::new();
    assert!(differ.diff_command(&write_text("A", "B")).is_some());
    differ.reset_state();
    assert!(differ.diff_command(&write_text("A", "B")).is_some());
}
