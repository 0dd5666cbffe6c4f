//! The display diff engine. It keeps a shadow of what the two-line character
//! display currently shows and filters the stream of desired display commands
//! down to those that change observable state: the physical bus is slow, so
//! every suppressed write is saved latency and flicker, and a write may only
//! be suppressed when the full resulting state equals the shadow.

use vstd::prelude::*;
use vstd::string::StrSliceExecFns;

verus! {

/// Direction of a scrolling banner.
#[derive(Debug, Clone, Copy, PartialEq, Eq, Structural)]
pub enum ScrollDirection {
    Left,
    Right,
}

/// A request to the display actor.
#[derive(Debug, PartialEq)]
pub enum DisplayCommand {
    /// Replace both lines.
    WriteText { line1: String, line2: String },
    /// Blank the display.
    Clear,
    /// Move the cursor.
    SetCursor { row: u8, col: u8 },
    /// Overwrite characters of one line starting at a column, padding with
    /// spaces when the column lies past the end of the line.
    WriteAt { text: String, row: u8, col: u8 },
    /// A scrolling banner; inherently dynamic, never diffed.
    ScrollText { text: String, col: i32, times: u32, direction: ScrollDirection },
}

impl Clone for DisplayCommand {
    fn clone(&self) -> (c: Self)
        ensures
            c == *self,
    {
        match self {
            DisplayCommand::WriteText { line1, line2 } => DisplayCommand::WriteText {
                line1: line1.clone(),
                line2: line2.clone(),
            },
            DisplayCommand::Clear => DisplayCommand::Clear,
            DisplayCommand::SetCursor { row, col } => DisplayCommand::SetCursor { row: *row, col: *col },
            DisplayCommand::WriteAt { text, row, col } => DisplayCommand::WriteAt {
                text: text.clone(),
                row: *row,
                col: *col,
            },
            DisplayCommand::ScrollText { text, col, times, direction } => DisplayCommand::ScrollText {
                text: text.clone(),
                col: *col,
                times: *times,
                direction: *direction,
            },
        }
    }
}

/// The mathematical shadow state: both lines as character sequences plus the
/// cursor position.
#[verifier::ext_equal]
pub ghost struct DisplayModel {
    pub line1: Seq<char>,
    pub line2: Seq<char>,
    pub cursor_row: u8,
    pub cursor_col: u8,
}

/// The shadow of a blank display.
pub open spec fn empty_display() -> DisplayModel {
    DisplayModel { line1: Seq::empty(), line2: Seq::empty(), cursor_row: 0, cursor_col: 0 }
}

/// Where the cursor rests after writing `n` characters starting at `col`,
/// held within the one-byte cursor range.
pub open spec fn cursor_after(col: u8, n: nat) -> u8 {
    if col + n > 255 {
        255u8
    } else {
        (col + n) as u8
    }
}

/// One character of the line that results from overwriting `line` with
/// `text` at column `col`.
pub open spec fn write_at_char(line: Seq<char>, text: Seq<char>, col: int, i: int) -> char {
    if col <= i < col + text.len() {
        text[i - col]
    } else if i < line.len() {
        line[i]
    } else {
        ' '
    }
}

/// The line that results from overwriting `line` with `text` at column
/// `col`: characters under the text are replaced, the line is extended when
/// the text runs past its end, and any gap before `col` is filled with
/// spaces.
pub open spec fn write_at_line(line: Seq<char>, text: Seq<char>, col: int) -> Seq<char> {
    let len = if line.len() >= col + text.len() {
        line.len() as int
    } else {
        col + text.len()
    };
    Seq::new(len as nat, |i: int| write_at_char(line, text, col, i))
}

/// How one command transforms the shadow state.
pub open spec fn spec_apply(s: DisplayModel, command: DisplayCommand) -> DisplayModel {
    match command {
        DisplayCommand::WriteText { line1, line2 } => DisplayModel {
            line1: line1@,
            line2: line2@,
            cursor_row: 0,
            cursor_col: 0,
        },
        DisplayCommand::Clear => empty_display(),
        DisplayCommand::SetCursor { row, col } => DisplayModel { cursor_row: row, cursor_col: col, ..s },
        DisplayCommand::WriteAt { text, row, col } => if row == 0 {
            DisplayModel {
                line1: write_at_line(s.line1, text@, col as int),
                cursor_row: row,
                cursor_col: cursor_after(col, text@.len()),
                ..s
            }
        } else {
            DisplayModel {
                line2: write_at_line(s.line2, text@, col as int),
                cursor_row: row,
                cursor_col: cursor_after(col, text@.len()),
                ..s
            }
        },
        DisplayCommand::ScrollText { .. } => empty_display(),
    }
}

/// Whether a command changes observable state and must reach the hardware.
/// Scroll banners always pass through.
pub open spec fn emits(s: DisplayModel, command: DisplayCommand) -> bool {
    match command {
        DisplayCommand::WriteText { line1, line2 } => s.line1 != line1@ || s.line2 != line2@,
        DisplayCommand::Clear => s.line1.len() != 0 || s.line2.len() != 0,
        DisplayCommand::SetCursor { row, col } => s.cursor_row != row || s.cursor_col != col,
        DisplayCommand::WriteAt { text, row, col } => {
            let target = if row == 0 {
                s.line1
            } else {
                s.line2
            };
            write_at_line(target, text@, col as int) != target || s.cursor_row != row
                || s.cursor_col != cursor_after(col, text@.len())
        },
        DisplayCommand::ScrollText { .. } => true,
    }
}

/// How one command moves the shadow held by the diff engine: only an emitted
/// command commits its effect.
pub open spec fn diff_step(s: DisplayModel, command: DisplayCommand) -> DisplayModel {
    if emits(s, command) {
        spec_apply(s, command)
    } else {
        s
    }
}

/// The last-committed two-line text and cursor position.
#[derive(Debug, Clone, PartialEq)]
pub struct DisplayState {
    pub line1: String,
    pub line2: String,
    pub cursor_row: u8,
    pub cursor_col: u8,
}

impl View for DisplayState {
    type V = DisplayModel;

    open spec fn view(&self) -> DisplayModel {
        DisplayModel {
            line1: self.line1@,
            line2: self.line2@,
            cursor_row: self.cursor_row,
            cursor_col: self.cursor_col,
        }
    }
}

impl Default for DisplayState {
    /// The shadow of a blank display.
    fn default() -> (d: Self)
        ensures
            d@ == empty_display(),
    {
        DisplayState { line1: String::new(), line2: String::new(), cursor_row: 0, cursor_col: 0 }
    }
}

/// The line that results from overwriting `line` with `text` at column
/// `col`, computed without touching the stored line.
fn build_write_at_line(line: &String, text: &String, col: u8) -> (r: String)
    requires
        text@.len() + col < usize::MAX,
    ensures
        r@ == write_at_line(line@, text@, col as int),
{
    let line_len: usize = line.as_str().unicode_len();
    let text_len: usize = text.as_str().unicode_len();
    let col_n: usize = col as usize;
    let total: usize = if line_len >= col_n + text_len {
        line_len
    } else {
        col_n + text_len
    };
    let mut r = String::new();
    let mut i: usize = 0;
    while i < total
        invariant
            i <= total,
            line_len == line@.len(),
            text_len == text@.len(),
            col_n == col as int,
            total == write_at_line(line@, text@, col as int).len(),
            r@.len() == i,
            forall|j: int| 0 <= j < i ==> r@[j] == write_at_char(line@, text@, col as int, j),
        decreases total - i,
    {
        let c: char = if i >= col_n && i < col_n + text_len {
            text.as_str().get_char(i - col_n)
        } else if i < line_len {
            line.as_str().get_char(i)
        } else {
            ' '
        };
        r.push(c);
        i = i + 1;
    }
    assert(r@ =~= write_at_line(line@, text@, col as int));
    r
}

/// The cursor column after writing `text_len` characters starting at `col`.
fn cursor_after_exec(col: u8, text_len: usize) -> (c: u8)
    requires
        text_len + col < usize::MAX,
    ensures
        c == cursor_after(col, text_len as nat),
{
    let sum: usize = col as usize + text_len;
    if sum > 255 {
        255u8
    } else {
        sum as u8
    }
}

impl DisplayState {
    /// Reset to the blank shadow.
    pub fn clear(&mut self)
        ensures
            final(self)@ == empty_display(),
    {
        self.line1 = String::new();
        self.line2 = String::new();
        self.cursor_row = 0;
        self.cursor_col = 0;
    }

    /// Commit the effect of one display command to the shadow.
    pub fn apply_command(&mut self, command: &DisplayCommand)
        requires
            command matches DisplayCommand::WriteAt { text, .. } ==> text@.len() + 256 < usize::MAX,
        ensures
            final(self)@ == spec_apply(old(self)@, *command),
    {
        match command {
            DisplayCommand::WriteText { line1, line2 } => {
                self.line1 = line1.clone();
                self.line2 = line2.clone();
                self.cursor_row = 0;
                self.cursor_col = 0;
            },
            DisplayCommand::Clear => {
                self.clear();
            },
            DisplayCommand::SetCursor { row, col } => {
                self.cursor_row = *row;
                self.cursor_col = *col;
            },
            DisplayCommand::WriteAt { text, row, col } => {
                let new_line = if *row == 0 {
                    build_write_at_line(&self.line1, text, *col)
                } else {
                    build_write_at_line(&self.line2, text, *col)
                };
                if *row == 0 {
                    self.line1 = new_line;
                } else {
                    self.line2 = new_line;
                }
                self.cursor_row = *row;
                self.cursor_col = cursor_after_exec(*col, text.as_str().unicode_len());
            },
            DisplayCommand::ScrollText { .. } => {
                self.clear();
            },
        }
    }
}

/// The diff engine: the shadow of what the display currently shows, and the
/// filter that lets only state-changing commands through.
pub struct DisplayDiffer {
    current_state: DisplayState,
}

impl View for DisplayDiffer {
    type V = DisplayModel;

    closed spec fn view(&self) -> DisplayModel {
        self.current_state@
    }
}

impl Default for DisplayDiffer {
    /// A diff engine whose shadow is the blank display.
    fn default() -> (d: Self)
        ensures
            d@ == empty_display(),
    {
        DisplayDiffer { current_state: DisplayState::default() }
    }
}

impl DisplayDiffer {
    /// A diff engine whose shadow is the blank display.
    pub fn new() -> (d: Self)
        ensures
            d@ == empty_display(),
    {
        DisplayDiffer::default()
    }

    /// Filter one desired command: hand it back exactly when it changes
    /// observable state, committing its effect to the shadow in that case and
    /// leaving the shadow untouched otherwise.
    pub fn diff_command(&mut self, command: &DisplayCommand) -> (emitted: Option<DisplayCommand>)
        requires
            command matches DisplayCommand::WriteAt { text, .. } ==> text@.len() + 256 < usize::MAX,
        ensures
            final(self)@ == diff_step(old(self)@, *command),
            emitted matches Some(c) ==> c == *command && emits(old(self)@, *command),
            emitted is None ==> !emits(old(self)@, *command),
    {
        match command {
            DisplayCommand::WriteText { line1, line2 } => {
                if self.current_state.line1 != *line1 || self.current_state.line2 != *line2 {
                    self.current_state.apply_command(command);
                    Some(command.clone())
                } else {
                    None
                }
            },
            DisplayCommand::Clear => {
                if !self.current_state.line1.as_str().is_empty()
                    || !self.current_state.line2.as_str().is_empty() {
                    self.current_state.clear();
                    Some(command.clone())
                } else {
                    None
                }
            },
            DisplayCommand::SetCursor { row, col } => {
                if self.current_state.cursor_row != *row || self.current_state.cursor_col != *col {
                    self.current_state.apply_command(command);
                    Some(command.clone())
                } else {
                    None
                }
            },
            DisplayCommand::WriteAt { text, row, col } => {
                let target = if *row == 0 {
                    &self.current_state.line1
                } else {
                    &self.current_state.line2
                };
                let new_line = build_write_at_line(target, text, *col);
                let new_col = cursor_after_exec(*col, text.as_str().unicode_len());
                if new_line != *target || self.current_state.cursor_row != *row
                    || self.current_state.cursor_col != new_col {
                    if *row == 0 {
                        self.current_state.line1 = new_line;
                    } else {
                        self.current_state.line2 = new_line;
                    }
                    self.current_state.cursor_row = *row;
                    self.current_state.cursor_col = new_col;
                    Some(command.clone())
                } else {
                    None
                }
            },
            DisplayCommand::ScrollText { .. } => {
                self.current_state.clear();
                Some(command.clone())
            },
        }
    }

    /// The current shadow.
    pub fn current_state(&self) -> (s: &DisplayState)
        ensures
            s@ == self@,
    {
        &self.current_state
    }

    /// Forget the shadow, as after the display was modified externally.
    pub fn reset_state(&mut self)
        ensures
            final(self)@ == empty_display(),
    {
        self.current_state = DisplayState::default();
    }
}

/// Law (diff suppression): a text write is emitted exactly when a line
/// differs from the last committed text, so repeating a `WriteText` right
/// after it was emitted is always suppressed.
pub proof fn lemma_write_text_emitted_once(s: DisplayModel, line1: String, line2: String)
    ensures
        !emits(diff_step(s, DisplayCommand::WriteText { line1, line2 }), DisplayCommand::WriteText { line1, line2 }),
{
}

/// Law (suppression is exact): a suppressed command never hides a change
/// of the displayed text, and a suppressed cursor move or in-place write
/// would not have changed the state at all. Suppressing must be exact
/// because a falsely suppressed write is a user-visible bug.
pub proof fn lemma_no_false_suppression(s: DisplayModel, command: DisplayCommand)
    requires
        !emits(s, command),
    ensures
        spec_apply(s, command).line1 == s.line1,
        spec_apply(s, command).line2 == s.line2,
        command matches DisplayCommand::SetCursor { .. } ==> spec_apply(s, command) == s,
        command matches DisplayCommand::WriteAt { .. } ==> spec_apply(s, command) == s,
{
    match command {
        DisplayCommand::WriteText { .. } => {
        },
        DisplayCommand::Clear => {
            assert(spec_apply(s, command).line1 =~= s.line1);
            assert(spec_apply(s, command).line2 =~= s.line2);
        },
        DisplayCommand::SetCursor { .. } => {
            assert(spec_apply(s, command) =~= s);
        },
        DisplayCommand::WriteAt { .. } => {
            assert(spec_apply(s, command) =~= s);
        },
        DisplayCommand::ScrollText { .. } => {
        },
    }
}

/// Law (write-at round trip): overwriting an empty line at a column yields
/// the text at that column, spaces before it, and nothing after it.
pub proof fn lemma_write_at_empty_line(text: Seq<char>, col: int)
    requires
        0 <= col,
    ensures
        write_at_line(Seq::<char>::empty(), text, col).len() == col + text.len(),
        forall|i: int| 0 <= i < col ==> #[trigger] write_at_line(Seq::<char>::empty(), text, col)[i] == ' ',
        forall|i: int| col <= i < col + text.len() ==> #[trigger] write_at_line(Seq::<char>::empty(), text, col)[i] == text[i - col],
{
}

} // verus!
