//! The mathematical model of the editor state and the transition function
//! that every editing command is interpreted by. The executable editor in
//! `editor` is proved to follow `step_spec` exactly.

use vstd::prelude::*;
use crate::input::{Command, Mode};
use crate::input::parse_terminal_spec;

verus! {

/// The abstract editor state: the buffer as a sequence of lines (each a
/// sequence of characters), the 1-based cursor position, the cached gutter
/// width, the mode, the transient command-line text, and the last-known
/// terminal dimensions.
#[verifier::ext_equal]
pub ghost struct Model {
    pub terminal_w: int,
    pub terminal_h: int,
    pub cur_row: int,
    pub cur_col: int,
    pub line_numbers: int,
    pub mode: Mode,
    pub lines: Seq<Seq<char>>,
    pub command: Seq<char>,
}

impl Model {
    /// The line the cursor is on.
    pub open spec fn cur_line(self) -> Seq<char> {
        self.lines[self.cur_row - 1]
    }

    /// The cursor/buffer invariant: the buffer always holds at least one
    /// line, the cursor row names one of them, and the cursor column lies
    /// within the line, one past its end (the append position) included.
    pub open spec fn wf(self) -> bool {
        &&& 1 <= self.cur_row <= self.lines.len()
        &&& 1 <= self.cur_col <= self.cur_line().len() + 1
    }
}

/// The number of decimal digits of `n` (1 for 0).
pub open spec fn digits(n: nat) -> nat
    decreases n,
{
    if n < 10 {
        1
    } else {
        1 + digits(n / 10)
    }
}

/// The width of the line-number gutter: one column per digit of the line
/// count, plus one for the separator.
pub open spec fn gutter(nlines: nat) -> int {
    digits(nlines) as int + 1
}

/// Clamp a column into `[1, line_len + 1]` from above; a column of an empty
/// line becomes 1.
pub open spec fn clamp_col(col: int, line_len: int) -> int {
    if line_len < col {
        line_len + 1
    } else {
        col
    }
}

/// Insert `c` before the cursor column and advance the cursor by one.
/// At the (unreachable in practice) cursor-column ceiling the command is
/// dropped rather than letting the column wrap.
pub open spec fn insert_char_m(m: Model, c: char) -> Model {
    if m.cur_col < u16::MAX as int {
        (Model {
            lines: m.lines.update(m.cur_row - 1, m.cur_line().insert(m.cur_col - 1, c)),
            cur_col: m.cur_col + 1,
            ..m
        })
    } else {
        m
    }
}

/// Insert-mode backspace: left of the gutter boundary it is a no-op; else
/// the cursor steps left and the character at the new column is removed.
pub open spec fn delete_back_m(m: Model) -> Model {
    if m.cur_col > m.line_numbers - 1 {
        (Model {
            cur_col: m.cur_col - 1,
            lines: m.lines.update(m.cur_row - 1, m.cur_line().remove(m.cur_col - 2)),
            ..m
        })
    } else {
        m
    }
}

/// Normal-mode forward delete: remove the character under the cursor if one
/// exists; the cursor does not move. On an empty line (or with the cursor at
/// the append position) nothing happens.
pub open spec fn delete_at_m(m: Model) -> Model {
    if m.cur_col - 1 < m.cur_line().len() {
        (Model { lines: m.lines.update(m.cur_row - 1, m.cur_line().remove(m.cur_col - 1)), ..m })
    } else {
        m
    }
}

/// Split the cursor line at the cursor column. At or past the line end an
/// empty line is appended below and the cursor moves to its start; at column
/// 1 an empty line is inserted above and the row advances; otherwise the
/// tail from the cursor column onward becomes a new line below and the
/// cursor moves to its first column. No sentinel newline character is ever
/// stored. At the row ceiling the command is dropped.
pub open spec fn newline_m(m: Model) -> Model {
    if m.cur_row >= u16::MAX as int {
        m
    } else if m.cur_col >= m.cur_line().len() + 1 {
        (Model {
            lines: m.lines.insert(m.cur_row, Seq::empty()),
            cur_row: m.cur_row + 1,
            cur_col: 1,
            ..m
        })
    } else if m.cur_col == 1 {
        (Model { lines: m.lines.insert(m.cur_row - 1, Seq::empty()), cur_row: m.cur_row + 1, ..m })
    } else {
        (Model {
            lines: m.lines.update(
                m.cur_row - 1,
                m.cur_line().subrange(0, m.cur_col - 1),
            ).insert(m.cur_row, m.cur_line().subrange(m.cur_col - 1, m.cur_line().len() as int)),
            cur_row: m.cur_row + 1,
            cur_col: 1,
            ..m
        })
    }
}

/// Move up one row if possible, then clamp the column to the new line.
pub open spec fn move_up_m(m: Model) -> Model {
    if m.cur_row > 1 {
        let r = m.cur_row - 1;
        (Model { cur_row: r, cur_col: clamp_col(m.cur_col, m.lines[r - 1].len() as int), ..m })
    } else {
        m
    }
}

/// Move down one row if one exists, then clamp the column to the new line.
pub open spec fn move_down_m(m: Model) -> Model {
    if m.cur_row < m.lines.len() && m.cur_row < u16::MAX as int {
        let r = m.cur_row + 1;
        (Model { cur_row: r, cur_col: clamp_col(m.cur_col, m.lines[r - 1].len() as int), ..m })
    } else {
        m
    }
}

/// Move right, clamped at one past the line end (the append position).
pub open spec fn move_right_m(m: Model) -> Model {
    if m.cur_col <= m.cur_line().len() && m.cur_col < u16::MAX as int {
        (Model { cur_col: m.cur_col + 1, ..m })
    } else {
        m
    }
}

/// Move left, clamped at the gutter boundary.
pub open spec fn move_left_m(m: Model) -> Model {
    if m.cur_col > m.line_numbers - 1 {
        (Model { cur_col: m.cur_col - 1, ..m })
    } else {
        m
    }
}

/// Record a successful save: back to Normal mode. (Persistence itself is a
/// stub that always succeeds; a failure would surface its message in the
/// command-line area instead, see `Global::finish_save`.)
pub open spec fn save_m(m: Model) -> Model {
    (Model { mode: Mode::Normal, ..m })
}

/// Execute the buffered command-line text: clear it, then save, quit, save
/// and quit, or — for unrecognized text — just return to Normal mode.
pub open spec fn exec_command_m(m: Model) -> (Model, bool) {
    let cleared = Model { command: Seq::empty(), ..m };
    match parse_terminal_spec(m.command) {
        Command::Save => (save_m(cleared), false),
        Command::Quit => (cleared, true),
        Command::SaveQuit => (cleared, true),
        _ => ((Model { mode: Mode::Normal, ..cleared }), false),
    }
}

/// Inserting a character keeps the cursor/buffer invariant.
pub proof fn lemma_insert_char_wf(m: Model, c: char)
    requires
        m.wf(),
    ensures
        insert_char_m(m, c).wf(),
{
    if m.cur_col < u16::MAX as int {
        let m1 = insert_char_m(m, c);
        assert(m1.cur_line() == m.cur_line().insert(m.cur_col - 1, c));
        assert(m1.cur_line().len() == m.cur_line().len() + 1);
    }
}

/// One editor step: recompute the gutter width from the current line count,
/// then interpret the command. The returned flag says whether the editor
/// should terminate.
pub open spec fn step_spec(pre: Model, cmd: Command) -> (Model, bool) {
    let m = Model { line_numbers: gutter(pre.lines.len()), ..pre };
    match cmd {
        Command::Invalid => (m, false),
        Command::EnterNormalMode => (
            (Model { mode: Mode::Normal, command: Seq::empty(), ..m }),
            false,
        ),
        Command::EnterInsertMode => ((Model { mode: Mode::Insert, ..m }), false),
        Command::EnterCommandMode => (
            (Model { mode: Mode::CommandMode, command: Seq::empty(), ..m }),
            false,
        ),
        Command::InsertCommandChar(c) => ((Model { command: m.command.push(c), ..m }), false),
        Command::PopCommandChar => (
            (Model {
                command: if m.command.len() > 0 {
                    m.command.drop_last()
                } else {
                    m.command
                },
                ..m
            }),
            false,
        ),
        Command::ExecuteCommand => exec_command_m(m),
        Command::InsertChar(c) => (insert_char_m(m, c), false),
        Command::Tab => (
            insert_char_m(insert_char_m(insert_char_m(insert_char_m(m, ' '), ' '), ' '), ' '),
            false,
        ),
        Command::NewLine => (newline_m(m), false),
        Command::DeleteChar => (delete_back_m(m), false),
        Command::DeleteCharX => (delete_at_m(m), false),
        Command::MoveUp => (move_up_m(m), false),
        Command::MoveDown => (move_down_m(m), false),
        Command::MoveRight => (move_right_m(m), false),
        Command::MoveLeft => (move_left_m(m), false),
        Command::Save => (save_m(m), false),
        Command::SaveQuit => (m, true),
        Command::Quit => (m, true),
    }
}

} // verus!
