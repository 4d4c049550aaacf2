//! Global properties of the editor, proved once and for all over the model:
//! every command keeps the cursor and buffer invariants, inserting and then
//! backspacing restores the line, and splitting a line loses no characters.

use vstd::prelude::*;
use crate::input::Command;
use crate::model::{
    delete_at_m, delete_back_m, digits, gutter, insert_char_m, lemma_insert_char_wf, newline_m,
    step_spec, Model,
};

verus! {

/// Backspace keeps the invariant whenever the gutter width is at least 2,
/// which it always is: the gutter holds at least one digit plus the
/// separator.
proof fn lemma_delete_back_wf(m: Model)
    requires
        m.wf(),
        m.line_numbers >= 2,
    ensures
        delete_back_m(m).wf(),
{
    if m.cur_col > m.line_numbers - 1 {
        assert(delete_back_m(m).cur_line() == m.cur_line().remove(m.cur_col - 2));
    }
}

/// Forward delete keeps the invariant.
proof fn lemma_delete_at_wf(m: Model)
    requires
        m.wf(),
    ensures
        delete_at_m(m).wf(),
{
    if m.cur_col - 1 < m.cur_line().len() {
        assert(delete_at_m(m).cur_line() == m.cur_line().remove(m.cur_col - 1));
    }
}

/// Splitting the cursor line keeps the invariant.
proof fn lemma_newline_wf(m: Model)
    requires
        m.wf(),
    ensures
        newline_m(m).wf(),
{
    let r = m.cur_row;
    if m.cur_row >= u16::MAX as int {
    } else if m.cur_col >= m.cur_line().len() + 1 {
        assert(newline_m(m).cur_line() == Seq::<char>::empty());
    } else if m.cur_col == 1 {
        assert(newline_m(m).cur_line() == m.lines[r - 1]);
    } else {
        assert(newline_m(m).cur_line() == m.cur_line().subrange(
            m.cur_col - 1,
            m.cur_line().len() as int,
        ));
    }
}

/// Every single command keeps the cursor/buffer invariant: the buffer never
/// loses its last line, the cursor row always names a line, and the cursor
/// column never leaves `[1, line length + 1]`.
pub proof fn lemma_step_preserves_wf(m: Model, cmd: Command)
    requires
        m.wf(),
    ensures
        step_spec(m, cmd).0.wf(),
{
    let m1 = Model { line_numbers: gutter(m.lines.len()), ..m };
    assert(m1.wf());
    assert(digits(m.lines.len()) >= 1);
    assert(m1.line_numbers >= 2);
    match cmd {
        Command::InsertChar(c) => {
            lemma_insert_char_wf(m1, c);
        },
        Command::Tab => {
            lemma_insert_char_wf(m1, ' ');
            lemma_insert_char_wf(insert_char_m(m1, ' '), ' ');
            lemma_insert_char_wf(insert_char_m(insert_char_m(m1, ' '), ' '), ' ');
            lemma_insert_char_wf(
                insert_char_m(insert_char_m(insert_char_m(m1, ' '), ' '), ' '),
                ' ',
            );
        },
        Command::NewLine => {
            lemma_newline_wf(m1);
        },
        Command::DeleteChar => {
            lemma_delete_back_wf(m1);
        },
        Command::DeleteCharX => {
            lemma_delete_at_wf(m1);
        },
        _ => {
        },
    }
}

/// The state an editor that started at `m` is in after the whole command
/// sequence `cmds` has been applied, in order.
pub open spec fn run_spec(m: Model, cmds: Seq<Command>) -> Model
    decreases cmds.len(),
{
    if cmds.len() == 0 {
        m
    } else {
        run_spec(step_spec(m, cmds[0]).0, cmds.drop_first())
    }
}

/// For any sequence of commands — moves, edits, mode switches — a state
/// that satisfies the invariant only reaches states that satisfy it: the
/// buffer never has zero lines, the cursor row stays within
/// `[1, line count]`, and the cursor column stays within
/// `[1, line length + 1]`.
pub proof fn lemma_run_preserves_wf(m: Model, cmds: Seq<Command>)
    requires
        m.wf(),
    ensures
        run_spec(m, cmds).wf(),
        run_spec(m, cmds).lines.len() >= 1,
        1 <= run_spec(m, cmds).cur_row <= run_spec(m, cmds).lines.len(),
    decreases cmds.len(),
{
    if cmds.len() > 0 {
        lemma_step_preserves_wf(m, cmds[0]);
        lemma_run_preserves_wf(step_spec(m, cmds[0]).0, cmds.drop_first());
    }
}

/// Movement commands never touch the buffer, and they keep the cursor row
/// within `[1, line count]` and the cursor column within
/// `[1, line length + 1]` of the line the cursor lands on.
pub proof fn lemma_moves_preserve_bounds(m: Model, cmd: Command)
    requires
        m.wf(),
        cmd is MoveUp || cmd is MoveDown || cmd is MoveLeft || cmd is MoveRight,
    ensures
        ({
            let m1 = step_spec(m, cmd).0;
            &&& m1.lines == m.lines
            &&& 1 <= m1.cur_row <= m1.lines.len()
            &&& 1 <= m1.cur_col <= m1.cur_line().len() + 1
        }),
{
    lemma_step_preserves_wf(m, cmd);
}

/// Horizontal movement additionally respects the gutter boundary: a cursor
/// column at or right of (gutter width - 1) stays there. (Vertical moves do
/// not: landing on a short or empty line clamps the column down, to 1 at
/// the least, whatever the gutter width is.)
pub proof fn lemma_horizontal_moves_respect_gutter(m: Model, cmd: Command)
    requires
        m.wf(),
        cmd is MoveLeft || cmd is MoveRight,
        m.cur_col >= gutter(m.lines.len()) - 1,
    ensures
        ({
            let m1 = step_spec(m, cmd).0;
            &&& m1.cur_col >= gutter(m1.lines.len()) - 1
            &&& m1.cur_col <= m1.cur_line().len() + 1
        }),
{
    lemma_step_preserves_wf(m, cmd);
}

/// Over any sequence of horizontal moves the cursor stays at or right of
/// (gutter width - 1) and never passes one beyond the line end. The buffer
/// itself is untouched by moves, so the gutter width is the same throughout.
pub proof fn lemma_horizontal_run_respects_gutter(m: Model, cmds: Seq<Command>)
    requires
        m.wf(),
        m.cur_col >= gutter(m.lines.len()) - 1,
        forall|i: int| 0 <= i < cmds.len() ==> cmds[i] is MoveLeft || cmds[i] is MoveRight,
    ensures
        ({
            let m1 = run_spec(m, cmds);
            &&& m1.lines == m.lines
            &&& m1.cur_col >= gutter(m1.lines.len()) - 1
            &&& m1.cur_col <= m1.cur_line().len() + 1
        }),
    decreases cmds.len(),
{
    if cmds.len() == 0 {
    } else {
        let m1 = step_spec(m, cmds[0]).0;
        lemma_step_preserves_wf(m, cmds[0]);
        lemma_moves_preserve_bounds(m, cmds[0]);
        lemma_horizontal_moves_respect_gutter(m, cmds[0]);
        assert(forall|i: int|
            0 <= i < cmds.drop_first().len() ==> #[trigger] cmds.drop_first()[i] == cmds[i + 1]);
        lemma_horizontal_run_respects_gutter(m1, cmds.drop_first());
    }
}

/// Inserting a character and then backspacing restores the original line
/// content and cursor position exactly, provided the insertion really
/// happened (the cursor column is below its ceiling) and the cursor is not
/// left of the gutter boundary, where backspace refuses to act.
pub proof fn lemma_insert_then_delete(m: Model, c: char)
    requires
        m.wf(),
        m.cur_col < u16::MAX as int,
        m.cur_col >= gutter(m.lines.len()) - 1,
    ensures
        ({
            let m1 = step_spec(m, Command::InsertChar(c)).0;
            let m2 = step_spec(m1, Command::DeleteChar).0;
            &&& m2.lines == m.lines
            &&& m2.cur_row == m.cur_row
            &&& m2.cur_col == m.cur_col
            &&& m2.mode == m.mode
            &&& m2.command == m.command
        }),
{
    let r = m.cur_row;
    let col = m.cur_col;
    let line = m.cur_line();
    let m1 = step_spec(m, Command::InsertChar(c)).0;
    let m2 = step_spec(m1, Command::DeleteChar).0;
    assert(m1.cur_col == col + 1);
    assert(m1.cur_line() == line.insert(col - 1, c));
    assert(m1.lines.len() == m.lines.len());
    assert(m2.cur_col == col);
    assert(line.insert(col - 1, c).remove(col - 1) =~= line);
    assert(m2.lines =~= m.lines);
}

/// Splitting a line loses no characters: the two lines that replace it hold
/// exactly the characters of the original, in order. Splitting at one past
/// the line end leaves an empty trailing line; splitting at column 1 leaves
/// an empty line above the original content.
pub proof fn lemma_split_preserves_chars(m: Model)
    requires
        m.wf(),
        m.cur_row < u16::MAX as int,
    ensures
        ({
            let m1 = step_spec(m, Command::NewLine).0;
            let r = m.cur_row;
            &&& m1.lines.len() == m.lines.len() + 1
            &&& m1.lines[r - 1].len() + m1.lines[r].len() == m.cur_line().len()
            &&& (m.cur_col == m.cur_line().len() + 1 ==> m1.lines[r] == Seq::<char>::empty())
            &&& (m.cur_col == 1 && m.cur_line().len() > 0 ==> m1.lines[r - 1]
                == Seq::<char>::empty() && m1.lines[r] == m.cur_line())
        }),
{
    let r = m.cur_row;
    let line = m.cur_line();
    let m1 = step_spec(m, Command::NewLine).0;
    if m.cur_col >= line.len() + 1 {
        assert(m1.lines[r - 1] == line);
        assert(m1.lines[r] == Seq::<char>::empty());
    } else if m.cur_col == 1 {
        assert(m1.lines[r - 1] == Seq::<char>::empty());
        assert(m1.lines[r] == line);
    } else {
        assert(m1.lines[r - 1] == line.subrange(0, m.cur_col - 1));
        assert(m1.lines[r] == line.subrange(m.cur_col - 1, line.len() as int));
    }
}

} // verus!
