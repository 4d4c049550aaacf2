//! The executable editor state and its operations: the line buffer, the
//! cursor, the gutter width, the mode and the command-line text, together
//! with the primitive buffer mutations. Every operation is proved against
//! the model in `model`.

use vstd::prelude::*;
use crate::input::{Command, Mode};
use crate::input::parse_terminal_command;
use crate::model::{
    clamp_col, delete_at_m, delete_back_m, digits, gutter, insert_char_m, lemma_insert_char_wf,
    move_down_m, move_left_m, move_right_m, move_up_m, newline_m, step_spec, Model,
};

verus! {

/// One line of the buffer: an ordered sequence of characters, owned
/// exclusively by the buffer. Insertion order is display order.
pub struct Line {
    pub chars: Vec<char>,
}

impl View for Line {
    type V = Seq<char>;

    open spec fn view(&self) -> Seq<char> {
        self.chars@
    }
}

impl Line {
    /// A fresh, empty line.
    pub fn new() -> (line: Line)
        ensures
            line@ == Seq::<char>::empty(),
    {
        Line { chars: Vec::new() }
    }
}

/// The whole editor state: terminal dimensions, 1-based cursor position,
/// cached gutter width, current mode, the line buffer, and the transient
/// command-line text.
pub struct Global {
    pub terminal_w: u16,
    pub terminal_h: u16,
    pub cur_row: u16,
    pub cur_col: u16,
    pub line_numbers: u16,
    pub mode: Mode,
    pub lines: Vec<Line>,
    pub command: Vec<char>,
}

impl View for Global {
    type V = Model;

    open spec fn view(&self) -> Model {
        Model {
            terminal_w: self.terminal_w as int,
            terminal_h: self.terminal_h as int,
            cur_row: self.cur_row as int,
            cur_col: self.cur_col as int,
            line_numbers: self.line_numbers as int,
            mode: self.mode,
            lines: Seq::new(self.lines@.len(), |i: int| self.lines@[i]@),
            command: self.command@,
        }
    }
}

/// Ten to the `k`.
spec fn pow10(k: nat) -> nat
    decreases k,
{
    if k == 0 {
        1
    } else {
        10 * pow10((k - 1) as nat)
    }
}

/// A number below ten to the `k` has at most `k` decimal digits.
proof fn lemma_digits_lt_pow(n: nat, k: nat)
    requires
        1 <= k,
        n < pow10(k),
    ensures
        digits(n) <= k,
    decreases k,
{
    if n < 10 {
    } else {
        assert(pow10(k) == 10 * pow10((k - 1) as nat));
        assert(n == 10 * (n / 10) + n % 10) by {
            vstd::arithmetic::div_mod::lemma_fundamental_div_mod(n as int, 10);
        }
        assert(n / 10 < pow10((k - 1) as nat));
        lemma_digits_lt_pow(n / 10, (k - 1) as nat);
    }
}

/// Any line count that fits in a machine word has at most 20 decimal digits.
proof fn lemma_digits_bound(n: nat)
    requires
        n <= u64::MAX,
    ensures
        digits(n) <= 20,
{
    reveal_with_fuel(pow10, 21);
    assert(pow10(20) == 100000000000000000000);
    assert(n < pow10(20));
    lemma_digits_lt_pow(n, 20);
}

impl Global {
    /// The state at startup: no lines yet (one is pushed before the first
    /// tick), cursor at the origin, Normal mode, empty command-line text.
    pub fn new() -> (g: Global)
        ensures
            g@.lines == Seq::<Seq<char>>::empty(),
            g@.cur_row == 1,
            g@.cur_col == 1,
            g@.line_numbers == 0,
            g@.mode == Mode::Normal,
            g@.command == Seq::<char>::empty(),
            g@.terminal_w == 0,
            g@.terminal_h == 0,
    {
        let g = Global {
            terminal_w: 0,
            terminal_h: 0,
            cur_row: 1,
            cur_col: 1,
            line_numbers: 0,
            mode: Mode::Normal,
            lines: Vec::new(),
            command: Vec::new(),
        };
        proof {
            assert(g@.lines =~= Seq::<Seq<char>>::empty());
        }
        g
    }

    /// Record the terminal dimensions the environment reports; nothing else
    /// changes. (Querying the terminal is the caller's business.)
    pub fn set_terminal_size(&mut self, w: u16, h: u16)
        ensures
            final(self)@ == (Model {
                terminal_w: w as int,
                terminal_h: h as int,
                ..old(self)@
            }),
    {
        self.terminal_w = w;
        self.terminal_h = h;
        proof {
            assert(self@ =~~= (Model { terminal_w: w as int, terminal_h: h as int, ..old(self)@ }));
        }
    }

    /// Recompute the gutter width as digits(line count) + 1. The cached
    /// value is only as fresh as the last call; every editor step calls
    /// this before interpreting a command.
    pub fn update_line_numbers(&mut self)
        ensures
            final(self)@ == (Model { line_numbers: gutter(old(self)@.lines.len()), ..old(self)@ }),
    {
        let ghost n0 = self.lines@.len();
        let mut n: usize = self.lines.len();
        let mut d: u16 = 1;
        proof {
            lemma_digits_bound(n0);
        }
        while n >= 10
            invariant
                d as nat + digits(n as nat) == 1 + digits(n0),
                digits(n0) <= 20,
            decreases n,
        {
            n = n / 10;
            d = d + 1;
        }
        self.line_numbers = d + 1;
        proof {
            assert(digits(n as nat) == 1);
            assert(self@ =~~= (Model { line_numbers: gutter(old(self)@.lines.len()), ..old(self)@ }));
        }
    }

    /// Append a line at the bottom of the buffer.
    pub fn new_line(&mut self, line: Line)
        ensures
            final(self)@ == (Model { lines: old(self)@.lines.push(line@), ..old(self)@ }),
    {
        self.lines.push(line);
        proof {
            assert(self@ =~~= (Model { lines: old(self)@.lines.push(line@), ..old(self)@ }));
        }
    }

    /// The line the cursor is on.
    pub fn current_line(&self) -> (line: &Line)
        requires
            1 <= self@.cur_row <= self@.lines.len(),
        ensures
            line@ == self@.cur_line(),
    {
        &self.lines[(self.cur_row - 1) as usize]
    }

    /// Discard the command-line text.
    pub fn clear_command(&mut self)
        ensures
            final(self)@ == (Model { command: Seq::<char>::empty(), ..old(self)@ }),
    {
        self.command.clear();
        proof {
            assert(self@ =~~= (Model { command: Seq::<char>::empty(), ..old(self)@ }));
        }
    }

    /// Insert `ch` before position `col` (1-based) in the line at `row`
    /// (1-based). Callers must clamp first: the bounds are a precondition,
    /// not a runtime check.
    pub fn insert_char(&mut self, row: u16, col: u16, ch: char)
        requires
            1 <= row <= old(self)@.lines.len(),
            1 <= col <= old(self)@.lines[row - 1].len() + 1,
        ensures
            final(self)@ == (Model {
                lines: old(self)@.lines.update(
                    row - 1,
                    old(self)@.lines[row - 1].insert(col - 1, ch),
                ),
                ..old(self)@
            }),
    {
        self.lines[(row - 1) as usize].chars.insert((col - 1) as usize, ch);
        proof {
            assert(self@ =~~= (Model {
                lines: old(self)@.lines.update(
                    row - 1,
                    old(self)@.lines[row - 1].insert(col - 1, ch),
                ),
                ..old(self)@
            }));
        }
    }

    /// Remove the character at position `col` (1-based) of the line at
    /// `row` (1-based). The character must exist.
    pub fn remove_char(&mut self, row: u16, col: u16)
        requires
            1 <= row <= old(self)@.lines.len(),
            1 <= col <= old(self)@.lines[row - 1].len(),
        ensures
            final(self)@ == (Model {
                lines: old(self)@.lines.update(
                    row - 1,
                    old(self)@.lines[row - 1].remove(col - 1),
                ),
                ..old(self)@
            }),
    {
        self.lines[(row - 1) as usize].chars.remove((col - 1) as usize);
        proof {
            assert(self@ =~~= (Model {
                lines: old(self)@.lines.update(
                    row - 1,
                    old(self)@.lines[row - 1].remove(col - 1),
                ),
                ..old(self)@
            }));
        }
    }

    /// Split the line at `row` in two at column `col`: the head (before
    /// `col`) stays in place, the tail becomes a new line immediately
    /// below. The buffer grows by one line; no characters are gained or
    /// lost.
    pub fn split_line(&mut self, row: u16, col: u16)
        requires
            1 <= row <= old(self)@.lines.len(),
            1 <= col <= old(self)@.lines[row - 1].len() + 1,
        ensures
            final(self)@ == (Model {
                lines: old(self)@.lines.update(
                    row - 1,
                    old(self)@.lines[row - 1].subrange(0, col - 1),
                ).insert(
                    row as int,
                    old(self)@.lines[row - 1].subrange(
                        col - 1,
                        old(self)@.lines[row - 1].len() as int,
                    ),
                ),
                ..old(self)@
            }),
    {
        let tail: Vec<char> = self.lines[(row - 1) as usize].chars.split_off((col - 1) as usize);
        self.lines.insert(row as usize, Line { chars: tail });
        proof {
            assert(self@ =~~= (Model {
                lines: old(self)@.lines.update(
                    row - 1,
                    old(self)@.lines[row - 1].subrange(0, col - 1),
                ).insert(
                    row as int,
                    old(self)@.lines[row - 1].subrange(
                        col - 1,
                        old(self)@.lines[row - 1].len() as int,
                    ),
                ),
                ..old(self)@
            }));
        }
    }

    /// Insert `line` at 0-based buffer index `at`; lines at and after `at`
    /// shift down by one. This and `split_line` are the only operations
    /// that grow the line count.
    pub fn insert_line(&mut self, at: usize, line: Line)
        requires
            at <= old(self)@.lines.len(),
        ensures
            final(self)@ == (Model {
                lines: old(self)@.lines.insert(at as int, line@),
                ..old(self)@
            }),
    {
        self.lines.insert(at, line);
        proof {
            assert(self@ =~~= (Model {
                lines: old(self)@.lines.insert(at as int, line@),
                ..old(self)@
            }));
        }
    }

    /// Clamp the cursor column into the current line: at most one past the
    /// line end, and column 1 on an empty line. Called after any vertical
    /// move or mutation that could shrink the current line.
    pub fn clamp_column_to_line(&mut self)
        requires
            1 <= old(self)@.cur_row <= old(self)@.lines.len(),
        ensures
            final(self)@ == (Model {
                cur_col: clamp_col(old(self)@.cur_col, old(self)@.cur_line().len() as int),
                ..old(self)@
            }),
    {
        let len: usize = self.lines[(self.cur_row - 1) as usize].chars.len();
        if len < self.cur_col as usize {
            self.cur_col = (len as u16) + 1;
        }
        proof {
            assert(self@ =~~= (Model {
                cur_col: clamp_col(old(self)@.cur_col, old(self)@.cur_line().len() as int),
                ..old(self)@
            }));
        }
    }

    /// Insert `c` at the cursor and advance the cursor column.
    fn apply_insert_char(&mut self, c: char)
        requires
            old(self)@.wf(),
        ensures
            final(self)@ == insert_char_m(old(self)@, c),
    {
        if self.cur_col < u16::MAX {
            let row = self.cur_row;
            let col = self.cur_col;
            self.insert_char(row, col, c);
            self.cur_col = col + 1;
            proof {
                assert(self@ =~~= insert_char_m(old(self)@, c));
            }
        }
    }

    /// Insert-mode backspace at the cursor.
    fn apply_delete_back(&mut self)
        requires
            old(self)@.wf(),
            old(self)@.line_numbers >= 2,
        ensures
            final(self)@ == delete_back_m(old(self)@),
    {
        if self.cur_col > self.line_numbers - 1 {
            self.cur_col = self.cur_col - 1;
            let row = self.cur_row;
            let col = self.cur_col;
            self.remove_char(row, col);
            proof {
                assert(self@ =~~= delete_back_m(old(self)@));
            }
        }
    }

    /// Normal-mode forward delete at the cursor.
    fn apply_delete_at(&mut self)
        requires
            old(self)@.wf(),
        ensures
            final(self)@ == delete_at_m(old(self)@),
    {
        let len: usize = self.current_line().chars.len();
        if ((self.cur_col - 1) as usize) < len {
            let row = self.cur_row;
            let col = self.cur_col;
            self.remove_char(row, col);
            proof {
                assert(self@ =~~= delete_at_m(old(self)@));
            }
        }
    }

    /// Move the cursor up one row, clamping the column to the new line.
    fn apply_move_up(&mut self)
        requires
            old(self)@.wf(),
        ensures
            final(self)@ == move_up_m(old(self)@),
    {
        if self.cur_row > 1 {
            self.cur_row = self.cur_row - 1;
            self.clamp_column_to_line();
            proof {
                assert(self@ =~~= move_up_m(old(self)@));
            }
        }
    }

    /// Move the cursor down one row, clamping the column to the new line.
    fn apply_move_down(&mut self)
        requires
            old(self)@.wf(),
        ensures
            final(self)@ == move_down_m(old(self)@),
    {
        if (self.cur_row as usize) < self.lines.len() && self.cur_row < u16::MAX {
            self.cur_row = self.cur_row + 1;
            self.clamp_column_to_line();
            proof {
                assert(self@ =~~= move_down_m(old(self)@));
            }
        }
    }

    /// Move the cursor right, clamped at one past the line end.
    fn apply_move_right(&mut self)
        requires
            old(self)@.wf(),
        ensures
            final(self)@ == move_right_m(old(self)@),
    {
        let len: usize = self.current_line().chars.len();
        if (self.cur_col as usize) <= len && self.cur_col < u16::MAX {
            self.cur_col = self.cur_col + 1;
        }
        proof {
            assert(self@ =~~= move_right_m(old(self)@));
        }
    }

    /// Move the cursor left, clamped at the gutter boundary.
    fn apply_move_left(&mut self)
        requires
            old(self)@.line_numbers >= 1,
        ensures
            final(self)@ == move_left_m(old(self)@),
    {
        if self.cur_col > self.line_numbers - 1 {
            self.cur_col = self.cur_col - 1;
        }
        proof {
            assert(self@ =~~= move_left_m(old(self)@));
        }
    }

    /// Split the cursor line at the cursor column, as `newline_m` says.
    fn apply_newline(&mut self)
        requires
            old(self)@.wf(),
        ensures
            final(self)@ == newline_m(old(self)@),
    {
        if self.cur_row < u16::MAX {
            let row = self.cur_row;
            let col = self.cur_col;
            let len: usize = self.current_line().chars.len();
            if col as usize > len {
                self.insert_line(row as usize, Line::new());
                self.cur_row = row + 1;
                self.cur_col = 1;
                proof {
                    assert(self@ =~~= newline_m(old(self)@));
                }
            } else if col == 1 {
                self.insert_line((row - 1) as usize, Line::new());
                self.cur_row = row + 1;
                proof {
                    assert(self@ =~~= newline_m(old(self)@));
                }
            } else {
                self.split_line(row, col);
                self.cur_row = row + 1;
                self.cur_col = 1;
                proof {
                    assert(self@ =~~= newline_m(old(self)@));
                }
            }
        }
    }

    /// Record the outcome of a save. On success the editor returns to
    /// Normal mode, or terminates when `quit_on_ok` asks for it (the
    /// save-and-quit path). On failure the editor stays alive: the error
    /// message is placed in the command-line display area and the mode
    /// returns to Normal.
    pub fn finish_save(&mut self, res: Result<(), Vec<char>>, quit_on_ok: bool) -> (quit: bool)
        ensures
            res is Ok && quit_on_ok ==> quit && final(self)@ == old(self)@,
            res is Ok && !quit_on_ok ==> !quit && final(self)@ == (Model {
                mode: Mode::Normal,
                ..old(self)@
            }),
            res matches Err(e) ==> !quit && final(self)@ == (Model {
                mode: Mode::Normal,
                command: e@,
                ..old(self)@
            }),
    {
        match res {
            Ok(_) => {
                if quit_on_ok {
                    true
                } else {
                    self.mode = Mode::Normal;
                    proof {
                        assert(self@ =~~= (Model { mode: Mode::Normal, ..old(self)@ }));
                    }
                    false
                }
            },
            Err(e) => {
                let ghost msg = e@;
                self.command = e;
                self.mode = Mode::Normal;
                proof {
                    assert(self@ =~~= (Model { mode: Mode::Normal, command: msg, ..old(self)@ }));
                }
                false
            },
        }
    }

    /// Interpret one decoded command against the editor state. The gutter
    /// width is recomputed first, as every editor tick does; the command is
    /// then applied exactly as `step_spec` states. Returns whether the
    /// editor should terminate.
    pub fn apply(&mut self, cmd: Command) -> (quit: bool)
        requires
            old(self)@.wf(),
        ensures
            final(self)@ == step_spec(old(self)@, cmd).0,
            quit == step_spec(old(self)@, cmd).1,
    {
        self.update_line_numbers();
        let ghost m = self@;
        proof {
            assert(m == (Model { line_numbers: gutter(old(self)@.lines.len()), ..old(self)@ }));
            assert(m.wf());
            assert(digits(old(self)@.lines.len()) >= 1);
            assert(m.line_numbers >= 2);
        }
        match cmd {
            Command::Invalid => false,
            Command::EnterNormalMode => {
                self.mode = Mode::Normal;
                self.clear_command();
                proof {
                    assert(self@ =~~= step_spec(old(self)@, cmd).0);
                }
                false
            },
            Command::EnterInsertMode => {
                self.mode = Mode::Insert;
                proof {
                    assert(self@ =~~= step_spec(old(self)@, cmd).0);
                }
                false
            },
            Command::EnterCommandMode => {
                self.mode = Mode::CommandMode;
                self.clear_command();
                proof {
                    assert(self@ =~~= step_spec(old(self)@, cmd).0);
                }
                false
            },
            Command::InsertCommandChar(c) => {
                self.command.push(c);
                proof {
                    assert(self@ =~~= step_spec(old(self)@, cmd).0);
                }
                false
            },
            Command::PopCommandChar => {
                self.command.pop();
                proof {
                    assert(self@ =~~= step_spec(old(self)@, cmd).0);
                }
                false
            },
            Command::ExecuteCommand => {
                let parsed = parse_terminal_command(&self.command);
                self.clear_command();
                match parsed {
                    Command::Save => {
                        let res = save_file(self);
                        let quit = self.finish_save(res, false);
                        proof {
                            assert(self@ =~~= step_spec(old(self)@, cmd).0);
                        }
                        quit
                    },
                    Command::Quit => {
                        proof {
                            assert(self@ =~~= step_spec(old(self)@, cmd).0);
                        }
                        true
                    },
                    Command::SaveQuit => {
                        let res = save_file(self);
                        let quit = self.finish_save(res, true);
                        proof {
                            assert(self@ =~~= step_spec(old(self)@, cmd).0);
                        }
                        quit
                    },
                    _ => {
                        self.mode = Mode::Normal;
                        proof {
                            assert(self@ =~~= step_spec(old(self)@, cmd).0);
                        }
                        false
                    },
                }
            },
            Command::InsertChar(c) => {
                self.apply_insert_char(c);
                proof {
                    assert(self@ =~~= step_spec(old(self)@, cmd).0);
                }
                false
            },
            Command::Tab => {
                proof {
                    lemma_insert_char_wf(m, ' ');
                    lemma_insert_char_wf(insert_char_m(m, ' '), ' ');
                    lemma_insert_char_wf(insert_char_m(insert_char_m(m, ' '), ' '), ' ');
                }
                self.apply_insert_char(' ');
                self.apply_insert_char(' ');
                self.apply_insert_char(' ');
                self.apply_insert_char(' ');
                proof {
                    assert(self@ =~~= step_spec(old(self)@, cmd).0);
                }
                false
            },
            Command::NewLine => {
                self.apply_newline();
                proof {
                    assert(self@ =~~= step_spec(old(self)@, cmd).0);
                }
                false
            },
            Command::DeleteChar => {
                self.apply_delete_back();
                proof {
                    assert(self@ =~~= step_spec(old(self)@, cmd).0);
                }
                false
            },
            Command::DeleteCharX => {
                self.apply_delete_at();
                proof {
                    assert(self@ =~~= step_spec(old(self)@, cmd).0);
                }
                false
            },
            Command::MoveUp => {
                self.apply_move_up();
                proof {
                    assert(self@ =~~= step_spec(old(self)@, cmd).0);
                }
                false
            },
            Command::MoveDown => {
                self.apply_move_down();
                proof {
                    assert(self@ =~~= step_spec(old(self)@, cmd).0);
                }
                false
            },
            Command::MoveRight => {
                self.apply_move_right();
                proof {
                    assert(self@ =~~= step_spec(old(self)@, cmd).0);
                }
                false
            },
            Command::MoveLeft => {
                self.apply_move_left();
                proof {
                    assert(self@ =~~= step_spec(old(self)@, cmd).0);
                }
                false
            },
            Command::Save => {
                let res = save_file(self);
                let quit = self.finish_save(res, false);
                proof {
                    assert(self@ =~~= step_spec(old(self)@, cmd).0);
                }
                quit
            },
            Command::SaveQuit => {
                let res = save_file(self);
                let quit = self.finish_save(res, true);
                proof {
                    assert(self@ =~~= step_spec(old(self)@, cmd).0);
                }
                quit
            },
            Command::Quit => true,
        }
    }
}

/// Persist the buffer. Persistence is deliberately unimplemented: the stub
/// accepts every snapshot, so saving always succeeds. A real implementation
/// would report failure through its `Err` message, which
/// `Global::finish_save` surfaces in the command-line display area.
pub fn save_file(_global: &Global) -> (r: Result<(), Vec<char>>)
    ensures
        r == Ok::<(), Vec<char>>(()),
{
    Ok(())
}

} // verus!
