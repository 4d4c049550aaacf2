//! Whole-session scenarios: key events go through the decoder under the
//! current mode and the decoded command through the applier, exactly as the
//! event loop drives the editor.

use modal_edit::editor::{Global, Line};
use modal_edit::input::{parse_command, Key, Mode};

fn fresh() -> Global {
    let mut g = Global::new();
    g.new_line(Line::new());
    g
}

fn press(g: &mut Global, key: Key) -> bool {
    let cmd = parse_command(g.mode, key);
    g.apply(cmd)
}

fn press_chars(g: &mut Global, s: &str) -> bool {
    let mut quit = false;
    for c in s.chars() {
        assert!(!quit, "editor quit before the last key");
        quit = press(g, Key::Char(c));
    }
    quit
}

fn line_string(g: &Global, i: usize) -> String {
    g.lines[i].chars.iter().collect()
}

#[test]
fn edit_session_ends_with_two_lines() {
    // Start with one empty line, press `a`, type "hi", Enter, type "yo",
    // Escape, `:`, `q`, Enter: the editor terminates and the buffer holds
    // exactly "hi" then "yo".
    let mut g = fresh();
    assert!(!press(&mut g, Key::Char('a')));
    assert_eq!(g.mode, Mode::Insert);
    assert!(!press_chars(&mut g, "hi"));
    assert!(!press(&mut g, Key::Char('\n')));
    assert!(!press_chars(&mut g, "yo"));
    assert!(!press(&mut g, Key::Esc));
    assert_eq!(g.mode, Mode::Normal);
    assert!(!press(&mut g, Key::Char(':')));
    assert_eq!(g.mode, Mode::CommandMode);
    assert!(!press(&mut g, Key::Char('q')));
    let quit = press(&mut g, Key::Char('\n'));
    assert!(quit);
    assert_eq!(g.lines.len(), 2);
    assert_eq!(line_string(&g, 0), "hi");
    assert_eq!(line_string(&g, 1), "yo");
}

#[test]
fn x_on_empty_buffer_changes_nothing() {
    let mut g = fresh();
    let quit = press(&mut g, Key::Char('x'));
    assert!(!quit);
    assert_eq!(g.lines.len(), 1);
    assert_eq!(line_string(&g, 0), "");
    assert_eq!(g.cur_row, 1);
    assert_eq!(g.cur_col, 1);
    assert_eq!(g.mode, Mode::Normal);
}

#[test]
fn unrecognized_command_line_returns_to_normal() {
    // `zz` + Enter: no save, no quit, buffer untouched, back to Normal
    // mode with the command-line text discarded.
    let mut g = fresh();
    press(&mut g, Key::Char('a'));
    press_chars(&mut g, "hello"); // give the buffer content to watch
    press(&mut g, Key::Esc);
    let before = line_string(&g, 0);
    press(&mut g, Key::Char(':'));
    assert_eq!(g.mode, Mode::CommandMode);
    assert!(!press_chars(&mut g, "zz"));
    let quit = press(&mut g, Key::Char('\n'));
    assert!(!quit);
    assert_eq!(g.mode, Mode::Normal);
    assert!(g.command.is_empty());
    assert_eq!(g.lines.len(), 1);
    assert_eq!(line_string(&g, 0), before);
}

#[test]
fn save_and_quit_session() {
    let mut g = fresh();
    press(&mut g, Key::Char('a'));
    press_chars(&mut g, "text");
    press(&mut g, Key::Esc);
    press(&mut g, Key::Char(':'));
    assert!(!press_chars(&mut g, "w"));
    let quit = press(&mut g, Key::Char('\n'));
    assert!(!quit); // save alone keeps the editor running
    assert_eq!(g.mode, Mode::Normal);
    press(&mut g, Key::Char(':'));
    assert!(!press_chars(&mut g, "wq"));
    let quit2 = press(&mut g, Key::Char('\n'));
    assert!(quit2);
    assert_eq!(line_string(&g, 0), "text");
}

#[test]
fn command_line_editing_with_backspace() {
    let mut g = fresh();
    press(&mut g, Key::Char(':'));
    press_chars(&mut g, "wz");
    press(&mut g, Key::Backspace);
    press(&mut g, Key::Char('q'));
    let collected: String = g.command.iter().collect();
    assert_eq!(collected, "wq");
    let quit = press(&mut g, Key::Char('\n'));
    assert!(quit); // "wq" saved (stub) and quit
}

#[test]
fn escape_discards_command_line_text() {
    let mut g = fresh();
    press(&mut g, Key::Char(':'));
    press_chars(&mut g, "wq");
    let quit = press(&mut g, Key::Esc);
    assert!(!quit);
    assert_eq!(g.mode, Mode::Normal);
    assert!(g.command.is_empty());
}

#[test]
fn backspace_on_empty_command_line_is_noop() {
    let mut g = fresh();
    press(&mut g, Key::Char(':'));
    let quit = press(&mut g, Key::Backspace);
    assert!(!quit);
    assert!(g.command.is_empty());
    assert_eq!(g.mode, Mode::CommandMode);
}

#[test]
fn empty_command_line_returns_to_normal() {
    let mut g = fresh();
    press(&mut g, Key::Char(':'));
    let quit = press(&mut g, Key::Char('\n'));
    assert!(!quit);
    assert_eq!(g.mode, Mode::Normal);
}

#[test]
fn insert_typing_is_mode_dependent() {
    // The same keys that edit in Insert mode are commands in Normal mode:
    // "hi" typed in Normal mode moves the cursor instead of editing.
    let mut g = fresh();
    press_chars(&mut g, "hi");
    assert_eq!(line_string(&g, 0), "");
    assert_eq!(g.mode, Mode::Normal);
}
