//! The command decoder's table, checked key by key, and the command-line
//! text parser.

use modal_edit::input::{parse_command, parse_terminal_command, Command, Key, Mode};

fn chars(s: &str) -> Vec<char> {
    s.chars().collect()
}

#[test]
fn normal_mode_table() {
    assert_eq!(parse_command(Mode::Normal, Key::Char('a')), Command::EnterInsertMode);
    assert_eq!(parse_command(Mode::Normal, Key::Char('j')), Command::MoveDown);
    assert_eq!(parse_command(Mode::Normal, Key::Char('k')), Command::MoveUp);
    assert_eq!(parse_command(Mode::Normal, Key::Char('l')), Command::MoveRight);
    assert_eq!(parse_command(Mode::Normal, Key::Char('h')), Command::MoveLeft);
    assert_eq!(parse_command(Mode::Normal, Key::Char('x')), Command::DeleteCharX);
    assert_eq!(parse_command(Mode::Normal, Key::Char(':')), Command::EnterCommandMode);
    assert_eq!(parse_command(Mode::Normal, Key::Char('z')), Command::Invalid);
    assert_eq!(parse_command(Mode::Normal, Key::Esc), Command::Invalid);
    assert_eq!(parse_command(Mode::Normal, Key::Backspace), Command::Invalid);
    assert_eq!(parse_command(Mode::Normal, Key::Other), Command::Invalid);
}

#[test]
fn insert_mode_table() {
    assert_eq!(parse_command(Mode::Insert, Key::Char('q')), Command::InsertChar('q'));
    assert_eq!(parse_command(Mode::Insert, Key::Char('\n')), Command::NewLine);
    assert_eq!(parse_command(Mode::Insert, Key::Char('\t')), Command::Tab);
    assert_eq!(parse_command(Mode::Insert, Key::Esc), Command::EnterNormalMode);
    assert_eq!(parse_command(Mode::Insert, Key::Backspace), Command::DeleteChar);
    assert_eq!(parse_command(Mode::Insert, Key::Other), Command::Invalid);
}

#[test]
fn command_mode_table() {
    assert_eq!(
        parse_command(Mode::CommandMode, Key::Char('w')),
        Command::InsertCommandChar('w')
    );
    assert_eq!(parse_command(Mode::CommandMode, Key::Char('\n')), Command::ExecuteCommand);
    assert_eq!(parse_command(Mode::CommandMode, Key::Esc), Command::EnterNormalMode);
    assert_eq!(parse_command(Mode::CommandMode, Key::Backspace), Command::PopCommandChar);
    assert_eq!(parse_command(Mode::CommandMode, Key::Other), Command::Invalid);
}

#[test]
fn terminal_command_parsing() {
    assert_eq!(parse_terminal_command(&chars("w")), Command::Save);
    assert_eq!(parse_terminal_command(&chars("q")), Command::Quit);
    assert_eq!(parse_terminal_command(&chars("wq")), Command::SaveQuit);
    assert_eq!(parse_terminal_command(&chars("")), Command::EnterNormalMode);
    assert_eq!(parse_terminal_command(&chars("zz")), Command::EnterNormalMode);
    assert_eq!(parse_terminal_command(&chars("qw")), Command::EnterNormalMode);
    assert_eq!(parse_terminal_command(&chars("wqa")), Command::EnterNormalMode);
}
