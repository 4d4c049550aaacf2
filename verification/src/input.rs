//! Input events, editor modes, decoded commands, and the command decoder: a
//! pure mapping from (mode, key event) to a discrete editing command.

use vstd::prelude::*;

verus! {

/// The three input modes. Exactly one is active at a time.
#[derive(Clone, Copy, PartialEq, Eq, Structural, Debug)]
pub enum Mode {
    Insert,
    Normal,
    CommandMode,
}

/// A raw key event, as the core sees it. The terminal layer translates
/// whatever its key representation is into one of these; every key the
/// decoder does not care about maps to `Other`.
#[derive(Clone, Copy, PartialEq, Eq, Structural, Debug)]
pub enum Key {
    Char(char),
    Esc,
    Backspace,
    Other,
}

/// A decoded editing command: the mode-independent intent derived from one
/// key event. `Save`, `Quit` and `SaveQuit` are only ever produced by
/// parsing the command-line text on `ExecuteCommand`.
#[derive(Clone, Copy, PartialEq, Eq, Structural, Debug)]
pub enum Command {
    Invalid,
    EnterNormalMode,
    EnterInsertMode,
    EnterCommandMode,
    NewLine,
    Tab,
    InsertChar(char),
    InsertCommandChar(char),
    PopCommandChar,
    ExecuteCommand,
    DeleteChar,
    DeleteCharX,
    MoveUp,
    MoveDown,
    MoveRight,
    MoveLeft,
    Save,
    SaveQuit,
    Quit,
}

/// What the decoder returns for each (mode, key) pair.
pub open spec fn decode_spec(mode: Mode, key: Key) -> Command {
    match mode {
        Mode::CommandMode => match key {
            Key::Esc => Command::EnterNormalMode,
            Key::Backspace => Command::PopCommandChar,
            Key::Char(c) => if c == '\n' {
                Command::ExecuteCommand
            } else {
                Command::InsertCommandChar(c)
            },
            _ => Command::Invalid,
        },
        Mode::Normal => match key {
            Key::Char(c) => if c == 'a' {
                Command::EnterInsertMode
            } else if c == 'j' {
                Command::MoveDown
            } else if c == 'k' {
                Command::MoveUp
            } else if c == 'l' {
                Command::MoveRight
            } else if c == 'h' {
                Command::MoveLeft
            } else if c == 'x' {
                Command::DeleteCharX
            } else if c == ':' {
                Command::EnterCommandMode
            } else {
                Command::Invalid
            },
            _ => Command::Invalid,
        },
        Mode::Insert => match key {
            Key::Char(c) => if c == '\n' {
                Command::NewLine
            } else if c == '\t' {
                Command::Tab
            } else {
                Command::InsertChar(c)
            },
            Key::Esc => Command::EnterNormalMode,
            Key::Backspace => Command::DeleteChar,
            _ => Command::Invalid,
        },
    }
}

/// Decode one key event under the given mode. Pure: no state is read or
/// written, so the decoder can be checked exhaustively per mode.
pub fn parse_command(mode: Mode, key: Key) -> (cmd: Command)
    ensures
        cmd == decode_spec(mode, key),
{
    match mode {
        Mode::CommandMode => match key {
            Key::Esc => Command::EnterNormalMode,
            Key::Backspace => Command::PopCommandChar,
            Key::Char(c) => if c == '\n' {
                Command::ExecuteCommand
            } else {
                Command::InsertCommandChar(c)
            },
            _ => Command::Invalid,
        },
        Mode::Normal => match key {
            Key::Char(c) => if c == 'a' {
                Command::EnterInsertMode
            } else if c == 'j' {
                Command::MoveDown
            } else if c == 'k' {
                Command::MoveUp
            } else if c == 'l' {
                Command::MoveRight
            } else if c == 'h' {
                Command::MoveLeft
            } else if c == 'x' {
                Command::DeleteCharX
            } else if c == ':' {
                Command::EnterCommandMode
            } else {
                Command::Invalid
            },
            _ => Command::Invalid,
        },
        Mode::Insert => match key {
            Key::Char(c) => if c == '\n' {
                Command::NewLine
            } else if c == '\t' {
                Command::Tab
            } else {
                Command::InsertChar(c)
            },
            Key::Esc => Command::EnterNormalMode,
            Key::Backspace => Command::DeleteChar,
            _ => Command::Invalid,
        },
    }
}

/// What parsing the buffered command-line text yields on Enter: `w` saves,
/// `q` quits, `wq` saves then quits, and anything else (the empty text
/// included) is discarded, returning the editor to Normal mode.
pub open spec fn parse_terminal_spec(t_cmd: Seq<char>) -> Command {
    if t_cmd.len() == 1 && t_cmd[0] == 'w' {
        Command::Save
    } else if t_cmd.len() == 1 && t_cmd[0] == 'q' {
        Command::Quit
    } else if t_cmd.len() == 2 && t_cmd[0] == 'w' && t_cmd[1] == 'q' {
        Command::SaveQuit
    } else {
        Command::EnterNormalMode
    }
}

/// Parse the buffered command-line text into the command it stands for.
/// Unrecognized text is deliberately discarded without a message; it only
/// sends the editor back to Normal mode.
pub fn parse_terminal_command(t_cmd: &Vec<char>) -> (cmd: Command)
    ensures
        cmd == parse_terminal_spec(t_cmd@),
{
    if t_cmd.len() == 1 && t_cmd[0] == 'w' {
        Command::Save
    } else if t_cmd.len() == 1 && t_cmd[0] == 'q' {
        Command::Quit
    } else if t_cmd.len() == 2 && t_cmd[0] == 'w' && t_cmd[1] == 'q' {
        Command::SaveQuit
    } else {
        Command::EnterNormalMode
    }
}

} // verus!
