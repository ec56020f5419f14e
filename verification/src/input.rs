use vstd::prelude::*;
use crate::app::Mode;

verus! {

/// A key press, reduced to what the editor tells apart.
#[derive(Debug, Clone, Copy, PartialEq, Eq, Structural)]
pub enum Key {
    Backspace,
    Char(char),
    Ctrl(char),
    Esc,
    /// Any other key.
    Other,
}

/// What a key press asks the editor to do.
#[derive(Debug, Clone, Copy, PartialEq, Eq, Structural)]
pub enum ReturnCommand {
    Quit,
    AddChar(char),
    DelChar,
    SaveFile,
    /// Move the cursor by this many columns and rows.
    MoveCursor(isize, isize),
    SetMode(Mode),
    ToggleTerm,
    /// The key asks for nothing.
    Nothing,
}

pub struct InputHandler {}

/// Whether `c` is a character that can be typed into a line: anything but
/// a control character.
pub open spec fn is_printable(c: char) -> bool {
    let code = c as u32;
    code >= 0x20 && !(0x7f <= code <= 0x9f)
}

/// The command a key issues in navigation mode.
pub open spec fn normal_command(key: Key) -> ReturnCommand {
    match key {
        Key::Char(c) => if c == 'i' {
            ReturnCommand::SetMode(Mode::Insert)
        } else if c == 'h' {
            ReturnCommand::MoveCursor(-1isize, 0isize)
        } else if c == 'j' {
            ReturnCommand::MoveCursor(0isize, 1isize)
        } else if c == 'k' {
            ReturnCommand::MoveCursor(0isize, -1isize)
        } else if c == 'l' {
            ReturnCommand::MoveCursor(1isize, 0isize)
        } else {
            ReturnCommand::Nothing
        },
        _ => ReturnCommand::Nothing,
    }
}

/// The command a key issues in insertion mode.
pub open spec fn insert_command(key: Key) -> ReturnCommand {
    match key {
        Key::Esc => ReturnCommand::SetMode(Mode::Normal),
        Key::Char(c) => if is_printable(c) {
            ReturnCommand::AddChar(c)
        } else {
            ReturnCommand::Nothing
        },
        Key::Backspace => ReturnCommand::DelChar,
        _ => ReturnCommand::Nothing,
    }
}

/// The command a key issues in the given mode. Quit and save are looked
/// for first, whatever the mode.
pub open spec fn command_for(mode: Mode, key: Key) -> ReturnCommand {
    if key == Key::Ctrl('q') {
        ReturnCommand::Quit
    } else if key == Key::Ctrl('s') {
        ReturnCommand::SaveFile
    } else {
        match mode {
            Mode::Normal => normal_command(key),
            Mode::Insert => insert_command(key),
        }
    }
}

/// A command that keeps an editor in good order when applied in `mode`:
/// it inserts no line feed and moves the cursor only in navigation mode.
pub open spec fn admissible(mode: Mode, cmd: ReturnCommand) -> bool {
    match cmd {
        ReturnCommand::AddChar(c) => c != '\n',
        ReturnCommand::MoveCursor(_, _) => mode == Mode::Normal,
        _ => true,
    }
}

impl InputHandler {
    /// Maps one key press to a command. Nothing is changed: the caller
    /// applies the command.
    pub fn handle_input(mode: Mode, key: Key) -> (cmd: ReturnCommand)
        ensures
            cmd == command_for(mode, key),
            admissible(mode, cmd),
    {
        match key {
            Key::Ctrl('q') => ReturnCommand::Quit,
            Key::Ctrl('s') => ReturnCommand::SaveFile,
            _ => match mode {
                Mode::Normal => Self::handle_normal(key),
                Mode::Insert => Self::handle_insert(key),
            },
        }
    }

    fn handle_normal(key: Key) -> (cmd: ReturnCommand)
        ensures
            cmd == normal_command(key),
    {
        match key {
            Key::Char('i') => ReturnCommand::SetMode(Mode::Insert),
            Key::Char('h') => ReturnCommand::MoveCursor(-1, 0),
            Key::Char('j') => ReturnCommand::MoveCursor(0, 1),
            Key::Char('k') => ReturnCommand::MoveCursor(0, -1),
            Key::Char('l') => ReturnCommand::MoveCursor(1, 0),
            _ => ReturnCommand::Nothing,
        }
    }

    fn handle_insert(key: Key) -> (cmd: ReturnCommand)
        ensures
            cmd == insert_command(key),
    {
        match key {
            Key::Esc => ReturnCommand::SetMode(Mode::Normal),
            Key::Char(c) => {
                if printable(c) {
                    ReturnCommand::AddChar(c)
                } else {
                    ReturnCommand::Nothing
                }
            },
            Key::Backspace => ReturnCommand::DelChar,
            _ => ReturnCommand::Nothing,
        }
    }
}

/// Whether `c` can be typed into a line.
pub fn printable(c: char) -> (r: bool)
    ensures
        r == is_printable(c),
{
    let code: u32 = c as u32;
    code >= 0x20 && !(0x7f <= code && code <= 0x9f)
}

} // verus!
