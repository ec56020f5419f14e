use fer::app::Mode;
use fer::input::{printable, InputHandler, Key, ReturnCommand};

#[test]
fn quit_and_save_work_in_both_modes() {
    for mode in [Mode::Normal, Mode::Insert] {
        assert_eq!(InputHandler::handle_input(mode, Key::Ctrl('q')), ReturnCommand::Quit);
        assert_eq!(InputHandler::handle_input(mode, Key::Ctrl('s')), ReturnCommand::SaveFile);
        assert_eq!(InputHandler::handle_input(mode, Key::Ctrl('x')), ReturnCommand::Nothing);
        assert_eq!(InputHandler::handle_input(mode, Key::Other), ReturnCommand::Nothing);
    }
}

#[test]
fn navigation_keys() {
    let h = |c: char| InputHandler::handle_input(Mode::Normal, Key::Char(c));
    assert_eq!(h('h'), ReturnCommand::MoveCursor(-1, 0));
    assert_eq!(h('j'), ReturnCommand::MoveCursor(0, 1));
    assert_eq!(h('k'), ReturnCommand::MoveCursor(0, -1));
    assert_eq!(h('l'), ReturnCommand::MoveCursor(1, 0));
    assert_eq!(h('i'), ReturnCommand::SetMode(Mode::Insert));
    assert_eq!(h('x'), ReturnCommand::Nothing);
    assert_eq!(h('q'), ReturnCommand::Nothing);
    assert_eq!(InputHandler::handle_input(Mode::Normal, Key::Esc), ReturnCommand::Nothing);
    assert_eq!(InputHandler::handle_input(Mode::Normal, Key::Backspace), ReturnCommand::Nothing);
}

#[test]
fn insertion_keys() {
    let h = |k: Key| InputHandler::handle_input(Mode::Insert, k);
    assert_eq!(h(Key::Esc), ReturnCommand::SetMode(Mode::Normal));
    assert_eq!(h(Key::Char('a')), ReturnCommand::AddChar('a'));
    assert_eq!(h(Key::Char('h')), ReturnCommand::AddChar('h'));
    assert_eq!(h(Key::Char(' ')), ReturnCommand::AddChar(' '));
    assert_eq!(h(Key::Char('é')), ReturnCommand::AddChar('é'));
    assert_eq!(h(Key::Backspace), ReturnCommand::DelChar);
    assert_eq!(h(Key::Char('\n')), ReturnCommand::Nothing);
    assert_eq!(h(Key::Char('\t')), ReturnCommand::Nothing);
    assert_eq!(h(Key::Char('\u{7f}')), ReturnCommand::Nothing);
}

#[test]
fn printable_characters() {
    assert!(printable(' '));
    assert!(printable('~'));
    assert!(printable('\u{a0}'));
    assert!(!printable('\u{1f}'));
    assert!(!printable('\u{7f}'));
    assert!(!printable('\u{9f}'));
    assert!(!printable('\0'));
}
