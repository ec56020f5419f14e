use fer::app::{viewport_rows, App, Focus, Mode};
use fer::args::Args;
use fer::banner::Banner;
use fer::cursor::Cursor;
use fer::edit_terminal::Terminal;
use fer::error::EditorError;
use fer::escape::Palette;
use fer::file::File;
use fer::input::{Key, ReturnCommand};
use fer::text::spaces;

const SIZE: Option<(u16, u16)> = Some((80, 24));

fn lines(items: &[&str]) -> Vec<String> {
    items.iter().map(|s| s.to_string()).collect()
}

fn editor(items: &[&str]) -> App {
    let mut app = App::new(Args { file: Some("notes.txt".to_string()) }, Palette::plain());
    app.file.data = lines(items);
    app
}

fn colours() -> Palette {
    Palette {
        white_fg: "<w>".to_string(),
        green_fg: "<g>".to_string(),
        light_blue_fg: "<b>".to_string(),
        red_bg: "<R>".to_string(),
        panel_bg: "<P>".to_string(),
    }
}

#[test]
fn new_editor_starts_at_origin_in_navigation_mode() {
    let app = App::new(Args { file: None }, Palette::plain());
    assert!(app.file.data.is_empty());
    assert_eq!(app.file.path, None);
    assert_eq!((app.cursor.file_y, app.cursor.file_x), (0, 0));
    assert_eq!((app.cursor.screen_x, app.cursor.screen_y), (1, 1));
    assert_eq!(app.current_mode, Mode::Normal);
    assert_eq!(app.focused, Focus::File);
    assert_eq!(app.banner.height, 1);
    assert_eq!(app.term.height, 1);
    assert!(!app.term.visible);
    assert!(app.can_edit());
}

#[test]
fn empty_buffer_renders_blank_line_and_filler_rows() {
    let rows = viewport_rows(&Vec::new(), 80, 24);
    assert_eq!(rows.len(), 24);
    assert_eq!(rows[0], "");
    assert!(rows[1..].iter().all(|r| r == "~"));
    assert_eq!(rows.iter().filter(|r| *r == "~").count(), 23);
    assert!(viewport_rows(&Vec::new(), 80, 0).is_empty());
}

#[test]
fn empty_buffer_move_down_is_no_op() {
    let mut app = App::new(Args { file: None }, Palette::plain());
    let (cmd, out) = app.handle_key(Key::Char('j'), SIZE);
    assert_eq!(cmd, ReturnCommand::MoveCursor(0, 1));
    assert_eq!(out.unwrap(), "\x1b[1;1H");
    assert_eq!((app.cursor.file_y, app.cursor.file_x), (0, 0));
}

#[test]
fn empty_buffer_scenario() {
    let mut app = App::new(Args { file: None }, Palette::plain());
    let rows = viewport_rows(&app.file.data, 80, 24);
    assert_eq!(rows.len(), 24);
    assert_eq!(rows[0], "");
    assert!(rows[1..].iter().all(|r| r == "~"));
    app.handle_key(Key::Char('j'), SIZE).1.unwrap();
    assert_eq!(app.cursor.file_y, 0);
    assert_eq!(app.handle_key(Key::Char('i'), SIZE).0, ReturnCommand::SetMode(Mode::Insert));
    assert_eq!(app.handle_key(Key::Char('a'), SIZE).0, ReturnCommand::AddChar('a'));
    assert_eq!(app.file.data, lines(&["a"]));
    assert_eq!(app.handle_key(Key::Char('b'), SIZE).1.unwrap(), "\x1b[1;3H");
    assert_eq!(app.file.data, lines(&["ab"]));
    assert_eq!(app.file.data[0], "ab");
    assert_eq!(app.cursor.file_x, 2);
    assert_eq!(app.cursor.file_y, 0);
    assert!(app.file.modified);
}

#[test]
fn typing_off_the_document_is_invalid_row() {
    let mut app = editor(&["abc"]);
    app.cursor = Cursor::new(5, 0);
    assert_eq!(app.insert_char('x'), Err(EditorError::InvalidRow));
    assert_eq!(app.apply(ReturnCommand::AddChar('x'), SIZE), Err(EditorError::InvalidRow));
    app.cursor = Cursor::new(5, 2);
    assert_eq!(app.backspace(), Err(EditorError::InvalidRow));
    assert_eq!(app.apply(ReturnCommand::DelChar, SIZE), Err(EditorError::InvalidRow));
    assert_eq!(app.file.data, lines(&["abc"]));
    assert!(!app.file.modified);
    let mut empty = App::new(Args { file: None }, Palette::plain());
    empty.cursor = Cursor::new(1, 0);
    assert_eq!(empty.insert_char('x'), Err(EditorError::InvalidRow));
    assert!(empty.file.data.is_empty());
}

#[test]
fn first_row_of_an_empty_document() {
    let mut file = File::new(None);
    file.open_first_row();
    assert_eq!(file.data, lines(&[""]));
    assert!(!file.modified);
    file.insert_char('x', 0, 0).unwrap();
    file.open_first_row();
    assert_eq!(file.data, lines(&["x"]));
}

#[test]
fn typing_two_characters_on_a_blank_line() {
    let mut app = editor(&[""]);
    assert_eq!(app.handle_key(Key::Char('j'), SIZE).0, ReturnCommand::MoveCursor(0, 1));
    assert_eq!(app.cursor.file_y, 0);
    assert_eq!(app.handle_key(Key::Char('i'), SIZE).0, ReturnCommand::SetMode(Mode::Insert));
    assert_eq!(app.current_mode, Mode::Insert);
    app.handle_key(Key::Char('a'), SIZE).1.unwrap();
    app.handle_key(Key::Char('b'), SIZE).1.unwrap();
    assert_eq!(app.file.data, lines(&["ab"]));
    assert_eq!(app.cursor.file_x, 2);
    assert_eq!(app.cursor.file_y, 0);
    assert_eq!((app.cursor.screen_x, app.cursor.screen_y), (3, 1));
    assert!(app.file.modified);
}

#[test]
fn typing_in_the_middle_of_a_line() {
    let mut app = editor(&["ad", "zz"]);
    app.apply(ReturnCommand::MoveCursor(1, 0), SIZE).unwrap();
    app.apply(ReturnCommand::SetMode(Mode::Insert), SIZE).unwrap();
    assert_eq!(app.apply(ReturnCommand::AddChar('b'), SIZE).unwrap(), "\x1b[1;3H");
    assert_eq!(app.apply(ReturnCommand::AddChar('c'), SIZE).unwrap(), "\x1b[1;4H");
    assert_eq!(app.file.data, lines(&["abcd", "zz"]));
    assert_eq!(app.cursor.file_x, 3);
}

#[test]
fn backspace_removes_character_before_cursor() {
    let mut app = editor(&["abc"]);
    app.apply(ReturnCommand::MoveCursor(2, 0), SIZE).unwrap();
    app.apply(ReturnCommand::SetMode(Mode::Insert), SIZE).unwrap();
    assert_eq!(app.handle_key(Key::Backspace, SIZE).0, ReturnCommand::DelChar);
    assert_eq!(app.file.data, lines(&["ac"]));
    assert_eq!(app.cursor.file_x, 1);
    assert!(app.file.modified);
}

#[test]
fn backspace_at_column_zero_changes_nothing() {
    let mut app = editor(&["abc", "de"]);
    app.apply(ReturnCommand::MoveCursor(0, 1), SIZE).unwrap();
    app.apply(ReturnCommand::SetMode(Mode::Insert), SIZE).unwrap();
    assert_eq!(app.backspace(), Ok(()));
    assert_eq!(app.file.data, lines(&["abc", "de"]));
    assert!(!app.file.modified);
    assert_eq!(app.apply(ReturnCommand::DelChar, SIZE).unwrap(), "\x1b[2;1H");
    assert_eq!(app.file.data, lines(&["abc", "de"]));
    assert!(!app.file.modified);
    assert_eq!((app.cursor.file_y, app.cursor.file_x), (1, 0));
}

#[test]
fn insert_then_backspace_restores_line() {
    let mut app = editor(&["hello"]);
    app.apply(ReturnCommand::MoveCursor(2, 0), SIZE).unwrap();
    app.apply(ReturnCommand::SetMode(Mode::Insert), SIZE).unwrap();
    app.apply(ReturnCommand::AddChar('x'), SIZE).unwrap();
    assert_eq!(app.file.data, lines(&["hexllo"]));
    app.apply(ReturnCommand::DelChar, SIZE).unwrap();
    assert_eq!(app.file.data, lines(&["hello"]));
    assert_eq!(app.cursor.file_x, 2);
}

#[test]
fn mode_round_trip_leaves_buffer_alone() {
    let mut app = editor(&["abc", "de"]);
    app.apply(ReturnCommand::MoveCursor(1, 1), SIZE).unwrap();
    assert_eq!(app.update_mode(Mode::Insert), "\x1b[6 q");
    assert_eq!(app.current_mode, Mode::Insert);
    assert_eq!(app.file.data, lines(&["abc", "de"]));
    assert_eq!(app.update_mode(Mode::Normal), "\x1b[2 q");
    assert_eq!(app.current_mode, Mode::Normal);
    assert_eq!(app.file.data, lines(&["abc", "de"]));
    assert!(!app.file.modified);
    assert_eq!((app.cursor.file_y, app.cursor.file_x), (1, 1));
}

#[test]
fn cursor_shape_strings() {
    assert_eq!(Mode::Normal.get_cursor_set_string(), "\x1b[2 q");
    assert_eq!(Mode::Insert.get_cursor_set_string(), "\x1b[6 q");
}

#[test]
fn commands_without_terminal_fail_and_change_nothing() {
    let mut app = editor(&["abc"]);
    app.apply(ReturnCommand::SetMode(Mode::Insert), None).unwrap();
    for cmd in [ReturnCommand::AddChar('x'), ReturnCommand::DelChar, ReturnCommand::MoveCursor(1, 0)] {
        assert_eq!(app.apply(cmd, None), Err(EditorError::TerminalUnavailable));
        assert_eq!(app.file.data, lines(&["abc"]));
        assert_eq!(app.cursor.file_x, 0);
        assert!(!app.file.modified);
    }
    assert_eq!(app.move_cursor(1, 0, None), Err(EditorError::TerminalUnavailable));
}

#[test]
fn quit_save_and_nothing_leave_state_alone() {
    let mut app = editor(&["abc"]);
    for cmd in [ReturnCommand::Quit, ReturnCommand::SaveFile, ReturnCommand::Nothing] {
        assert_eq!(app.apply(cmd, SIZE).unwrap(), "");
        assert_eq!(app.file.data, lines(&["abc"]));
        assert_eq!(app.current_mode, Mode::Normal);
    }
}

#[test]
fn toggle_panel_switches_focus_and_height() {
    let mut app = editor(&["abc"]);
    assert_eq!(app.term.get_real_height(), 0);
    assert_eq!(app.apply(ReturnCommand::ToggleTerm, SIZE).unwrap(), "");
    assert!(app.term.visible);
    assert_eq!(app.focused, Focus::Term);
    assert_eq!(app.term.get_real_height(), 1);
    app.apply(ReturnCommand::ToggleTerm, SIZE).unwrap();
    assert!(!app.term.visible);
    assert_eq!(app.focused, Focus::File);
    let mut term = Terminal::new(5);
    assert_eq!(term.get_real_height(), 0);
    term.toggle();
    assert_eq!(term.get_real_height(), 5);
}

#[test]
fn move_cursor_returns_goto_sequence() {
    let mut app = editor(&["abcdefghijklmnop", "x", "y"]);
    assert_eq!(app.move_cursor(11, 0, SIZE).unwrap(), "\x1b[1;12H");
    assert_eq!(app.show_cursor(), "\x1b[1;12H");
    assert_eq!(app.move_cursor(0, 2, SIZE).unwrap(), "\x1b[3;2H");
}

#[test]
fn viewport_truncates_long_lines_and_pads_short_documents() {
    let rows = viewport_rows(&lines(&["hello world", "hi", ""]), 5, 5);
    assert_eq!(rows, lines(&["hello", "hi", "", "~", "~"]));
    let rows = viewport_rows(&lines(&["a", "b", "c"]), 5, 2);
    assert_eq!(rows, lines(&["a", "b"]));
    let rows = viewport_rows(&lines(&["abc"]), 0, 1);
    assert_eq!(rows, lines(&[""]));
    let rows = viewport_rows(&lines(&["ééé"]), 2, 1);
    assert_eq!(rows, lines(&["éé"]));
}

#[test]
fn status_line_text() {
    let banner = Banner::new(1);
    let mut file = File::new(Some("a.txt".to_string()));
    let text = banner.display_text(34, 12, &file, &Mode::Normal, &colours());
    assert_eq!(text, "<w>12:34\x1b[m <b>Normal\x1b[m - a.txt\x1b[m\x1b[m");
    file.load(Some("x")).unwrap();
    file.insert_char('y', 0, 0).unwrap();
    let text = banner.display_text(0, 0, &file, &Mode::Insert, &colours());
    assert_eq!(text, "<w>0:0\x1b[m <g>Insert\x1b[m - a.txt\x1b[m<w><g> [+]\x1b[m");
    let nameless = File::new(None);
    let text = banner.display_text(7, 100, &nameless, &Mode::Normal, &Palette::plain());
    assert_eq!(text, "100:7\x1b[m Normal\x1b[m - No file path loaded!\x1b[m\x1b[m");
    let text = banner.display_text(7, 100, &nameless, &Mode::Normal, &colours());
    assert_eq!(text, "<w>100:7\x1b[m <b>Normal\x1b[m - <R><w>No file path loaded!\x1b[m\x1b[m");
}

#[test]
fn status_line_is_drawn_on_its_row() {
    let banner = Banner::new(2);
    let file = File::new(Some("a.txt".to_string()));
    let text = banner.write_banner(1, 2, &file, &Mode::Normal, &Palette::plain(), 24);
    assert_eq!(text, "\x1b[23;1H\x1b[2K2:1\x1b[m Normal\x1b[m - a.txt\x1b[m\x1b[m");
    let text = Banner::new(1).write_banner(1, 2, &file, &Mode::Normal, &Palette::plain(), 24);
    assert_eq!(text, "\x1b[24;1H\x1b[2K2:1\x1b[m Normal\x1b[m - a.txt\x1b[m\x1b[m");
    let text = Banner::new(0).write_banner(1, 2, &file, &Mode::Normal, &Palette::plain(), 24);
    assert_eq!(text, "");
}

#[test]
fn panel_rows_end_with_bottom_row() {
    let term = Terminal::new(2);
    let text = term.write_term(4, 10, &colours());
    assert_eq!(text, "\x1b[9;1H\x1b[2K<P>:   \x1b[m\x1b[10;1H\x1b[2K<P>:   \x1b[m");
    assert_eq!(Terminal::new(0).write_term(4, 10, &colours()), "");
    assert_eq!(Terminal::new(1).write_term(1, 1, &Palette::plain()), "\x1b[1;1H\x1b[2K:\x1b[m");
    assert_eq!(spaces(3), "   ");
    assert_eq!(spaces(0), "");
}

#[test]
fn whole_frame_of_a_small_screen() {
    let mut app = editor(&["hello", "hi"]);
    app.move_cursor(1, 1, Some((3, 4))).unwrap();
    let frame = app.show_screen((3, 4));
    let expected = "\x1b[1;1H\x1b[2J\
                    hel\n\rhi\n\r~\n\r\
                    \x1b[4;1H\x1b[2K1:1\x1b[m Normal\x1b[m - notes.txt\x1b[m\x1b[m\
                    \x1b[2;2H";
    assert_eq!(frame, expected);
}

#[test]
fn frame_with_panel_shown() {
    let mut app = editor(&["hello", "hi"]);
    app.palette = colours();
    app.apply(ReturnCommand::ToggleTerm, Some((3, 4))).unwrap();
    let frame = app.show_screen((3, 4));
    let expected = "\x1b[1;1H\x1b[2J\
                    hel\n\rhi\n\r\
                    \x1b[3;1H\x1b[2K<P>:  \x1b[m\
                    \x1b[4;1H\x1b[2K<w>0:0\x1b[m <b>Normal\x1b[m - notes.txt\x1b[m\x1b[m\
                    \x1b[1;1H";
    assert_eq!(frame, expected);
}

#[test]
fn empty_document_frame() {
    let app = App::new(Args { file: None }, Palette::plain());
    let frame = app.show_screen((10, 3));
    let expected = "\x1b[1;1H\x1b[2J\n\r~\n\r\
                    \x1b[3;1H\x1b[2K0:0\x1b[m Normal\x1b[m - No file path loaded!\x1b[m\x1b[m\
                    \x1b[1;1H";
    assert_eq!(frame, expected);
}

#[test]
fn frame_without_footer_ends_without_line_break() {
    let mut app = editor(&["a"]);
    app.banner = Banner::new(0);
    let frame = app.show_screen((5, 2));
    let expected = "\x1b[1;1H\x1b[2Ja\n\r~\x1b[1;1H";
    assert_eq!(frame, expected);
}

#[test]
fn rendering_twice_gives_the_same_frame() {
    let mut app = editor(&["one", "two", "three"]);
    app.apply(ReturnCommand::MoveCursor(2, 1), SIZE).unwrap();
    let first = app.show_screen((80, 24));
    let second = app.show_screen((80, 24));
    assert_eq!(first, second);
    assert_eq!(first.matches('~').count(), 20);
}

#[test]
fn detected_palette_is_coloured_or_plain() {
    let p = Palette::detect();
    assert!(p.white_fg == "\x1b[38;5;7m" || p.white_fg.is_empty());
    assert!(p.green_fg == "\x1b[38;5;2m" || p.green_fg.is_empty());
    assert!(p.light_blue_fg == "\x1b[38;5;12m" || p.light_blue_fg.is_empty());
    assert!(p.red_bg == "\x1b[48;5;1m" || p.red_bg.is_empty());
    assert!(p.panel_bg == "\x1b[48;2;60;54;66m" || p.panel_bg.is_empty());
    let plain = Palette::plain();
    assert!(plain.white_fg.is_empty() && plain.panel_bg.is_empty());
}
