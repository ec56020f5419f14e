use vstd::prelude::*;
use vstd::string::*;
use crate::args::Args;
use crate::banner::{banner_line, banner_text, Banner};
use crate::cursor::{target_col, target_row, Cursor};
use crate::edit_terminal::{panel_rows, Terminal};
use crate::error::EditorError;
use crate::escape::{
    clear_all,
    clear_all_text,
    goto,
    goto_text,
    steady_bar,
    steady_bar_text,
    steady_block,
    steady_block_text,
    Palette,
};
use crate::file::{as_rows, deleted, inserted, File};
use crate::input::{admissible, command_for, InputHandler, Key, ReturnCommand};
use crate::text::{line_len, lines_of, max_row};

verus! {

/// The two input modes of the editor.
#[derive(Debug, PartialEq, Eq, Clone, Copy, Structural)]
pub enum Mode {
    Normal,
    Insert,
}

impl Mode {
    /// How many columns past the end of a line the cursor may stand.
    pub open spec fn extension(&self) -> int {
        match self {
            Mode::Normal => 0,
            Mode::Insert => 1,
        }
    }

    /// The control sequence that gives the cursor the mode's shape.
    pub open spec fn cursor_shape(&self) -> Seq<char> {
        match self {
            Mode::Normal => steady_block_text(),
            Mode::Insert => steady_bar_text(),
        }
    }

    /// How many columns past the end of a line the cursor may stand.
    pub fn get_extension(&self) -> (e: usize)
        ensures
            e as int == self.extension(),
    {
        match self {
            Mode::Normal => 0,
            Mode::Insert => 1,
        }
    }

    /// The control sequence that gives the cursor the mode's shape: a
    /// block while navigating, a bar while inserting.
    pub fn get_cursor_set_string(&self) -> (s: String)
        ensures
            s@ == self.cursor_shape(),
    {
        match self {
            Mode::Normal => steady_block(),
            Mode::Insert => steady_bar(),
        }
    }
}

/// Which panel receives input.
#[derive(Debug, PartialEq, Eq, Clone, Copy, Structural)]
pub enum Focus {
    File,
    Term,
}

/// The whole state of an editing session.
pub struct App {
    pub cursor: Cursor,
    pub file: File,
    pub banner: Banner,
    pub current_mode: Mode,
    pub term: Terminal,
    pub focused: Focus,
    pub palette: Palette,
}

/// What viewport row `i` shows, `width` cells wide: the line cut to the
/// width, or the filler where the lines have ended.
pub open spec fn row_cells(lines: Seq<Seq<char>>, i: int, width: u16) -> Seq<char> {
    if 0 <= i < lines.len() {
        if lines[i].len() > width {
            lines[i].subrange(0, width as int)
        } else {
            lines[i]
        }
    } else {
        "~"@
    }
}

/// The rows of a viewport of `height` rows.
pub open spec fn viewport(lines: Seq<Seq<char>>, width: u16, height: u16) -> Seq<Seq<char>> {
    Seq::new(height as nat, |i: int| row_cells(lines, i, width))
}

/// The first `count` rows as they are sent to a terminal of `term_height`
/// rows: each row is followed by a line break unless it is drawn on the
/// terminal's last row.
pub open spec fn rows_text(rows: Seq<Seq<char>>, count: nat, term_height: u16) -> Seq<char>
    decreases count,
{
    if count == 0 {
        Seq::empty()
    } else {
        rows_text(rows, (count - 1) as nat, term_height) + rows[count - 1] + if count
            < term_height {
            "\n\r"@
        } else {
            Seq::empty()
        }
    }
}

/// The rows of a `width` by `height` viewport onto the document. An empty
/// document is shown as the one blank line it stands for.
pub fn viewport_rows(data: &Vec<String>, width: u16, height: u16) -> (rows: Vec<String>)
    ensures
        lines_of(rows@) == viewport(as_rows(lines_of(data@)), width, height),
        rows@.len() == height,
{
    let ghost shown = as_rows(lines_of(data@));
    let mut rows: Vec<String> = Vec::new();
    let mut i: u16 = 0;
    while i < height
        invariant
            i <= height,
            rows@.len() == i,
            shown == as_rows(lines_of(data@)),
            forall|k: int| 0 <= k < i ==> (#[trigger] rows@[k])@ == row_cells(shown, k, width),
        decreases height - i,
    {
        let row = if (i as usize) < data.len() {
            let line = data[i as usize].as_str();
            let n = line.unicode_len();
            if n > width as usize {
                String::from_str(line.substring_char(0, width as usize))
            } else {
                String::from_str(line)
            }
        } else if i == 0 {
            String::new()
        } else {
            String::from_str("~")
        };
        rows.push(row);
        i += 1;
    }
    assert(lines_of(rows@) =~= viewport(shown, width, height));
    rows
}

/// What applying `cmd` to `before` on a terminal of size `size` (`None`
/// where the size could not be had) gives: the state `after` and either the
/// control text to send or an error. An error leaves the state as it was.
pub open spec fn applied(
    before: App,
    after: App,
    cmd: ReturnCommand,
    size: Option<(u16, u16)>,
    res: Result<Seq<char>, EditorError>,
) -> bool {
    let row_exists = before.cursor.file_y < before.file.data@.len();
    let rows = as_rows(before.file.lines());
    let row = before.cursor.file_y as int;
    let col = before.cursor.file_x as int;
    &&& res is Err ==> after == before
    &&& match cmd {
        ReturnCommand::AddChar(c) => if size is None {
            res == Err::<Seq<char>, EditorError>(EditorError::TerminalUnavailable)
        } else if row >= rows.len() {
            res == Err::<Seq<char>, EditorError>(EditorError::InvalidRow)
        } else {
            &&& res == Ok::<Seq<char>, EditorError>(
                goto_text(after.cursor.screen_x, after.cursor.screen_y),
            )
            &&& after.rest_same(before)
            &&& after.file.path == before.file.path
            &&& after.file.modified
            &&& after.file.lines() == inserted(rows, row, col, c)
            &&& after.cursor_moved_from(before.cursor, 1, 0, size->Some_0)
        },
        ReturnCommand::DelChar => if size is None {
            res == Err::<Seq<char>, EditorError>(EditorError::TerminalUnavailable)
        } else if col > 0 && !row_exists {
            res == Err::<Seq<char>, EditorError>(EditorError::InvalidRow)
        } else {
            &&& res == Ok::<Seq<char>, EditorError>(
                goto_text(after.cursor.screen_x, after.cursor.screen_y),
            )
            &&& after.rest_same(before)
            &&& after.file.path == before.file.path
            &&& col == 0 ==> after.file == before.file
            &&& col > 0 ==> after.file.modified && after.file.lines() == deleted(
                before.file.lines(),
                row,
                col - 1,
            )
            &&& after.cursor_moved_from(before.cursor, -1, 0, size->Some_0)
        },
        ReturnCommand::MoveCursor(dx, dy) => if size is None {
            res == Err::<Seq<char>, EditorError>(EditorError::TerminalUnavailable)
        } else {
            &&& res == Ok::<Seq<char>, EditorError>(
                goto_text(after.cursor.screen_x, after.cursor.screen_y),
            )
            &&& after.moved_from(before, dx as int, dy as int, size->Some_0)
        },
        ReturnCommand::SetMode(mode) => {
            &&& res == Ok::<Seq<char>, EditorError>(mode.cursor_shape())
            &&& after == before.with_mode(mode)
        },
        ReturnCommand::ToggleTerm => {
            &&& res == Ok::<Seq<char>, EditorError>(Seq::empty())
            &&& after.toggled_from(before)
        },
        _ => {
            &&& res == Ok::<Seq<char>, EditorError>(Seq::empty())
            &&& after == before
        },
    }
}

/// The characters of the control text, where there is one.
pub open spec fn text_of(res: Result<String, EditorError>) -> Result<Seq<char>, EditorError> {
    match res {
        Ok(s) => Ok(s@),
        Err(e) => Err(e),
    }
}

impl App {
    /// The editor is in good order: the buffer holds no line feed inside a
    /// line, the cursor stands on a row of the document (row 0 of an empty
    /// one) at a column on that line or just behind it, and its screen
    /// position names a cell.
    pub open spec fn wf(&self) -> bool {
        &&& self.file.wf()
        &&& self.cursor.file_y <= max_row(self.file.lines())
        &&& self.cursor.file_x <= line_len(self.file.lines(), self.cursor.file_y as int)
        &&& self.cursor.on_screen()
    }

    /// The cursor can be edited at: where its row exists (row 0 of an
    /// empty document counts), the column is on the line or just behind it.
    pub open spec fn editable(&self) -> bool {
        self.cursor.file_y <= max_row(self.file.lines()) ==> self.cursor.file_x <= line_len(
            self.file.lines(),
            self.cursor.file_y as int,
        )
    }

    /// Everything but the buffer is as in `before`.
    pub open spec fn same_but_file(&self, before: App) -> bool {
        &&& self.cursor == before.cursor
        &&& self.banner == before.banner
        &&& self.current_mode == before.current_mode
        &&& self.term == before.term
        &&& self.focused == before.focused
        &&& self.palette == before.palette
        &&& self.file.path == before.file.path
    }

    /// Banner, mode, panel, focus and palette are as in `before`.
    pub open spec fn rest_same(&self, before: App) -> bool {
        &&& self.banner == before.banner
        &&& self.current_mode == before.current_mode
        &&& self.term == before.term
        &&& self.focused == before.focused
        &&& self.palette == before.palette
    }

    /// The cursor is where a move of `dx` columns and `dy` rows from `from`
    /// leads on this state's buffer, in this state's mode, on a terminal of
    /// size `size`.
    pub open spec fn cursor_moved_from(&self, from: Cursor, dx: int, dy: int, size: (u16, u16)) -> bool {
        &&& self.cursor.file_y as int == target_row(from.file_y as int, dy, self.file.lines())
        &&& self.cursor.file_x as int == target_col(
            from.file_x as int,
            dx,
            self.file.lines(),
            self.cursor.file_y as int,
            self.current_mode,
        )
        &&& self.cursor.projected(size)
        &&& self.cursor.on_screen()
    }

    /// The state reached from `before` by a cursor move of `dx` columns
    /// and `dy` rows on a terminal of size `size`.
    pub open spec fn moved_from(&self, before: App, dx: int, dy: int, size: (u16, u16)) -> bool {
        &&& self.file == before.file
        &&& self.rest_same(before)
        &&& self.cursor_moved_from(before.cursor, dx, dy, size)
    }

    /// The state reached from `before` by showing a hidden panel or hiding
    /// a shown one; the focus goes with it.
    pub open spec fn toggled_from(&self, before: App) -> bool {
        &&& self.file == before.file
        &&& self.cursor == before.cursor
        &&& self.banner == before.banner
        &&& self.current_mode == before.current_mode
        &&& self.palette == before.palette
        &&& self.term.height == before.term.height
        &&& self.term.visible == !before.term.visible
        &&& self.focused == match before.focused {
            Focus::File => Focus::Term,
            Focus::Term => Focus::File,
        }
    }

    /// The same state in another mode.
    pub open spec fn with_mode(self, mode: Mode) -> App {
        App { current_mode: mode, ..self }
    }

    /// The rows left to the document on a terminal of `height` rows.
    pub open spec fn viewport_height(&self, height: u16) -> int {
        height - self.banner.height - self.term.real_height()
    }

    /// The status line on the rows that end with row `bottom`, and the
    /// cursor's return to its cell.
    pub open spec fn banner_frame(&self, bottom: u16) -> Seq<char> {
        banner_line(
            self.banner.height,
            bottom,
            banner_text(
                self.cursor.file_x as nat,
                self.cursor.file_y as nat,
                self.file.path_name(),
                self.file.path is Some,
                self.file.modified,
                self.current_mode,
                self.palette,
            ),
        ) + goto_text(self.cursor.screen_x, self.cursor.screen_y)
    }

    /// The command panel on the rows just above the status line, where it
    /// is shown.
    pub open spec fn panel_frame(&self, size: (u16, u16)) -> Seq<char> {
        if self.term.visible {
            panel_rows(
                size.1 - self.banner.height - self.term.height + 1,
                self.term.height as nat,
                size.0,
                self.palette,
            )
        } else {
            Seq::empty()
        }
    }

    /// One whole frame for a terminal of size `size`: the screen is
    /// cleared from the top-left cell, the document's viewport is drawn on
    /// the rows that the footer leaves, then the panel and the status line
    /// on the bottom rows, and the cursor is put back.
    pub open spec fn frame_text(&self, size: (u16, u16)) -> Seq<char> {
        goto_text(1, 1) + clear_all_text() + rows_text(
            viewport(as_rows(self.file.lines()), size.0, self.viewport_height(size.1) as u16),
            self.viewport_height(size.1) as nat,
            size.1,
        ) + self.panel_frame(size) + self.banner_frame(size.1)
    }

    /// A session on an empty buffer for the file named in `args`, in
    /// navigation mode, with the cursor at the document's origin.
    pub fn new(args: Args, palette: Palette) -> (app: App)
        ensures
            app.wf(),
            app.cursor == (Cursor { file_y: 0, file_x: 0, screen_x: 1, screen_y: 1 }),
            app.file.path == args.file,
            app.file.lines() == Seq::<Seq<char>>::empty(),
            !app.file.modified,
            app.banner.height == 1,
            app.current_mode == Mode::Normal,
            !app.term.visible,
            app.term.height == 1,
            app.focused == Focus::File,
            app.palette == palette,
    {
        App {
            cursor: Cursor::new(0, 0),
            file: File::new(args.file),
            banner: Banner::new(1),
            current_mode: Mode::Normal,
            term: Terminal::new(1),
            focused: Focus::File,
            palette,
        }
    }

    /// Whether `editable()` holds.
    pub fn can_edit(&self) -> (r: bool)
        ensures
            r == self.editable(),
    {
        if self.cursor.file_y < self.file.data.len() {
            self.cursor.file_x <= self.file.data[self.cursor.file_y].as_str().unicode_len()
        } else if self.file.data.len() == 0 && self.cursor.file_y == 0 {
            self.cursor.file_x == 0
        } else {
            true
        }
    }

    /// Moves the cursor and returns the control sequence that puts the
    /// terminal's cursor on its new cell.
    pub fn move_cursor(&mut self, x_off: isize, y_off: isize, size: Option<(u16, u16)>) -> (res:
        Result<String, EditorError>)
        requires
            size is Some ==> size->Some_0.0 >= 1 && size->Some_0.1 >= 1,
        ensures
            size is None ==> res is Err && res->Err_0 == EditorError::TerminalUnavailable
                && *final(self) == *old(self),
            size is Some ==> res is Ok && res->Ok_0@ == goto_text(
                final(self).cursor.screen_x,
                final(self).cursor.screen_y,
            ) && final(self).moved_from(*old(self), x_off as int, y_off as int, size->Some_0),
    {
        match self.cursor.move_and_set_coords(
            x_off,
            y_off,
            &self.file.data,
            self.current_mode,
            size,
        ) {
            Err(e) => Err(e),
            Ok(()) => Ok(self.show_cursor()),
        }
    }

    /// The control sequence that puts the terminal's cursor on the
    /// cursor's cell.
    pub fn show_cursor(&self) -> (s: String)
        requires
            self.cursor.on_screen(),
        ensures
            s@ == goto_text(self.cursor.screen_x, self.cursor.screen_y),
    {
        goto(self.cursor.screen_x, self.cursor.screen_y)
    }

    /// One whole frame for a terminal of size `size`.
    pub fn show_screen(&self, size: (u16, u16)) -> (s: String)
        requires
            self.banner.height + self.term.real_height() <= size.1,
            self.term.visible ==> size.0 >= 1,
            self.cursor.on_screen(),
        ensures
            s@ == self.frame_text(size),
    {
        let (width, end) = size;
        let bottom_offset: u16 = self.banner.height + self.term.get_real_height();
        let height: u16 = end - bottom_offset;
        let rows = viewport_rows(&self.file.data, width, height);
        let mut out = goto(1, 1);
        out.append(clear_all().as_str());
        let ghost head = out@;
        let ghost shown = lines_of(rows@);
        let mut i: u16 = 0;
        while i < height
            invariant
                i <= height,
                height <= end,
                rows@.len() == height,
                shown == lines_of(rows@),
                out@ == head + rows_text(shown, i as nat, end),
            decreases height - i,
        {
            out.append(rows[i as usize].as_str());
            if i + 1 < end {
                out.append("\n\r");
            }
            i += 1;
            assert(out@ =~= head + rows_text(shown, i as nat, end));
        }
        if self.term.visible {
            let panel = self.write_term(width, end - self.banner.height);
            out.append(panel.as_str());
        } else {
            assert(out@ =~= out@ + Seq::<char>::empty());
        }
        let banner = self.write_banner(end);
        out.append(banner.as_str());
        out
    }

    /// Inserts `c` at the cursor. The cursor itself stays where it is. An
    /// empty document stands for one blank line, which the first character
    /// typed brings into being.
    pub fn insert_char(&mut self, c: char) -> (res: Result<(), EditorError>)
        requires
            old(self).editable(),
        ensures
            final(self).same_but_file(*old(self)),
            old(self).cursor.file_y >= as_rows(old(self).file.lines()).len() ==> res == Err::<
                (),
                EditorError,
            >(EditorError::InvalidRow) && *final(self) == *old(self),
            old(self).cursor.file_y < as_rows(old(self).file.lines()).len() ==> res is Ok
                && final(self).file.modified && final(self).file.lines() == inserted(
                as_rows(old(self).file.lines()),
                old(self).cursor.file_y as int,
                old(self).cursor.file_x as int,
                c,
            ),
            old(self).file.wf() && c != '\n' ==> final(self).file.wf(),
    {
        if self.cursor.file_y == 0 {
            self.file.open_first_row();
        }
        self.file.insert_char(c, self.cursor.file_y, self.cursor.file_x)
    }

    /// Removes the character before the cursor. At column 0 there is none,
    /// and nothing happens.
    pub fn backspace(&mut self) -> (res: Result<(), EditorError>)
        requires
            old(self).editable(),
        ensures
            final(self).same_but_file(*old(self)),
            old(self).cursor.file_x == 0 ==> res is Ok && *final(self) == *old(self),
            old(self).cursor.file_x > 0 && old(self).cursor.file_y >= old(self).file.data@.len()
                ==> res == Err::<(), EditorError>(EditorError::InvalidRow) && *final(self) == *old(self),
            old(self).cursor.file_x > 0 && old(self).cursor.file_y < old(self).file.data@.len()
                ==> res is Ok && final(self).file.modified && final(self).file.lines() == deleted(
                old(self).file.lines(),
                old(self).cursor.file_y as int,
                old(self).cursor.file_x - 1,
            ),
            old(self).file.wf() ==> final(self).file.wf(),
    {
        if self.cursor.file_x == 0 {
            return Ok(());
        }
        self.file.del_char(self.cursor.file_y, self.cursor.file_x - 1)
    }

    /// Changes the mode and returns the control sequence for the new
    /// mode's cursor shape. Nothing else changes.
    pub fn update_mode(&mut self, mode: Mode) -> (s: String)
        ensures
            *final(self) == old(self).with_mode(mode),
            s@ == mode.cursor_shape(),
    {
        self.current_mode = mode;
        self.current_mode.get_cursor_set_string()
    }

    /// The status line on the rows that end with row `bottom`, followed by
    /// the cursor's return to its cell.
    pub fn write_banner(&self, bottom: u16) -> (s: String)
        requires
            self.banner.height <= bottom,
            self.cursor.on_screen(),
        ensures
            s@ == self.banner_frame(bottom),
    {
        let mut out = self.banner.write_banner(
            self.cursor.file_x,
            self.cursor.file_y,
            &self.file,
            &self.current_mode,
            &self.palette,
            bottom,
        );
        out.append(self.show_cursor().as_str());
        out
    }

    /// The command panel for a terminal `width` cells wide, on the rows
    /// that end with row `bottom`.
    pub fn write_term(&self, width: u16, bottom: u16) -> (s: String)
        requires
            self.term.height <= bottom,
            width >= 1,
        ensures
            s@ == panel_rows(
                bottom - self.term.height + 1,
                self.term.height as nat,
                width,
                self.palette,
            ),
    {
        self.term.write_term(width, bottom, &self.palette)
    }

    /// Carries out one command. Inserting and deleting move the cursor
    /// along with the text; quitting and saving are the caller's to carry
    /// out and change nothing here.
    pub fn apply(&mut self, cmd: ReturnCommand, size: Option<(u16, u16)>) -> (res: Result<
        String,
        EditorError,
    >)
        requires
            old(self).editable(),
            size is Some ==> size->Some_0.0 >= 1 && size->Some_0.1 >= 1,
        ensures
            applied(*old(self), *final(self), cmd, size, text_of(res)),
            old(self).wf() && admissible(old(self).current_mode, cmd) ==> final(self).wf(),
            old(self).wf() ==> (res is Err ==> res->Err_0 == EditorError::TerminalUnavailable
                && size is None),
    {
        match cmd {
            ReturnCommand::AddChar(c) => {
                if size.is_none() {
                    return Err(EditorError::TerminalUnavailable);
                }
                match self.insert_char(c) {
                    Err(e) => Err(e),
                    Ok(()) => self.move_cursor(1, 0, size),
                }
            },
            ReturnCommand::DelChar => {
                if size.is_none() {
                    return Err(EditorError::TerminalUnavailable);
                }
                match self.backspace() {
                    Err(e) => Err(e),
                    Ok(()) => self.move_cursor(-1, 0, size),
                }
            },
            ReturnCommand::MoveCursor(dx, dy) => self.move_cursor(dx, dy, size),
            ReturnCommand::SetMode(mode) => Ok(self.update_mode(mode)),
            ReturnCommand::ToggleTerm => {
                self.term.toggle();
                self.focused = match self.focused {
                    Focus::File => Focus::Term,
                    Focus::Term => Focus::File,
                };
                Ok(String::new())
            },
            _ => Ok(String::new()),
        }
    }

    /// One keystroke: the key is mapped to a command in the current mode
    /// and the command is carried out. An editor in good order stays so.
    pub fn handle_key(&mut self, key: Key, size: Option<(u16, u16)>) -> (res: (
        ReturnCommand,
        Result<String, EditorError>,
    ))
        requires
            old(self).editable(),
            size is Some ==> size->Some_0.0 >= 1 && size->Some_0.1 >= 1,
        ensures
            res.0 == command_for(old(self).current_mode, key),
            applied(*old(self), *final(self), res.0, size, text_of(res.1)),
            old(self).wf() ==> final(self).wf(),
            old(self).wf() ==> (res.1 is Err ==> res.1->Err_0 == EditorError::TerminalUnavailable
                && size is None),
    {
        let cmd = InputHandler::handle_input(self.current_mode, key);
        let out = self.apply(cmd, size);
        (cmd, out)
    }
}

/// Leaving navigation mode for insertion mode and coming back changes
/// nothing: the buffer is the same after each change of mode, and the
/// whole state is the same after the round trip.
pub proof fn mode_round_trip_keeps_buffer(app: App)
    ensures
        app.with_mode(Mode::Insert).file == app.file,
        app.with_mode(Mode::Insert).with_mode(Mode::Normal).file == app.file,
        app.current_mode == Mode::Normal ==> app.with_mode(Mode::Insert).with_mode(Mode::Normal)
            == app,
{
}

/// Two frames drawn from the same state for the same terminal are equal.
pub proof fn render_is_repeatable(app: App, size: (u16, u16), first: Seq<char>, second: Seq<char>)
    requires
        first == app.frame_text(size),
        second == app.frame_text(size),
    ensures
        first == second,
{
}

} // verus!
