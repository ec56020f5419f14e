use vstd::prelude::*;
use vstd::string::*;
use crate::app::Mode;
use crate::error::EditorError;
use crate::output::{screen_cell, OutputHandler};
use crate::text::{clamp_int, line_len, lines_of, max_row};

verus! {

/// The editing position, kept both as a 0-based position in the document and
/// as the 1-based terminal cell that shows it.
#[derive(Debug, Clone, Copy, PartialEq, Eq, Structural)]
pub struct Cursor {
    /// 0 is the first line of the document.
    pub file_y: usize,
    /// 0 is the first character of the line.
    pub file_x: usize,
    /// 1 is the leftmost cell.
    pub screen_x: u16,
    /// 1 is the topmost cell.
    pub screen_y: u16,
}

/// The largest column the cursor may take on row `row`: the line's length,
/// plus the mode's extension, capped at what a `usize` holds.
pub open spec fn col_limit(lines: Seq<Seq<char>>, row: int, mode: Mode) -> int {
    let limit = line_len(lines, row) + mode.extension();
    if limit > usize::MAX {
        usize::MAX as int
    } else {
        limit
    }
}

/// The row reached from `row` by `dy` rows.
pub open spec fn target_row(row: int, dy: int, lines: Seq<Seq<char>>) -> int {
    clamp_int(row + dy, 0, max_row(lines))
}

/// The column reached from `col` by `dx` columns when the cursor lands on
/// row `row`.
pub open spec fn target_col(col: int, dx: int, lines: Seq<Seq<char>>, row: int, mode: Mode) -> int {
    clamp_int(col + dx, 0, col_limit(lines, row, mode))
}

/// The column after `count` single steps to the left on row `row`.
pub open spec fn after_left_moves(
    col: int,
    count: nat,
    lines: Seq<Seq<char>>,
    row: int,
    mode: Mode,
) -> int
    decreases count,
{
    if count == 0 {
        col
    } else {
        target_col(after_left_moves(col, (count - 1) as nat, lines, row, mode), -1, lines, row, mode)
    }
}

impl Cursor {
    /// The document position lies within the document: the row exists (or
    /// is 0 in an empty document) and the column respects the row's limit.
    pub open spec fn within(&self, lines: Seq<Seq<char>>, mode: Mode) -> bool {
        &&& self.file_y <= max_row(lines)
        &&& self.file_x <= line_len(lines, self.file_y as int) + mode.extension()
    }

    /// The screen position is the projection of the document position onto a
    /// terminal of the given size.
    pub open spec fn projected(&self, size: (u16, u16)) -> bool {
        &&& self.screen_x as int == screen_cell(self.file_x as int, size.0 as int)
        &&& self.screen_y as int == screen_cell(self.file_y as int, size.1 as int)
    }

    /// The screen position names a cell: both coordinates are at least 1.
    pub open spec fn on_screen(&self) -> bool {
        self.screen_x >= 1 && self.screen_y >= 1
    }

    /// A cursor at row `file_y`, column `file_x`, shown in the top-left cell
    /// until it is first moved.
    pub fn new(file_y: usize, file_x: usize) -> (c: Cursor)
        ensures
            c.file_y == file_y,
            c.file_x == file_x,
            c.screen_x == 1,
            c.screen_y == 1,
            c.on_screen(),
            file_y == 0 && file_x == 0 ==> forall|size: (u16, u16)|
                size.0 >= 1 && size.1 >= 1 ==> #[trigger] c.projected(size),
    {
        Cursor { file_y, file_x, screen_x: 1, screen_y: 1 }
    }

    /// Moves by `x_off` columns and `y_off` rows. The row is clamped to the
    /// document first, then the column to the limit of the row reached, and
    /// the result is projected onto the terminal, whose size `size` is what
    /// the query just gave (`None` when it failed).
    pub fn move_and_set_coords(
        &mut self,
        x_off: isize,
        y_off: isize,
        file_data: &Vec<String>,
        mode: Mode,
        size: Option<(u16, u16)>,
    ) -> (res: Result<(), EditorError>)
        requires
            size is Some ==> size->Some_0.0 >= 1 && size->Some_0.1 >= 1,
        ensures
            size is None ==> res == Err::<(), EditorError>(EditorError::TerminalUnavailable)
                && *final(self) == *old(self),
            size is Some ==> res is Ok,
            size is Some ==> final(self).file_y as int == target_row(
                old(self).file_y as int,
                y_off as int,
                lines_of(file_data@),
            ),
            size is Some ==> final(self).file_x as int == target_col(
                old(self).file_x as int,
                x_off as int,
                lines_of(file_data@),
                final(self).file_y as int,
                mode,
            ),
            size is Some ==> final(self).within(lines_of(file_data@), mode),
            size is Some ==> final(self).projected(size->Some_0) && final(self).on_screen(),
    {
        let dims = match size {
            None => {
                return Err(EditorError::TerminalUnavailable);
            },
            Some(dims) => dims,
        };
        let n = file_data.len();
        let max_y: usize = if n == 0 {
            0
        } else {
            n - 1
        };
        let y = shift_clamped(self.file_y, y_off, max_y);
        let len: usize = if n == 0 {
            0
        } else {
            file_data[y].as_str().unicode_len()
        };
        let ext = mode.get_extension();
        let max_x: usize = if len > usize::MAX - ext {
            usize::MAX
        } else {
            len + ext
        };
        let x = shift_clamped(self.file_x, x_off, max_x);
        let cell = OutputHandler::new(dims).project(x, y);
        self.file_y = y;
        self.file_x = x;
        self.screen_x = cell.0;
        self.screen_y = cell.1;
        Ok(())
    }
}

/// `pos + off`, brought into `[0, hi]`.
fn shift_clamped(pos: usize, off: isize, hi: usize) -> (r: usize)
    ensures
        r as int == clamp_int(pos as int + off as int, 0, hi as int),
{
    let cand: i128 = pos as i128 + off as i128;
    if cand < 0 {
        0
    } else if cand > hi as i128 {
        hi
    } else {
        cand as usize
    }
}

/// The position `(row, column)` reached from `(row, col)` by the moves in
/// `moves`, in order; each move is `(columns, rows)`.
pub open spec fn after_moves(
    row: int,
    col: int,
    moves: Seq<(int, int)>,
    lines: Seq<Seq<char>>,
    mode: Mode,
) -> (int, int)
    decreases moves.len(),
{
    if moves.len() == 0 {
        (row, col)
    } else {
        let before = after_moves(row, col, moves.drop_last(), lines, mode);
        let landed = target_row(before.0, moves.last().1, lines);
        (landed, target_col(before.1, moves.last().0, lines, landed, mode))
    }
}

/// After any move the row is a row of the document and the column lies
/// within `[0, line length + extension]` of that row.
pub proof fn moved_column_within_line(
    row: int,
    col: int,
    dx: int,
    dy: int,
    lines: Seq<Seq<char>>,
    mode: Mode,
)
    ensures
        0 <= target_row(row, dy, lines) <= max_row(lines),
        0 <= target_col(col, dx, lines, target_row(row, dy, lines), mode) <= line_len(
            lines,
            target_row(row, dy, lines),
        ) + mode.extension(),
{
}

/// The same holds after any sequence of moves, from any starting point.
pub proof fn moves_keep_column_within_line(
    row: int,
    col: int,
    moves: Seq<(int, int)>,
    lines: Seq<Seq<char>>,
    mode: Mode,
)
    requires
        moves.len() > 0,
    ensures
        0 <= after_moves(row, col, moves, lines, mode).0 <= max_row(lines),
        0 <= after_moves(row, col, moves, lines, mode).1 <= line_len(
            lines,
            after_moves(row, col, moves, lines, mode).0,
        ) + mode.extension(),
{
    let before = after_moves(row, col, moves.drop_last(), lines, mode);
    moved_column_within_line(before.0, before.1, moves.last().0, moves.last().1, lines, mode);
}

/// Stepping left often enough reaches column 0, and a step left from
/// column 0 stays there.
pub proof fn left_moves_reach_zero(col: int, count: nat, lines: Seq<Seq<char>>, row: int, mode: Mode)
    requires
        0 <= col,
    ensures
        count >= col ==> after_left_moves(col, count, lines, row, mode) == 0,
        0 <= after_left_moves(col, count, lines, row, mode),
        after_left_moves(col, count, lines, row, mode) <= if col > count {
            col - count
        } else {
            0
        },
        target_col(0, -1, lines, row, mode) == 0,
    decreases count,
{
    if count > 0 {
        left_moves_reach_zero(col, (count - 1) as nat, lines, row, mode);
    }
}

/// Moving up from the first row, or down from the last, leaves the row as
/// it is.
pub proof fn vertical_moves_stop_at_edges(lines: Seq<Seq<char>>)
    ensures
        target_row(0, -1, lines) == 0,
        target_row(max_row(lines), 1, lines) == max_row(lines),
{
}

/// A move to a shorter line brings the column down to that line's limit.
pub proof fn row_change_reclamps(col: int, lines: Seq<Seq<char>>, row: int, mode: Mode)
    requires
        0 <= row < lines.len(),
        col > col_limit(lines, row, mode),
    ensures
        target_col(col, 0, lines, row, mode) == col_limit(lines, row, mode),
{
}

} // verus!
