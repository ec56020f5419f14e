use vstd::prelude::*;
use vstd::string::*;
use crate::error::EditorError;
use crate::text::{joined, lines_of, no_newlines, push_char};
use vstd::std_specs::iter::IteratorSpec;

verus! {

/// The document being edited: its lines, where it lives on disk, and whether
/// it has changed since it was last loaded or saved.
pub struct File {
    pub path: Option<String>,
    pub data: Vec<String>,
    pub modified: bool,
}

/// `lines` with `ch` inserted before column `col` of row `row`.
pub open spec fn inserted(lines: Seq<Seq<char>>, row: int, col: int, ch: char) -> Seq<Seq<char>> {
    lines.update(row, lines[row].insert(col, ch))
}

/// `lines` with the character at column `col` of row `row` removed.
pub open spec fn deleted(lines: Seq<Seq<char>>, row: int, col: int) -> Seq<Seq<char>> {
    lines.update(row, lines[row].remove(col))
}

/// `line` without the carriage return at its end, where it has one.
pub open spec fn strip_cr(line: Seq<char>) -> Seq<char> {
    if line.len() > 0 && line.last() == '\r' {
        line.drop_last()
    } else {
        line
    }
}

/// The lines of `text` from position `pos` on, where `current` holds the
/// characters of the line that `pos` stands in. A line ends at a line feed,
/// and a carriage return just before that line feed goes with it; what
/// follows the last line feed is a line of its own unless it is empty.
pub open spec fn split_from(text: Seq<char>, pos: int, current: Seq<char>) -> Seq<Seq<char>>
    decreases text.len() - pos,
{
    if pos < 0 || pos >= text.len() {
        if current.len() > 0 {
            seq![current]
        } else {
            Seq::empty()
        }
    } else if text[pos] == '\n' {
        seq![strip_cr(current)] + split_from(text, pos + 1, Seq::empty())
    } else {
        split_from(text, pos + 1, current.push(text[pos]))
    }
}

/// The lines of a file's text.
pub open spec fn split_text(text: Seq<char>) -> Seq<Seq<char>> {
    split_from(text, 0, Seq::empty())
}

/// The held-back carriage return, where there is one.
pub open spec fn held(pending: bool) -> Seq<char> {
    if pending {
        seq!['\r']
    } else {
        Seq::empty()
    }
}

/// Splits a file's text into its lines.
pub fn split_lines(text: &str) -> (lines: Vec<String>)
    ensures
        lines_of(lines@) == split_text(text@),
        no_newlines(lines_of(lines@)),
{
    broadcast use vstd::string::group_string_axioms;

    let mut out: Vec<String> = Vec::new();
    let mut line = String::new();
    // A carriage return is held back until the next character shows
    // whether it ends the line.
    let mut pending = false;
    let mut it = text.chars();
    let ghost mut pos: int = 0;
    assert(it.remaining() =~= text@.subrange(0, text@.len() as int));
    assert(lines_of(out@) + split_from(text@, 0, line@ + held(pending)) =~= split_text(text@)) by {
        assert(line@ + held(pending) =~= Seq::<char>::empty());
    }
    loop
        invariant
            0 <= pos <= text@.len(),
            it.remaining() == text@.subrange(pos, text@.len() as int),
            split_text(text@) == lines_of(out@) + split_from(text@, pos, line@ + held(pending)),
            no_newlines(lines_of(out@)),
            forall|j: int| 0 <= j < line@.len() ==> line@[j] != '\n',
            !pending && line@.len() > 0 ==> line@.last() != '\r',
        ensures
            pos == text@.len(),
            split_text(text@) == lines_of(out@) + split_from(text@, pos, line@ + held(pending)),
            no_newlines(lines_of(out@)),
            forall|j: int| 0 <= j < line@.len() ==> line@[j] != '\n',
        decreases text@.len() - pos,
    {
        let ghost before = it.remaining();
        let ghost done = lines_of(out@);
        let ghost current = line@ + held(pending);
        match it.next() {
            None => {
                break ;
            },
            Some(c) => {
                assert(before.len() > 0);
                assert(c == text@[pos]) by {
                    assert(before[0] == text@[pos]);
                }
                assert(it.remaining() =~= text@.subrange(pos + 1, text@.len() as int));
                if c == '\n' {
                    assert(strip_cr(current) =~= line@) by {
                        if pending {
                            assert(current.last() == '\r');
                            assert(current.drop_last() =~= line@);
                        } else {
                            assert(current =~= line@);
                        }
                    }
                    let ghost finished = line@;
                    out.push(line);
                    line = String::new();
                    pending = false;
                    assert(lines_of(out@) =~= done + seq![finished]);
                    assert(line@ + held(pending) =~= Seq::<char>::empty());
                    assert(no_newlines(lines_of(out@))) by {
                        assert forall|i: int, j: int|
                            0 <= i < lines_of(out@).len() && 0 <= j < lines_of(
                                out@,
                            )[i].len() implies (#[trigger] lines_of(out@)[i][j]) != '\n' by {
                            if i < done.len() {
                                assert(lines_of(out@)[i][j] == done[i][j]);
                            } else {
                                assert(lines_of(out@)[i][j] == finished[j]);
                            }
                        }
                    }
                    assert(done + (seq![finished] + split_from(text@, pos + 1, Seq::empty()))
                        =~= (done + seq![finished]) + split_from(text@, pos + 1, Seq::empty()));
                } else {
                    if pending {
                        push_char(&mut line, '\r');
                    }
                    if c == '\r' {
                        pending = true;
                    } else {
                        pending = false;
                        push_char(&mut line, c);
                    }
                    assert(line@ + held(pending) =~= current.push(c));
                }
                proof {
                    pos = pos + 1;
                }
            },
        }
    }
    let ghost rest = line@ + held(pending);
    if pending {
        push_char(&mut line, '\r');
    }
    let ghost done = lines_of(out@);
    let ghost last = line@;
    assert(last =~= rest);
    assert(split_from(text@, pos, last) == if last.len() > 0 {
        seq![last]
    } else {
        Seq::empty()
    });
    if line.as_str().unicode_len() > 0 {
        out.push(line);
        assert(lines_of(out@) =~= done + seq![last]);
        assert(no_newlines(lines_of(out@))) by {
            assert forall|i: int, j: int|
                0 <= i < lines_of(out@).len() && 0 <= j < lines_of(out@)[i].len() implies (
            #[trigger] lines_of(out@)[i][j]) != '\n' by {
                if i < done.len() {
                    assert(lines_of(out@)[i][j] == done[i][j]);
                } else {
                    assert(lines_of(out@)[i][j] == last[j]);
                }
            }
        }
    } else {
        assert(done + Seq::<Seq<char>>::empty() =~= done);
    }
    out
}

/// The rows one can type into: an empty document stands for one blank line.
pub open spec fn as_rows(lines: Seq<Seq<char>>) -> Seq<Seq<char>> {
    if lines.len() == 0 {
        seq![Seq::empty()]
    } else {
        lines
    }
}

impl File {
    /// The document as a sequence of lines of characters.
    pub open spec fn lines(&self) -> Seq<Seq<char>> {
        lines_of(self.data@)
    }

    /// The buffer invariant: no line holds a line feed.
    pub open spec fn wf(&self) -> bool {
        no_newlines(self.lines())
    }

    /// The text shown for the file's name.
    pub open spec fn path_name(&self) -> Seq<char> {
        match self.path {
            Some(p) => p@,
            None => "No file path loaded!"@,
        }
    }

    /// An empty, unmodified document for the given path.
    pub fn new(path: Option<String>) -> (f: File)
        ensures
            f.path == path,
            f.data@.len() == 0,
            f.lines() == Seq::<Seq<char>>::empty(),
            !f.modified,
            f.wf(),
    {
        let f = File { path, data: Vec::new(), modified: false };
        assert(f.lines() =~= Seq::<Seq<char>>::empty());
        f
    }

    /// Takes over what reading the file gave: `read` is the file's whole
    /// text, or `None` when the file could not be read. Without a path the
    /// document becomes empty whatever was read; a failed read leaves
    /// everything as it was.
    pub fn load(&mut self, read: Option<&str>) -> (res: Result<(), EditorError>)
        ensures
            final(self).path == old(self).path,
            old(self).path is None ==> res is Ok && final(self).lines() == Seq::<
                Seq<char>,
            >::empty() && !final(self).modified,
            old(self).path is Some && read is None ==> res == Err::<(), EditorError>(
                EditorError::IOError,
            ) && *final(self) == *old(self),
            old(self).path is Some && read is Some ==> res is Ok && final(self).lines()
                == split_text(read->Some_0@) && !final(self).modified,
            res is Ok ==> final(self).wf(),
    {
        if self.path.is_none() {
            self.data = Vec::new();
            self.modified = false;
            assert(self.lines() =~= Seq::<Seq<char>>::empty());
            return Ok(());
        }
        match read {
            None => Err(EditorError::IOError),
            Some(text) => {
                self.data = split_lines(text);
                self.modified = false;
                Ok(())
            },
        }
    }

    /// Gives an empty document the one blank line it stands for, so that
    /// there is a row to type into. Any other document is left as it is.
    pub fn open_first_row(&mut self)
        ensures
            final(self).path == old(self).path,
            final(self).modified == old(self).modified,
            final(self).lines() == as_rows(old(self).lines()),
            old(self).data@.len() > 0 ==> *final(self) == *old(self),
            old(self).wf() ==> final(self).wf(),
    {
        if self.data.len() == 0 {
            self.data.push(String::new());
            assert(self.lines() =~= as_rows(old(self).lines()));
        }
    }

    /// Inserts `c` before column `x` of row `y`.
    pub fn insert_char(&mut self, c: char, y: usize, x: usize) -> (res: Result<(), EditorError>)
        requires
            y < old(self).data@.len() ==> x <= old(self).lines()[y as int].len(),
        ensures
            final(self).path == old(self).path,
            y >= old(self).data@.len() ==> res == Err::<(), EditorError>(EditorError::InvalidRow)
                && *final(self) == *old(self),
            y < old(self).data@.len() ==> res is Ok && final(self).modified && final(self).lines()
                == inserted(old(self).lines(), y as int, x as int, c),
            old(self).wf() && c != '\n' ==> final(self).wf(),
    {
        if y >= self.data.len() {
            return Err(EditorError::InvalidRow);
        }
        let mut line = String::new();
        let old_line = self.data[y].as_str();
        let n = old_line.unicode_len();
        line.append(old_line.substring_char(0, x));
        push_char(&mut line, c);
        line.append(old_line.substring_char(x, n));
        assert(line@ =~= old(self).lines()[y as int].insert(x as int, c));
        self.data.set(y, line);
        self.modified = true;
        assert(self.lines() =~= inserted(old(self).lines(), y as int, x as int, c));
        proof {
            if old(self).wf() && c != '\n' {
                assert forall|i: int, j: int|
                    0 <= i < self.lines().len() && 0 <= j < self.lines()[i].len() implies (
                #[trigger] self.lines()[i][j]) != '\n' by {
                    if i == y {
                        if j < x {
                            assert(self.lines()[i][j] == old(self).lines()[i][j]);
                        } else if j > x {
                            assert(self.lines()[i][j] == old(self).lines()[i][j - 1]);
                        }
                    } else {
                        assert(self.lines()[i][j] == old(self).lines()[i][j]);
                    }
                }
            }
        }
        Ok(())
    }

    /// Removes the character at column `x` of row `y`.
    pub fn del_char(&mut self, y: usize, x: usize) -> (res: Result<(), EditorError>)
        requires
            y < old(self).data@.len() ==> x < old(self).lines()[y as int].len(),
        ensures
            final(self).path == old(self).path,
            y >= old(self).data@.len() ==> res == Err::<(), EditorError>(EditorError::InvalidRow)
                && *final(self) == *old(self),
            y < old(self).data@.len() ==> res is Ok && final(self).modified && final(self).lines()
                == deleted(old(self).lines(), y as int, x as int),
            old(self).wf() ==> final(self).wf(),
    {
        if y >= self.data.len() {
            return Err(EditorError::InvalidRow);
        }
        let mut line = String::new();
        let old_line = self.data[y].as_str();
        let n = old_line.unicode_len();
        line.append(old_line.substring_char(0, x));
        line.append(old_line.substring_char(x + 1, n));
        assert(line@ =~= old(self).lines()[y as int].remove(x as int));
        self.data.set(y, line);
        self.modified = true;
        assert(self.lines() =~= deleted(old(self).lines(), y as int, x as int));
        proof {
            if old(self).wf() {
                assert forall|i: int, j: int|
                    0 <= i < self.lines().len() && 0 <= j < self.lines()[i].len() implies (
                #[trigger] self.lines()[i][j]) != '\n' by {
                    if i == y {
                        if j < x {
                            assert(self.lines()[i][j] == old(self).lines()[i][j]);
                        } else {
                            assert(self.lines()[i][j] == old(self).lines()[i][j + 1]);
                        }
                    } else {
                        assert(self.lines()[i][j] == old(self).lines()[i][j]);
                    }
                }
            }
        }
        Ok(())
    }

    /// The whole document as it is written to disk: the lines joined by
    /// line feeds.
    pub fn contents(&self) -> (s: String)
        ensures
            s@ == joined(self.lines()),
    {
        let mut s = String::new();
        let mut i: usize = 0;
        while i < self.data.len()
            invariant
                i <= self.data@.len(),
                s@ == joined(self.lines().take(i as int)),
            decreases self.data@.len() - i,
        {
            let ghost before = self.lines().take(i as int);
            let ghost after = self.lines().take(i + 1);
            assert(after.drop_last() =~= before);
            assert(after.last() == self.data@[i as int]@);
            if i > 0 {
                push_char(&mut s, '\n');
                assert(s@ =~= joined(before) + seq!['\n']);
            } else {
                assert(before.len() == 0);
            }
            s.append(self.data[i].as_str());
            i += 1;
        }
        assert(self.lines().take(i as int) =~= self.lines());
        s
    }

    /// Records the outcome of writing `contents()` to the file's path:
    /// `written` says whether the write succeeded. A buffer without a path
    /// cannot be saved, and a failed write leaves it marked as modified.
    pub fn save(&mut self, written: bool) -> (res: Result<(), EditorError>)
        ensures
            final(self).path == old(self).path,
            final(self).data == old(self).data,
            old(self).path is None ==> res == Err::<(), EditorError>(EditorError::NoPath)
                && final(self).modified == old(self).modified,
            old(self).path is Some && !written ==> res == Err::<(), EditorError>(
                EditorError::IOError,
            ) && final(self).modified == old(self).modified,
            old(self).path is Some && written ==> res is Ok && !final(self).modified,
    {
        if self.path.is_none() {
            return Err(EditorError::NoPath);
        }
        if !written {
            return Err(EditorError::IOError);
        }
        self.modified = false;
        Ok(())
    }

    /// The file's path as text, or a notice where there is none.
    pub fn get_path_name(&self) -> (s: String)
        ensures
            s@ == self.path_name(),
    {
        match &self.path {
            Some(p) => p.clone(),
            None => String::from_str("No file path loaded!"),
        }
    }
}

/// Inserting a character and then deleting at the same position gives the
/// document back exactly.
pub proof fn insert_then_delete_restores(lines: Seq<Seq<char>>, row: int, col: int, ch: char)
    requires
        0 <= row < lines.len(),
        0 <= col <= lines[row].len(),
    ensures
        deleted(inserted(lines, row, col, ch), row, col) == lines,
{
    assert(lines[row].insert(col, ch).remove(col) =~= lines[row]);
    assert(deleted(inserted(lines, row, col, ch), row, col) =~= lines);
}

/// `line` can stand before a line feed and come back whole: it holds no
/// line feed and does not end in a carriage return.
pub open spec fn plain_line(line: Seq<char>) -> bool {
    &&& forall|j: int| 0 <= j < line.len() ==> line[j] != '\n'
    &&& line.len() > 0 ==> line.last() != '\r'
}

/// A document that is read back as it was written: no line holds a line
/// feed, no line but the last ends in a carriage return, and the last line
/// is not empty.
pub open spec fn survives_saving(lines: Seq<Seq<char>>) -> bool {
    &&& no_newlines(lines)
    &&& forall|i: int| 0 <= i < lines.len() - 1 ==> plain_line(#[trigger] lines[i])
    &&& lines.len() > 0 ==> lines.last().len() > 0
}

/// Splitting looks only at the text from `pos` on.
proof fn split_from_shift(t1: Seq<char>, p1: int, t2: Seq<char>, p2: int, current: Seq<char>)
    requires
        0 <= p1 <= t1.len(),
        0 <= p2 <= t2.len(),
        t1.subrange(p1, t1.len() as int) == t2.subrange(p2, t2.len() as int),
    ensures
        split_from(t1, p1, current) == split_from(t2, p2, current),
    decreases t1.len() - p1,
{
    let r1 = t1.subrange(p1, t1.len() as int);
    let r2 = t2.subrange(p2, t2.len() as int);
    assert(r1.len() == t1.len() - p1);
    assert(r2.len() == t2.len() - p2);
    if p1 < t1.len() {
        assert(p2 < t2.len());
        assert(t1[p1] == r1[0]);
        assert(t2[p2] == r2[0]);
        assert(t1.subrange(p1 + 1, t1.len() as int) =~= r1.drop_first());
        assert(t2.subrange(p2 + 1, t2.len() as int) =~= r2.drop_first());
        if t1[p1] == '\n' {
            split_from_shift(t1, p1 + 1, t2, p2 + 1, Seq::empty());
        } else {
            split_from_shift(t1, p1 + 1, t2, p2 + 1, current.push(t1[p1]));
        }
    }
}

/// Characters other than line feeds are gathered into the current line.
proof fn split_from_scan(text: Seq<char>, pos: int, current: Seq<char>, count: nat)
    requires
        0 <= pos,
        pos + count <= text.len(),
        forall|j: int| pos <= j < pos + count ==> text[j] != '\n',
    ensures
        split_from(text, pos, current) == split_from(
            text,
            pos + count,
            current + text.subrange(pos, pos + count),
        ),
    decreases count,
{
    if count == 0 {
        assert(current + text.subrange(pos, pos) =~= current);
    } else {
        split_from_scan(text, pos + 1, current.push(text[pos]), (count - 1) as nat);
        assert(current.push(text[pos]) + text.subrange(pos + 1, pos + count) =~= current
            + text.subrange(pos, pos + count));
    }
}

/// Text that follows a line feed is split on its own.
proof fn split_from_append(t: Seq<char>, u: Seq<char>, pos: int, current: Seq<char>)
    requires
        t.len() > 0,
        t.last() == '\n',
        0 <= pos < t.len(),
    ensures
        split_from(t + u, pos, current) == split_from(t, pos, current) + split_text(u),
    decreases t.len() - pos,
{
    let whole = t + u;
    assert(whole[pos] == t[pos]);
    if pos == t.len() - 1 {
        assert(whole.subrange(t.len() as int, whole.len() as int) =~= u.subrange(
            0,
            u.len() as int,
        ));
        split_from_shift(whole, t.len() as int, u, 0, Seq::empty());
        assert(split_from(t, pos + 1, Seq::empty()) =~= Seq::<Seq<char>>::empty());
        assert(seq![strip_cr(current)] + split_text(u) =~= (seq![strip_cr(current)] + Seq::<
            Seq<char>,
        >::empty()) + split_text(u));
    } else if t[pos] == '\n' {
        split_from_append(t, u, pos + 1, Seq::empty());
        assert(seq![strip_cr(current)] + (split_from(t, pos + 1, Seq::empty()) + split_text(u))
            =~= (seq![strip_cr(current)] + split_from(t, pos + 1, Seq::empty())) + split_text(
            u,
        ));
    } else {
        split_from_append(t, u, pos + 1, current.push(t[pos]));
    }
}

/// A line followed by a line feed is split off as it is.
proof fn split_closed_line(line: Seq<char>)
    requires
        plain_line(line),
    ensures
        split_text(line + seq!['\n']) == seq![line],
{
    let text = line + seq!['\n'];
    assert forall|j: int| 0 <= j < line.len() implies text[j] != '\n' by {
        assert(text[j] == line[j]);
    }
    split_from_scan(text, 0, Seq::empty(), line.len());
    assert(Seq::<char>::empty() + text.subrange(0, line.len() as int) =~= line);
    assert(text[line.len() as int] == '\n');
    assert(strip_cr(line) == line);
    assert(split_from(text, (line.len() + 1) as int, Seq::empty()) =~= Seq::<Seq<char>>::empty());
    assert(seq![line] + Seq::<Seq<char>>::empty() =~= seq![line]);
}

/// A line that nothing follows is split off as it is, unless it is empty.
proof fn split_open_line(line: Seq<char>)
    requires
        line.len() > 0,
        forall|j: int| 0 <= j < line.len() ==> line[j] != '\n',
    ensures
        split_text(line) == seq![line],
{
    split_from_scan(line, 0, Seq::empty(), line.len());
    assert(Seq::<char>::empty() + line.subrange(0, line.len() as int) =~= line);
}

/// Lines that are each closed by a line feed come back as they were.
proof fn split_closed_lines(lines: Seq<Seq<char>>)
    requires
        lines.len() > 0,
        forall|i: int| 0 <= i < lines.len() ==> plain_line(#[trigger] lines[i]),
    ensures
        split_text(joined(lines) + seq!['\n']) == lines,
    decreases lines.len(),
{
    if lines.len() == 1 {
        split_closed_line(lines[0]);
        assert(seq![lines[0]] =~= lines);
    } else {
        let front = lines.drop_last();
        let t = joined(front) + seq!['\n'];
        let u = lines.last() + seq!['\n'];
        assert forall|i: int| 0 <= i < front.len() implies plain_line(#[trigger] front[i]) by {
            assert(front[i] == lines[i]);
        }
        split_closed_lines(front);
        split_closed_line(lines.last());
        split_from_append(t, u, 0, Seq::empty());
        assert(joined(lines) + seq!['\n'] =~= t + u);
        assert(front + seq![lines.last()] =~= lines);
    }
}

/// Saving and loading again gives the document back: the lines joined by
/// line feeds and split again are the lines that were joined.
pub proof fn save_then_load_restores(lines: Seq<Seq<char>>)
    requires
        survives_saving(lines),
    ensures
        split_text(joined(lines)) == lines,
{
    if lines.len() == 0 {
        assert(split_text(joined(lines)) =~= lines);
    } else {
        let last = lines.last();
        assert forall|j: int| 0 <= j < last.len() implies last[j] != '\n' by {
            assert(lines[lines.len() - 1][j] != '\n');
        }
        split_open_line(last);
        if lines.len() == 1 {
            assert(seq![lines[0]] =~= lines);
        } else {
            let front = lines.drop_last();
            let t = joined(front) + seq!['\n'];
            assert forall|i: int| 0 <= i < front.len() implies plain_line(#[trigger] front[i]) by {
                assert(front[i] == lines[i]);
            }
            split_closed_lines(front);
            split_from_append(t, last, 0, Seq::empty());
            assert(joined(lines) =~= t + last);
            assert(front + seq![last] =~= lines);
        }
    }
}

} // verus!
