use vstd::prelude::*;
use vstd::string::*;
use crate::escape::{clear_line, clear_line_text, goto, goto_text, reset_text, style_reset, Palette};
use crate::text::spaces;

verus! {

/// The command panel that can be shown above the status line.
#[derive(Debug, Clone, Copy, PartialEq, Eq, Structural)]
pub struct Terminal {
    pub visible: bool,
    pub height: u16,
}

/// One row of the panel, drawn on terminal row `line`: the row is cleared
/// and filled, `width` cells wide, with a prompt on the panel's background.
pub open spec fn panel_row(line: u16, width: u16, palette: Palette) -> Seq<char> {
    goto_text(1, line) + clear_line_text() + palette.panel_bg@ + ":"@ + Seq::new(
        (width - 1) as nat,
        |i: int| ' ',
    ) + reset_text()
}

/// The first `count` rows of a panel whose top row is terminal row `top`.
pub open spec fn panel_rows(top: int, count: nat, width: u16, palette: Palette) -> Seq<char>
    decreases count,
{
    if count == 0 {
        Seq::empty()
    } else {
        panel_rows(top, (count - 1) as nat, width, palette) + panel_row(
            (top + count - 1) as u16,
            width,
            palette,
        )
    }
}

impl Terminal {
    /// The rows the panel takes from the document's viewport.
    pub open spec fn real_height(&self) -> u16 {
        if self.visible {
            self.height
        } else {
            0
        }
    }

    /// A hidden panel of the given height.
    pub fn new(height: u16) -> (t: Terminal)
        ensures
            !t.visible,
            t.height == height,
    {
        Terminal { visible: false, height }
    }

    /// The panel as it is sent to a terminal `width` cells wide: it takes
    /// the `height` rows that end with row `bottom`.
    pub fn write_term(&self, width: u16, bottom: u16, palette: &Palette) -> (s: String)
        requires
            self.height <= bottom,
            width >= 1,
        ensures
            s@ == panel_rows(bottom - self.height + 1, self.height as nat, width, *palette),
    {
        let mut out = String::new();
        let mut done: u16 = 0;
        while done < self.height
            invariant
                done <= self.height <= bottom,
                width >= 1,
                out@ == panel_rows(bottom - self.height + 1, done as nat, width, *palette),
            decreases self.height - done,
        {
            let line: u16 = bottom - (self.height - 1 - done);
            let mut row = goto(1, line);
            row.append(clear_line().as_str());
            row.append(palette.panel_bg.as_str());
            row.append(":");
            row.append(spaces((width - 1) as usize).as_str());
            row.append(style_reset().as_str());
            assert(row@ == panel_row(line, width, *palette));
            out.append(row.as_str());
            done += 1;
        }
        out
    }

    /// The rows the panel takes from the document's viewport: its height
    /// while it is shown, none while it is hidden.
    pub fn get_real_height(&self) -> (h: u16)
        ensures
            h == self.real_height(),
    {
        if self.visible {
            self.height
        } else {
            0
        }
    }

    /// Shows a hidden panel, hides a shown one.
    pub fn toggle(&mut self)
        ensures
            final(self).visible == !old(self).visible,
            final(self).height == old(self).height,
    {
        self.visible = !self.visible;
    }
}

} // verus!
