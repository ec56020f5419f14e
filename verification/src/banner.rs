use vstd::prelude::*;
use vstd::string::*;
use crate::app::Mode;
use crate::escape::{clear_line, clear_line_text, goto, goto_text, reset_text, style_reset, Palette};
use crate::file::File;
use crate::text::{decimal, decimal_text};

verus! {

/// The status line at the bottom of the screen.
#[derive(Debug, Clone, Copy, PartialEq, Eq, Structural)]
pub struct Banner {
    /// How many rows from the bottom the line is drawn.
    pub height: u16,
}

/// The cursor position as `row:column`, in white.
pub open spec fn position_text(x: nat, y: nat, palette: Palette) -> Seq<char> {
    palette.white_fg@ + decimal_text(y) + ":"@ + decimal_text(x) + reset_text()
}

/// The name of the mode, in its colour.
pub open spec fn mode_text(mode: Mode, palette: Palette) -> Seq<char> {
    match mode {
        Mode::Normal => palette.light_blue_fg@ + "Normal"@ + reset_text(),
        Mode::Insert => palette.green_fg@ + "Insert"@ + reset_text(),
    }
}

/// The file's name; white on red where the buffer has no path.
pub open spec fn file_text(name: Seq<char>, has_path: bool, palette: Palette) -> Seq<char> {
    if has_path {
        name + reset_text()
    } else {
        palette.red_bg@ + palette.white_fg@ + name + reset_text()
    }
}

/// The mark shown while the buffer holds unsaved changes.
pub open spec fn modified_text(modified: bool, palette: Palette) -> Seq<char> {
    if modified {
        palette.white_fg@ + palette.green_fg@ + " [+]"@
    } else {
        Seq::empty()
    }
}

/// The whole status line: position, mode, file name and modification mark.
pub open spec fn banner_text(
    x: nat,
    y: nat,
    name: Seq<char>,
    has_path: bool,
    modified: bool,
    mode: Mode,
    palette: Palette,
) -> Seq<char> {
    position_text(x, y, palette) + " "@ + mode_text(mode, palette) + " - "@ + file_text(
        name,
        has_path,
        palette,
    ) + modified_text(modified, palette) + reset_text()
}

/// The status line `text` drawn on the first of the `height` rows that end
/// with row `bottom`; nothing where the banner has no rows.
pub open spec fn banner_line(height: u16, bottom: u16, text: Seq<char>) -> Seq<char> {
    if height == 0 {
        Seq::empty()
    } else {
        goto_text(1, (bottom - height + 1) as u16) + clear_line_text() + text
    }
}

impl Banner {
    pub fn new(height: u16) -> (b: Banner)
        ensures
            b.height == height,
    {
        Banner { height }
    }

    /// The text of the status line for a cursor at column `x`, row `y`.
    pub fn display_text(&self, x: usize, y: usize, file: &File, mode: &Mode, palette: &Palette) -> (s:
        String)
        ensures
            s@ == banner_text(
                x as nat,
                y as nat,
                file.path_name(),
                file.path is Some,
                file.modified,
                *mode,
                *palette,
            ),
    {
        let mut pos_text = palette.white_fg.clone();
        pos_text.append(decimal(y).as_str());
        pos_text.append(":");
        pos_text.append(decimal(x).as_str());
        pos_text.append(style_reset().as_str());

        let file_name = file.get_path_name();
        let mut file_text = String::new();
        if file.path.is_none() {
            file_text.append(palette.red_bg.as_str());
            file_text.append(palette.white_fg.as_str());
        }
        file_text.append(file_name.as_str());
        file_text.append(style_reset().as_str());
        assert(file_text@ =~= self::file_text(file.path_name(), file.path is Some, *palette));

        let mut modified_text = String::new();
        if file.modified {
            modified_text.append(palette.white_fg.as_str());
            modified_text.append(palette.green_fg.as_str());
            modified_text.append(" [+]");
        }
        assert(modified_text@ =~= self::modified_text(file.modified, *palette));

        let mut mode_text = String::new();
        match mode {
            Mode::Normal => {
                mode_text.append(palette.light_blue_fg.as_str());
                mode_text.append("Normal");
            },
            Mode::Insert => {
                mode_text.append(palette.green_fg.as_str());
                mode_text.append("Insert");
            },
        }
        mode_text.append(style_reset().as_str());
        assert(mode_text@ =~= self::mode_text(*mode, *palette));

        let mut text = pos_text;
        text.append(" ");
        text.append(mode_text.as_str());
        text.append(" - ");
        text.append(file_text.as_str());
        text.append(modified_text.as_str());
        text.append(style_reset().as_str());
        text
    }

    /// The status line as it is sent to the terminal: the banner takes the
    /// `height` rows that end with row `bottom`, and its text is drawn on
    /// the first of them (a jump to that row, a clearing of the row, the
    /// text). A banner without rows draws nothing.
    pub fn write_banner(
        &self,
        x: usize,
        y: usize,
        file: &File,
        mode: &Mode,
        palette: &Palette,
        bottom: u16,
    ) -> (s: String)
        requires
            self.height <= bottom,
        ensures
            s@ == banner_line(
                self.height,
                bottom,
                banner_text(
                    x as nat,
                    y as nat,
                    file.path_name(),
                    file.path is Some,
                    file.modified,
                    *mode,
                    *palette,
                ),
            ),
    {
        if self.height == 0 {
            return String::new();
        }
        let text = self.display_text(x, y, file, mode, palette);
        let row = bottom - (self.height - 1);
        let mut out = goto(1, row);
        out.append(clear_line().as_str());
        out.append(text.as_str());
        out
    }
}

} // verus!
