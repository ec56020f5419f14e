use vstd::prelude::*;
use vstd::string::*;
use crate::text::decimal_text;

verus! {

/// The control sequence that moves the terminal's cursor to column `x`,
/// row `y` (both 1-based).
pub open spec fn goto_text(x: u16, y: u16) -> Seq<char> {
    "\x1b["@ + decimal_text(y as nat) + ";"@ + decimal_text(x as nat) + "H"@
}

/// The control sequence that clears the whole screen.
pub open spec fn clear_all_text() -> Seq<char> {
    "\x1b[2J"@
}

/// The control sequence that clears the line the cursor is on.
pub open spec fn clear_line_text() -> Seq<char> {
    "\x1b[2K"@
}

/// The control sequence that resets all text attributes.
pub open spec fn reset_text() -> Seq<char> {
    "\x1b[m"@
}

/// The control sequence that makes the cursor a steady block.
pub open spec fn steady_block_text() -> Seq<char> {
    "\x1b[2 q"@
}

/// The control sequence that makes the cursor a steady bar.
pub open spec fn steady_bar_text() -> Seq<char> {
    "\x1b[6 q"@
}

/// `s` is the given colour sequence, or nothing at all where colours are
/// switched off.
pub open spec fn colour_or_plain(s: Seq<char>, colour: Seq<char>) -> bool {
    s == colour || s == Seq::<char>::empty()
}

/// `termion::cursor::Goto(x, y)`, formatted. termion writes the escape
/// character, `[`, the row in decimal, `;`, the column in decimal and `H`;
/// it rejects the position (0, 0) in debug builds, which the precondition
/// leaves out.
#[verifier::external_body]
pub(crate) fn goto(x: u16, y: u16) -> (s: String)
    requires
        !(x == 0 && y == 0),
    ensures
        s@ == goto_text(x, y),
{
    termion::cursor::Goto(x, y).to_string()
}

/// `termion::clear::All`, formatted: the fixed sequence `ESC [ 2 J`.
#[verifier::external_body]
pub(crate) fn clear_all() -> (s: String)
    ensures
        s@ == clear_all_text(),
{
    termion::clear::All.to_string()
}

/// `termion::clear::CurrentLine`, formatted: the fixed sequence `ESC [ 2 K`.
#[verifier::external_body]
pub(crate) fn clear_line() -> (s: String)
    ensures
        s@ == clear_line_text(),
{
    termion::clear::CurrentLine.to_string()
}

/// `termion::style::Reset`, formatted: the fixed sequence `ESC [ m`.
#[verifier::external_body]
pub(crate) fn style_reset() -> (s: String)
    ensures
        s@ == reset_text(),
{
    termion::style::Reset.to_string()
}

/// `termion::cursor::SteadyBlock`, formatted: the fixed sequence
/// `ESC [ 2 SPACE q`.
#[verifier::external_body]
pub(crate) fn steady_block() -> (s: String)
    ensures
        s@ == steady_block_text(),
{
    termion::cursor::SteadyBlock.to_string()
}

/// `termion::cursor::SteadyBar`, formatted: the fixed sequence
/// `ESC [ 6 SPACE q`.
#[verifier::external_body]
pub(crate) fn steady_bar() -> (s: String)
    ensures
        s@ == steady_bar_text(),
{
    termion::cursor::SteadyBar.to_string()
}

/// `termion::color::Fg(White)`, formatted. termion writes the 256-colour
/// foreground sequence for colour 7, or nothing when the environment asks
/// for no colours; the contract allows both.
#[verifier::external_body]
pub(crate) fn fg_white() -> (s: String)
    ensures
        colour_or_plain(s@, "\x1b[38;5;7m"@),
{
    termion::color::Fg(termion::color::White).to_string()
}

/// `termion::color::Fg(Green)`, formatted: the foreground sequence for
/// colour 2, or nothing when colours are off.
#[verifier::external_body]
pub(crate) fn fg_green() -> (s: String)
    ensures
        colour_or_plain(s@, "\x1b[38;5;2m"@),
{
    termion::color::Fg(termion::color::Green).to_string()
}

/// `termion::color::Fg(LightBlue)`, formatted: the foreground sequence for
/// colour 12, or nothing when colours are off.
#[verifier::external_body]
pub(crate) fn fg_light_blue() -> (s: String)
    ensures
        colour_or_plain(s@, "\x1b[38;5;12m"@),
{
    termion::color::Fg(termion::color::LightBlue).to_string()
}

/// `termion::color::Bg(Red)`, formatted: the background sequence for
/// colour 1, or nothing when colours are off.
#[verifier::external_body]
pub(crate) fn bg_red() -> (s: String)
    ensures
        colour_or_plain(s@, "\x1b[48;5;1m"@),
{
    termion::color::Bg(termion::color::Red).to_string()
}

/// `termion::color::Bg(Rgb(60, 54, 66))`, formatted: the true-colour
/// background sequence for that colour, or nothing when colours are off.
#[verifier::external_body]
pub(crate) fn bg_panel() -> (s: String)
    ensures
        colour_or_plain(s@, "\x1b[48;2;60;54;66m"@),
{
    termion::color::Bg(termion::color::Rgb(60, 54, 66)).to_string()
}

/// The colour sequences the editor draws with. Whether the terminal layer
/// hands out colours is decided by the environment, once per process, so
/// they are fetched once and carried as plain text from then on.
#[derive(Debug, Clone)]
pub struct Palette {
    pub white_fg: String,
    pub green_fg: String,
    pub light_blue_fg: String,
    pub red_bg: String,
    pub panel_bg: String,
}

impl Palette {
    /// Each entry is its colour sequence or empty.
    pub open spec fn wf(&self) -> bool {
        &&& colour_or_plain(self.white_fg@, "\x1b[38;5;7m"@)
        &&& colour_or_plain(self.green_fg@, "\x1b[38;5;2m"@)
        &&& colour_or_plain(self.light_blue_fg@, "\x1b[38;5;12m"@)
        &&& colour_or_plain(self.red_bg@, "\x1b[48;5;1m"@)
        &&& colour_or_plain(self.panel_bg@, "\x1b[48;2;60;54;66m"@)
    }

    /// The palette the terminal layer offers in this process.
    pub fn detect() -> (p: Palette)
        ensures
            p.wf(),
    {
        Palette {
            white_fg: fg_white(),
            green_fg: fg_green(),
            light_blue_fg: fg_light_blue(),
            red_bg: bg_red(),
            panel_bg: bg_panel(),
        }
    }

    /// A palette without any colour.
    pub fn plain() -> (p: Palette)
        ensures
            p.wf(),
            p.white_fg@ == Seq::<char>::empty(),
            p.green_fg@ == Seq::<char>::empty(),
            p.light_blue_fg@ == Seq::<char>::empty(),
            p.red_bg@ == Seq::<char>::empty(),
            p.panel_bg@ == Seq::<char>::empty(),
    {
        Palette {
            white_fg: String::new(),
            green_fg: String::new(),
            light_blue_fg: String::new(),
            red_bg: String::new(),
            panel_bg: String::new(),
        }
    }
}

} // verus!
