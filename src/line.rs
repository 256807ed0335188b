use vstd::prelude::*;
use crate::bar::Bar;

verus! {

/// Foreground colours a banner can be drawn in.
#[derive(Clone, Copy, Debug, PartialEq, Eq, Structural)]
pub enum BannerColor {
    Black,
    Red,
    Green,
    Yellow,
    Blue,
    Magenta,
    Cyan,
    White,
    LightBlack,
    LightRed,
    LightGreen,
    LightYellow,
    LightBlue,
    LightMagenta,
    LightCyan,
    LightWhite,
}

/// One line of terminal output, before colours are turned into escapes.
#[derive(Clone, Debug)]
pub enum Line {
    /// Plain text.
    Text(String),
    /// Progress bars side by side, each drawn as indentation, prefix,
    /// filled cells, empty cells and suffix.
    Bars(Vec<Bar>),
    /// Text in a foreground colour, followed by a style reset.
    Colored(BannerColor, String),
}

impl Line {
    /// This line is plain text `t`.
    pub open spec fn is_text(&self, t: Seq<char>) -> bool {
        match self {
            Line::Text(s) => s@ == t,
            _ => false,
        }
    }

    /// This line holds exactly the bars `bs`.
    pub open spec fn is_bars(&self, bs: Seq<Bar>) -> bool {
        match self {
            Line::Bars(v) => v@ == bs,
            _ => false,
        }
    }

    /// This line is `t` drawn in colour `c`.
    pub open spec fn is_colored(&self, c: BannerColor, t: Seq<char>) -> bool {
        match self {
            Line::Colored(k, s) => *k == c && s@ == t,
            _ => false,
        }
    }
}

/// Width requirement that a widget reports after preparing.
#[derive(Clone, Copy, Debug, PartialEq, Eq, Structural)]
pub struct Constraints {
    pub min_width: Option<usize>,
}

} // verus!
