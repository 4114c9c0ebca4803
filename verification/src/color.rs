//! Display colors: the palette slots, a palette that resolves them, and the
//! mapping from highlight scope names to colors.

use vstd::prelude::*;
use crate::text::same_text;

verus! {

/// A straight (not premultiplied) RGBA color packed into 32 bits.
#[derive(Debug, Clone, Copy, PartialEq, Eq, Structural)]
pub struct StraightRgba(pub u32);

/// The slots of a terminal palette: the sixteen indexed colors and the
/// default background and foreground.
#[derive(Debug, Clone, Copy, PartialEq, Eq, Structural)]
pub enum IndexedColor {
    Black,
    Red,
    Green,
    Yellow,
    Blue,
    Magenta,
    Cyan,
    White,
    BrightBlack,
    BrightRed,
    BrightGreen,
    BrightYellow,
    BrightBlue,
    BrightMagenta,
    BrightCyan,
    BrightWhite,
    Background,
    Foreground,
}

/// Number of slots in a [`Palette`].
pub const INDEXED_COLOR_COUNT: usize = 18;

impl IndexedColor {
    /// Position of the slot in a palette, in declaration order.
    pub open spec fn slot(self) -> int {
        match self {
            IndexedColor::Black => 0,
            IndexedColor::Red => 1,
            IndexedColor::Green => 2,
            IndexedColor::Yellow => 3,
            IndexedColor::Blue => 4,
            IndexedColor::Magenta => 5,
            IndexedColor::Cyan => 6,
            IndexedColor::White => 7,
            IndexedColor::BrightBlack => 8,
            IndexedColor::BrightRed => 9,
            IndexedColor::BrightGreen => 10,
            IndexedColor::BrightYellow => 11,
            IndexedColor::BrightBlue => 12,
            IndexedColor::BrightMagenta => 13,
            IndexedColor::BrightCyan => 14,
            IndexedColor::BrightWhite => 15,
            IndexedColor::Background => 16,
            IndexedColor::Foreground => 17,
        }
    }

    /// Position of the slot in a palette.
    pub fn index(self) -> (i: usize)
        ensures
            i == self.slot(),
            i < INDEXED_COLOR_COUNT,
    {
        match self {
            IndexedColor::Black => 0,
            IndexedColor::Red => 1,
            IndexedColor::Green => 2,
            IndexedColor::Yellow => 3,
            IndexedColor::Blue => 4,
            IndexedColor::Magenta => 5,
            IndexedColor::Cyan => 6,
            IndexedColor::White => 7,
            IndexedColor::BrightBlack => 8,
            IndexedColor::BrightRed => 9,
            IndexedColor::BrightGreen => 10,
            IndexedColor::BrightYellow => 11,
            IndexedColor::BrightBlue => 12,
            IndexedColor::BrightMagenta => 13,
            IndexedColor::BrightCyan => 14,
            IndexedColor::BrightWhite => 15,
            IndexedColor::Background => 16,
            IndexedColor::Foreground => 17,
        }
    }
}

/// The colors that the display currently gives to the palette slots.
#[derive(Debug, Clone, Copy)]
pub struct Palette {
    pub colors: [StraightRgba; 18],
}

impl Palette {
    /// A palette with the given colors, in slot order.
    pub fn new(colors: [StraightRgba; 18]) -> (palette: Palette)
        ensures
            palette.colors == colors,
    {
        Palette { colors }
    }

    /// The color that this palette gives to `slot`.
    pub open spec fn color_of(self, slot: IndexedColor) -> StraightRgba {
        self.colors@[slot.slot()]
    }

    /// Resolves a palette slot to its color.
    pub fn indexed(&self, slot: IndexedColor) -> (color: StraightRgba)
        ensures
            color == self.color_of(slot),
    {
        self.colors[slot.index()]
    }
}

/// The palette slot in which a highlight scope is drawn. Scopes without an
/// entry of their own are drawn in the default foreground.
pub open spec fn scope_slot(scope: Seq<char>) -> IndexedColor {
    if scope == "comment"@ {
        IndexedColor::BrightBlack
    } else if scope == "keyword"@ {
        IndexedColor::Magenta
    } else if scope == "function"@ || scope == "function.method"@ || scope
        == "function.builtin"@ {
        IndexedColor::Blue
    } else if scope == "string"@ || scope == "string.special"@ {
        IndexedColor::Green
    } else if scope == "type"@ || scope == "type.builtin"@ {
        IndexedColor::Cyan
    } else if scope == "constant"@ || scope == "constant.builtin"@ || scope == "number"@ {
        IndexedColor::Yellow
    } else if scope == "variable.parameter"@ {
        IndexedColor::BrightCyan
    } else if scope == "operator"@ {
        IndexedColor::BrightWhite
    } else if scope == "property"@ {
        IndexedColor::BrightBlue
    } else if scope == "attribute"@ {
        IndexedColor::BrightYellow
    } else if scope == "constructor"@ {
        IndexedColor::BrightMagenta
    } else if scope == "tag"@ {
        IndexedColor::Red
    } else {
        IndexedColor::Foreground
    }
}

/// The palette slot for a highlight scope name.
pub fn highlight_slot(scope: &str) -> (slot: IndexedColor)
    ensures
        slot == scope_slot(scope@),
{
    if same_text(scope, "comment") {
        IndexedColor::BrightBlack
    } else if same_text(scope, "keyword") {
        IndexedColor::Magenta
    } else if same_text(scope, "function") || same_text(scope, "function.method") || same_text(
        scope,
        "function.builtin",
    ) {
        IndexedColor::Blue
    } else if same_text(scope, "string") || same_text(scope, "string.special") {
        IndexedColor::Green
    } else if same_text(scope, "type") || same_text(scope, "type.builtin") {
        IndexedColor::Cyan
    } else if same_text(scope, "constant") || same_text(scope, "constant.builtin") || same_text(
        scope,
        "number",
    ) {
        IndexedColor::Yellow
    } else if same_text(scope, "variable.parameter") {
        IndexedColor::BrightCyan
    } else if same_text(scope, "operator") {
        IndexedColor::BrightWhite
    } else if same_text(scope, "property") {
        IndexedColor::BrightBlue
    } else if same_text(scope, "attribute") {
        IndexedColor::BrightYellow
    } else if same_text(scope, "constructor") {
        IndexedColor::BrightMagenta
    } else if same_text(scope, "tag") {
        IndexedColor::Red
    } else {
        IndexedColor::Foreground
    }
}

/// Maps a highlight scope name to the color in which `fb` draws it.
pub fn get_highlight_color(scope: &str, fb: &Palette) -> (color: StraightRgba)
    ensures
        color == fb.color_of(scope_slot(scope@)),
{
    fb.indexed(highlight_slot(scope))
}

} // verus!
