//! The six colour pairs a cell can be painted with, and the active one.

use vstd::prelude::*;
use vstd::string::StringExecFns;

verus! {

/// How many colour pairs the palette holds.
pub const PALETTE_SIZE: usize = 6;

/// The character drawn where the cursor stands.
pub const CURSOR_ICON: &'static str = "⬤";

/// The code that ends every colouring.
pub const RESET: &'static str = "\x1b[0m";

/// A foreground and a background colour code.
#[derive(Clone, Copy, Debug, PartialEq, Eq)]
pub struct ColorPair {
    pub foreground: &'static str,
    pub background: &'static str,
}

/// The foreground code of the pair at `index`: the code a cell is painted with.
pub open spec fn foreground_text(index: int) -> Seq<char> {
    if index == 0 {
        "\x1b[45m"@
    } else if index == 1 {
        "\x1b[44m"@
    } else if index == 2 {
        "\x1b[42m"@
    } else if index == 3 {
        "\x1b[41m"@
    } else if index == 4 {
        "\x1b[43m"@
    } else {
        "\x1b[47m"@
    }
}

/// The background code of the pair at `index`: the code the cursor is drawn with.
pub open spec fn background_text(index: int) -> Seq<char> {
    if index == 0 {
        "\x1b[95m"@
    } else if index == 1 {
        "\x1b[94m"@
    } else if index == 2 {
        "\x1b[92m"@
    } else if index == 3 {
        "\x1b[91m"@
    } else if index == 4 {
        "\x1b[93m"@
    } else {
        "\x1b[97m"@
    }
}

/// The index that follows `index` in the cycle of pairs.
pub open spec fn next_index(index: int) -> int {
    (index + 1) % 6
}

/// The cursor's glyph for a background code: the code, the icon, the reset.
pub open spec fn glyph_text(background: Seq<char>) -> Seq<char> {
    background + CURSOR_ICON@ + RESET@
}

/// The pair at `index` of the palette.
pub fn color_pair(index: usize) -> (pair: ColorPair)
    requires
        index < PALETTE_SIZE,
    ensures
        pair.foreground@ == foreground_text(index as int),
        pair.background@ == background_text(index as int),
{
    if index == 0 {
        ColorPair { foreground: "\x1b[45m", background: "\x1b[95m" }
    } else if index == 1 {
        ColorPair { foreground: "\x1b[44m", background: "\x1b[94m" }
    } else if index == 2 {
        ColorPair { foreground: "\x1b[42m", background: "\x1b[92m" }
    } else if index == 3 {
        ColorPair { foreground: "\x1b[41m", background: "\x1b[91m" }
    } else if index == 4 {
        ColorPair { foreground: "\x1b[43m", background: "\x1b[93m" }
    } else {
        ColorPair { foreground: "\x1b[47m", background: "\x1b[97m" }
    }
}

/// The glyph that marks the cursor while `pair` is active.
pub fn cursor_glyph(pair: ColorPair) -> (glyph: String)
    ensures
        glyph@ == glyph_text(pair.background@),
{
    let mut glyph = String::from_str(pair.background);
    glyph.append(CURSOR_ICON);
    glyph.append(RESET);
    glyph
}

/// The palette: six fixed pairs, one of them active.
#[derive(Clone, Copy, Debug, PartialEq, Eq)]
pub struct Palette {
    index: usize,
}

impl Palette {
    #[verifier::type_invariant]
    spec fn in_range(self) -> bool {
        self.index < PALETTE_SIZE
    }

    /// The index of the active pair.
    pub closed spec fn spec_index(self) -> int {
        self.index as int
    }

    /// Whether the active index lies in the palette.
    pub open spec fn wf(self) -> bool {
        0 <= self.spec_index() < 6
    }

    /// A palette whose first pair is active.
    pub fn new() -> (palette: Palette)
        ensures
            palette.spec_index() == 0,
    {
        Palette { index: 0 }
    }

    /// The index of the active pair.
    pub fn index(&self) -> (index: usize)
        ensures
            index == self.spec_index(),
            index < PALETTE_SIZE,
    {
        proof {
            use_type_invariant(self);
        }
        self.index
    }

    /// The active pair.
    pub fn current(&self) -> (pair: ColorPair)
        ensures
            pair.foreground@ == foreground_text(self.spec_index()),
            pair.background@ == background_text(self.spec_index()),
    {
        proof {
            use_type_invariant(self);
        }
        color_pair(self.index)
    }

    /// Makes the next pair of the cycle active and returns it.
    pub fn advance(&mut self) -> (pair: ColorPair)
        ensures
            final(self).spec_index() == next_index(old(self).spec_index()),
            pair.foreground@ == foreground_text(final(self).spec_index()),
            pair.background@ == background_text(final(self).spec_index()),
    {
        proof {
            use_type_invariant(&*self);
        }
        self.index = (self.index + 1) % PALETTE_SIZE;
        color_pair(self.index)
    }
}

} // verus!
