//! Colours and glyphs shared by the lists.

use vstd::prelude::*;

verus! {

/// The colours that the dashboard paints with.
#[derive(Debug, Clone, Copy, PartialEq, Eq, Structural)]
pub enum Color {
    Red,
    Yellow,
    Green,
    Blue,
    Cyan,
    Gray,
    DarkGray,
    White,
}

/// The glyph in front of a row: an arrow on the row under the cursor, blanks
/// of the same width on every other row.
pub open spec fn spec_selection_indicator(selected: bool) -> Seq<char> {
    if selected {
        "➤ "@
    } else {
        "  "@
    }
}

/// The glyph in front of a row.
pub fn selection_indicator(selected: bool) -> (r: &'static str)
    ensures
        r@ == spec_selection_indicator(selected),
{
    if selected {
        "➤ "
    } else {
        "  "
    }
}

/// The width left for a flexible column in an area `area_width` cells wide,
/// once the two borders and `fixed` cells of other columns and separators
/// are taken off; zero where they do not fit.
pub open spec fn spec_flexible_width(area_width: u16, fixed: u16) -> u16 {
    if area_width - 2 - fixed > 0 {
        (area_width - 2 - fixed) as u16
    } else {
        0
    }
}

/// The width left for a flexible column.
pub fn flexible_width(area_width: u16, fixed: u16) -> (r: u16)
    ensures
        r == spec_flexible_width(area_width, fixed),
{
    area_width.saturating_sub(2).saturating_sub(fixed)
}

/// The width of the text in a status bar over an area `area_width` cells
/// wide: four cells less, for borders and padding; zero where they do not
/// fit.
pub open spec fn spec_status_width(area_width: u16) -> usize {
    if area_width >= 4 {
        (area_width - 4) as usize
    } else {
        0
    }
}

/// The width of the text in a status bar.
pub fn status_width(area_width: u16) -> (r: usize)
    ensures
        r == spec_status_width(area_width),
{
    let w: usize = area_width as usize;
    w.saturating_sub(4)
}

} // verus!
