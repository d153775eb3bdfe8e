//! The cell model: what one grid position holds.
//!
//! Lengths are whole device pixels. Factors that scale a length (a decoration's
//! relative position and size, the device scale) are thousandths.

use vstd::prelude::*;

verus! {

/// Width of one cell in pixels. Every background rectangle is a whole number
/// of these wide.
pub const CELL_WIDTH: u64 = 10;

/// Distance of the row's origin from the left and the top edge, in pixels.
pub const ROW_ORIGIN: u64 = 10;

/// What divides a factor given in thousandths.
pub const PER_MILLE: u64 = 1000;

/// An RGBA color, eight bits a channel.
#[derive(Clone, Copy, Debug, PartialEq, Eq, Structural)]
pub struct Color {
    pub r: u8,
    pub g: u8,
    pub b: u8,
    pub a: u8,
}

/// Style flags of a cell. More than one may be set; `SpanStyle::of` picks.
#[derive(Clone, Copy, Debug, PartialEq, Eq, Structural)]
pub struct SugarStyle {
    pub is_italic: bool,
    pub is_bold: bool,
    pub is_bold_italic: bool,
}

/// A mark drawn over a cell: underline, strikethrough, cursor block.
/// `relative_position` and `size` are factors in thousandths.
#[derive(Clone, Copy, Debug, PartialEq, Eq)]
pub struct SugarDecoration {
    pub relative_position: (u32, u32),
    pub size: (u32, u32),
    pub color: Color,
}

/// One grid position's renderable content.
#[derive(Clone, Copy, Debug, PartialEq, Eq)]
pub struct Sugar {
    pub content: char,
    pub foreground_color: Color,
    pub background_color: Color,
    pub style: Option<SugarStyle>,
    pub decoration: Option<SugarDecoration>,
}

/// One visual row, left to right.
pub type SugarStack = Vec<Sugar>;

/// Two neighbouring cells belong to one run: same content, same colors, and
/// neither carries a decoration.
pub open spec fn mergeable(a: Sugar, b: Sugar) -> bool {
    &&& a.content == b.content
    &&& a.foreground_color == b.foreground_color
    &&& a.background_color == b.background_color
    &&& a.decoration is None
    &&& b.decoration is None
}

/// Decides `mergeable` for two cells.
pub fn can_merge(a: &Sugar, b: &Sugar) -> (merged: bool)
    ensures
        merged == mergeable(*a, *b),
{
    a.content == b.content && a.foreground_color == b.foreground_color && a.background_color
        == b.background_color && a.decoration.is_none() && b.decoration.is_none()
}

} // verus!
