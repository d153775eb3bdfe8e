//! Font identifiers.

use vstd::prelude::*;

verus! {

pub const FONT_ID_REGULAR: usize = 0;

pub const FONT_ID_ITALIC: usize = 1;

pub const FONT_ID_BOLD: usize = 2;

pub const FONT_ID_BOLD_ITALIC: usize = 3;

pub const FONT_ID_SYMBOL: usize = 4;

pub const FONT_ID_EMOJIS: usize = 5;

pub const FONT_ID_UNICODE: usize = 6;

pub const FONT_ID_ICONS: usize = 7;

pub const FONT_ID_BUILTIN: usize = 8;

/// A font, named by its family.
#[derive(Clone, Debug, PartialEq, Eq)]
pub struct SugarloafFont {
    pub family: String,
}

/// The fonts a compositor is asked to draw with, one for each style.
#[derive(Clone, Debug, PartialEq, Eq)]
pub struct SugarloafFonts {
    pub regular: SugarloafFont,
    pub bold: SugarloafFont,
    pub bold_italic: SugarloafFont,
    pub italic: SugarloafFont,
}

} // verus!
