//! Frame-compositing core of a cell-grid renderer: rows of styled cells are
//! merged into runs, runs become text spans and background rectangles, and a
//! per-frame state machine orders what is drawn.

pub mod cell;
pub mod context;
pub mod font;
pub mod frame;
pub mod layout;
pub mod rect;
pub mod run;
pub mod span;
pub mod sugarloaf;
