//! What the compositor knows of the surface it draws to.

use vstd::prelude::*;

verus! {

/// A size in device pixels.
#[derive(Clone, Copy, Debug, PartialEq, Eq, Structural)]
pub struct Size {
    pub width: u32,
    pub height: u32,
}

/// The surface's size and the device scale, in thousandths.
#[derive(Clone, Copy, Debug, PartialEq, Eq, Structural)]
pub struct Context {
    pub size: Size,
    pub scale: u32,
}

impl Context {
    /// A context for a surface of the given size and scale.
    pub fn new(width: u32, height: u32, scale: u32) -> (ctx: Context)
        ensures
            ctx == (Context { size: Size { width, height }, scale }),
    {
        Context { size: Size { width, height }, scale }
    }

    /// Takes the surface's new size.
    pub fn resize(&mut self, width: u32, height: u32)
        ensures
            *final(self) == (Context { size: Size { width, height }, scale: old(self).scale }),
    {
        self.size = Size { width, height };
    }
}

} // verus!
