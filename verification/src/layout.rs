//! Layout: the viewport, the device scale, the cell geometry, and the grid
//! that follows from them.

use crate::cell::{Color, CELL_WIDTH, PER_MILLE};
use vstd::prelude::*;

verus! {

/// Where an image lies and how large it is, in pixels.
#[derive(Clone, Copy, Debug, PartialEq, Eq, Structural)]
pub struct Rectangle {
    pub x: u32,
    pub y: u32,
    pub width: u32,
    pub height: u32,
}

/// What a caller says of a background image.
#[derive(Clone, Debug, PartialEq, Eq)]
pub struct ImageProperties {
    pub path: String,
    pub width: u32,
    pub height: u32,
    pub x: u32,
    pub y: u32,
}

/// A raster image for the layer batch: where it is read from, and its bounds.
#[derive(Clone, Debug, PartialEq, Eq)]
pub struct Image {
    pub path: String,
    pub bounds: Rectangle,
}

/// The image that `props` describes.
pub open spec fn raster(props: ImageProperties) -> Image {
    Image {
        path: props.path,
        bounds: Rectangle {
            x: props.x,
            y: props.y,
            width: props.width,
            height: props.height,
        },
    }
}

impl Image {
    /// Builds the image that `props` describes.
    pub fn from_properties(props: &ImageProperties) -> (image: Image)
        ensures
            image == raster(*props),
    {
        Image {
            path: props.path.clone(),
            bounds: Rectangle {
                x: props.x,
                y: props.y,
                width: props.width,
                height: props.height,
            },
        }
    }
}

/// A length of `physical` device pixels at scale 1, rounded down. The scale
/// is in thousandths; at scale 0 nothing fits.
pub open spec fn logical_length(physical: u32, scale_factor: u32) -> int {
    if scale_factor == 0 {
        0
    } else {
        physical * PER_MILLE / (scale_factor as int)
    }
}

/// Whole cells that fit side by side in a viewport `width` pixels wide.
pub open spec fn grid_columns(width: u32, scale_factor: u32) -> int {
    logical_length(width, scale_factor) / (CELL_WIDTH as int)
}

/// Whole lines that fit in a viewport `height` pixels high. With a line
/// height of 0 none does.
pub open spec fn grid_lines(height: u32, scale_factor: u32, line_height: u32) -> int {
    if line_height == 0 {
        0
    } else {
        logical_length(height, scale_factor) / (line_height as int)
    }
}

/// Geometry that every emission reads.
#[derive(Clone, Debug, PartialEq, Eq)]
pub struct SugarloafLayout {
    /// Viewport width in pixels.
    pub width: u32,
    /// Viewport height in pixels.
    pub height: u32,
    /// Device scale in thousandths.
    pub scale_factor: u32,
    /// Height of one cell in pixels.
    pub sugarheight: u32,
    /// Distance from one line to the next in pixels.
    pub line_height: u32,
    /// Derived: `grid_columns` of the viewport.
    pub columns: u64,
    /// Derived: `grid_lines` of the viewport.
    pub lines: u64,
    pub background_color: Color,
    pub background_image: Option<Image>,
}

impl SugarloafLayout {
    /// The derived fields are those of the viewport and scale now held: no
    /// stale geometry.
    pub open spec fn is_current(&self) -> bool {
        &&& self.columns == grid_columns(self.width, self.scale_factor)
        &&& self.lines == grid_lines(self.height, self.scale_factor, self.line_height)
    }

    /// This layout with another viewport, the derived fields not yet
    /// recomputed.
    pub open spec fn with_viewport(self, width: u32, height: u32) -> SugarloafLayout {
        SugarloafLayout { width, height, ..self }
    }

    /// This layout with another device scale, the derived fields not yet
    /// recomputed.
    pub open spec fn with_scale(self, scale_factor: u32) -> SugarloafLayout {
        SugarloafLayout { scale_factor, ..self }
    }

    /// This layout with its derived fields recomputed.
    pub open spec fn updated(self) -> SugarloafLayout {
        SugarloafLayout {
            columns: grid_columns(self.width, self.scale_factor) as u64,
            lines: grid_lines(self.height, self.scale_factor, self.line_height) as u64,
            ..self
        }
    }

    /// A layout for a viewport, with a black background and no image.
    pub fn new(
        width: u32,
        height: u32,
        scale_factor: u32,
        sugarheight: u32,
        line_height: u32,
    ) -> (layout: SugarloafLayout)
        ensures
            layout.is_current(),
            layout.width == width,
            layout.height == height,
            layout.scale_factor == scale_factor,
            layout.sugarheight == sugarheight,
            layout.line_height == line_height,
            layout.background_color == (Color { r: 0, g: 0, b: 0, a: 255 }),
            layout.background_image is None,
    {
        let mut layout = SugarloafLayout {
            width,
            height,
            scale_factor,
            sugarheight,
            line_height,
            columns: 0,
            lines: 0,
            background_color: Color { r: 0, g: 0, b: 0, a: 255 },
            background_image: None,
        };
        layout.update();
        layout
    }

    /// Takes a new viewport. The derived fields wait for `update`.
    pub fn resize(&mut self, width: u32, height: u32) -> (ret: &mut Self)
        ensures
            *ret == old(self).with_viewport(width, height),
            *final(self) == *final(ret),
    {
        self.width = width;
        self.height = height;
        self
    }

    /// Takes a new device scale. The derived fields wait for `update`.
    pub fn rescale(&mut self, scale_factor: u32) -> (ret: &mut Self)
        ensures
            *ret == old(self).with_scale(scale_factor),
            *final(self) == *final(ret),
    {
        self.scale_factor = scale_factor;
        self
    }

    /// Recomputes the derived fields from the viewport and the scale.
    pub fn update(&mut self) -> (ret: &mut Self)
        ensures
            *ret == old(self).updated(),
            ret.is_current(),
            *final(self) == *final(ret),
    {
        self.columns = logical(self.width, self.scale_factor) / CELL_WIDTH;
        self.lines = if self.line_height == 0 {
            0
        } else {
            logical(self.height, self.scale_factor) / (self.line_height as u64)
        };
        self
    }
}

/// Computes `logical_length`.
pub fn logical(physical: u32, scale_factor: u32) -> (length: u64)
    ensures
        length == logical_length(physical, scale_factor),
{
    if scale_factor == 0 {
        0
    } else {
        (physical as u64) * PER_MILLE / (scale_factor as u64)
    }
}

} // verus!
