//! Pixel-space rectangles and the per-pixel compute results that the
//! renderers pass around.

use vstd::prelude::*;

verus! {

/// An axis-aligned rectangle in canvas pixel coordinates.
#[derive(Clone, Copy, Debug, PartialEq, Eq, Structural)]
pub struct PixelRect {
    pub x: u32,
    pub y: u32,
    pub width: u32,
    pub height: u32,
}

impl PixelRect {
    /// The rectangle with top-left corner `(x, y)` and the given size.
    pub fn new(x: u32, y: u32, width: u32, height: u32) -> (r: Self)
        ensures
            r == (PixelRect { x, y, width, height }),
    {
        PixelRect { x, y, width, height }
    }

    /// Number of pixels in the rectangle.
    pub fn area(&self) -> (r: u64)
        ensures
            r == self.width * self.height,
    {
        proof {
            vstd::arithmetic::mul::lemma_mul_upper_bound(
                self.width as int, u32::MAX as int, self.height as int, u32::MAX as int);
        }
        (self.width as u64) * (self.height as u64)
    }

    /// Whether pixel `(px, py)` lies inside the rectangle.
    pub open spec fn contains_pixel(self, px: int, py: int) -> bool {
        &&& self.x <= px < self.x + self.width
        &&& self.y <= py < self.y + self.height
    }
}

/// Escape-time result of one Mandelbrot pixel. The integer and flag fields
/// are what the progressive renderer inspects; `extra` carries the
/// escape-state values (final z, derivative) that only the colorizers read.
#[derive(Clone, Copy, Debug, PartialEq)]
pub struct MandelbrotData<E> {
    pub iterations: u32,
    pub max_iterations: u32,
    pub escaped: bool,
    pub glitched: bool,
    pub extra: E,
}

/// Result of computing one pixel: a Mandelbrot escape result or a
/// test-image sample.
#[derive(Clone, Copy, Debug, PartialEq)]
pub enum ComputeData<E, T> {
    Mandelbrot(MandelbrotData<E>),
    TestImage(T),
}

/// The computed pixels of one tile, in row-major order within the tile.
#[derive(Clone, Debug)]
pub struct TileResult<D> {
    pub tile: PixelRect,
    pub data: Vec<D>,
}

} // verus!
