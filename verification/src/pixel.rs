//! The pixel model: an RGBA color of four 8-bit channels, and a mutable
//! 2D grid of such colors addressable by `(x, y)`, created with a fixed
//! width and height and an initial fill color.
//!
//! Coordinates are zero-based; `(0, 0)` is the top-left pixel and `+y`
//! points downward. The grid is stored row-major, but that is a private
//! detail: the contracts speak only of `spec_pixel(x, y)`.

use vstd::prelude::*;

verus! {

/// An RGBA color with 8 bits per channel. A color may carry
/// premultiplied-alpha channel values; the grid stores whatever bytes it
/// is given.
#[derive(Copy, Clone, PartialEq, Eq, Structural, Hash, Debug)]
pub struct Color {
    pub r: u8,
    pub g: u8,
    pub b: u8,
    pub a: u8,
}

impl Color {
    /// The fully transparent color, all four channels zero.
    pub open spec fn spec_transparent() -> Color {
        Color { r: 0, g: 0, b: 0, a: 0 }
    }

    /// Fully opaque white.
    pub open spec fn spec_white() -> Color {
        Color { r: 255, g: 255, b: 255, a: 255 }
    }

    /// The fully opaque color with the given channels.
    pub open spec fn spec_from_rgb(r: u8, g: u8, b: u8) -> Color {
        Color { r, g, b, a: 255 }
    }

    /// The fully transparent color, all four channels zero.
    #[verifier::when_used_as_spec(spec_transparent)]
    pub fn transparent() -> (c: Color)
        ensures
            c == Color::spec_transparent(),
    {
        Color { r: 0, g: 0, b: 0, a: 0 }
    }

    /// Fully opaque white.
    #[verifier::when_used_as_spec(spec_white)]
    pub fn white() -> (c: Color)
        ensures
            c == Color::spec_white(),
    {
        Color { r: 255, g: 255, b: 255, a: 255 }
    }

    /// The fully opaque color with the given channels.
    #[verifier::when_used_as_spec(spec_from_rgb)]
    pub fn from_rgb(r: u8, g: u8, b: u8) -> (c: Color)
        ensures
            c == Color::spec_from_rgb(r, g, b),
    {
        Color { r, g, b, a: 255 }
    }

    /// A color whose channel values are already premultiplied by alpha;
    /// the bytes are stored as given.
    pub fn from_rgba_premultiplied(r: u8, g: u8, b: u8, a: u8) -> (c: Color)
        ensures
            c == (Color { r, g, b, a }),
    {
        Color { r, g, b, a }
    }
}

/// A `width` x `height` grid of colors. `spec_pixel(x, y)` is the color
/// at column `x` of row `y`.
#[derive(Clone, PartialEq, Eq, Debug)]
pub struct PixelBuffer {
    width: usize,
    height: usize,
    pixels: Vec<Color>,
}

impl PixelBuffer {
    /// The grid holds exactly one color per coordinate pair.
    pub closed spec fn wf(self) -> bool {
        &&& self.pixels.len() == self.width * self.height
        &&& self.width * self.height <= usize::MAX
    }

    /// The number of pixel columns.
    pub closed spec fn spec_width(self) -> usize {
        self.width
    }

    /// The number of pixel rows.
    pub closed spec fn spec_height(self) -> usize {
        self.height
    }

    /// Whether the (mathematical) coordinates name a pixel of the grid.
    pub open spec fn in_image(self, x: int, y: int) -> bool {
        &&& 0 <= x < self.spec_width()
        &&& 0 <= y < self.spec_height()
    }

    /// The color at column `x` of row `y`.
    pub closed spec fn spec_pixel(self, x: int, y: int) -> Color {
        self.pixels[y * self.spec_width() + x]
    }

    /// A new grid with every pixel set to `fill`.
    pub fn new(width: usize, height: usize, fill: Color) -> (r: PixelBuffer)
        requires
            width * height <= usize::MAX,
        ensures
            r.wf(),
            r.spec_width() == width,
            r.spec_height() == height,
            forall|x: int, y: int| r.in_image(x, y) ==> r.spec_pixel(x, y) == fill,
    {
        proof {
            assert(width * height >= 0) by (nonlinear_arith);
        }
        let n: usize = width * height;
        let mut pixels: Vec<Color> = Vec::new();
        let mut i: usize = 0;
        while i < n
            invariant
                i <= n,
                pixels.len() == i,
                forall|j: int| 0 <= j < i ==> pixels[j] == fill,
            decreases n - i,
        {
            pixels.push(fill);
            i = i + 1;
        }
        let r = PixelBuffer { width, height, pixels };
        proof {
            assert forall|x: int, y: int| r.in_image(x, y) implies r.spec_pixel(x, y) == fill by {
                lemma_grid_index_in_range(width as int, height as int, x, y);
            }
        }
        r
    }

    /// The number of pixel columns.
    pub fn width(&self) -> (r: usize)
        ensures
            r == self.spec_width(),
    {
        self.width
    }

    /// The number of pixel rows.
    pub fn height(&self) -> (r: usize)
        ensures
            r == self.spec_height(),
    {
        self.height
    }

    /// The color at `(x, y)`.
    pub fn get(&self, x: usize, y: usize) -> (r: Color)
        requires
            self.wf(),
            self.in_image(x as int, y as int),
        ensures
            r == self.spec_pixel(x as int, y as int),
    {
        proof {
            lemma_grid_index_in_range(
                self.spec_width() as int,
                self.spec_height() as int,
                x as int,
                y as int,
            );
        }
        self.pixels[y * self.width + x]
    }

    /// Repaint the pixel at `(x, y)` with `color`, leaving every other
    /// pixel and the dimensions unchanged.
    pub fn set(&mut self, x: usize, y: usize, color: Color)
        requires
            old(self).wf(),
            old(self).in_image(x as int, y as int),
        ensures
            final(self).wf(),
            final(self).spec_width() == old(self).spec_width(),
            final(self).spec_height() == old(self).spec_height(),
            final(self).spec_pixel(x as int, y as int) == color,
            forall|x2: int, y2: int|
                old(self).in_image(x2, y2) && !(x2 == x && y2 == y)
                    ==> final(self).spec_pixel(x2, y2) == old(self).spec_pixel(x2, y2),
    {
        proof {
            lemma_grid_index_in_range(
                self.spec_width() as int,
                self.spec_height() as int,
                x as int,
                y as int,
            );
        }
        let idx: usize = y * self.width + x;
        self.pixels[idx] = color;
        proof {
            assert forall|x2: int, y2: int|
                old(self).in_image(x2, y2) && !(x2 == x && y2 == y)
                    implies final(self).spec_pixel(x2, y2) == old(self).spec_pixel(x2, y2) by {
                lemma_grid_index_in_range(
                    old(self).spec_width() as int,
                    old(self).spec_height() as int,
                    x2,
                    y2,
                );
                if y2 * old(self).spec_width() + x2 == y * old(self).spec_width() + x {
                    lemma_grid_index_injective(
                        old(self).spec_width() as int,
                        x as int,
                        y as int,
                        x2,
                        y2,
                    );
                }
            }
        }
    }
}

/// Row-major indexing stays within a `width * height` grid.
proof fn lemma_grid_index_in_range(width: int, height: int, x: int, y: int)
    requires
        0 <= x < width,
        0 <= y < height,
    ensures
        0 <= y * width + x < width * height,
{
    assert(0 <= y * width + x < width * height) by (nonlinear_arith)
        requires
            0 <= x < width,
            0 <= y < height,
    ;
}

/// Distinct coordinate pairs of a grid have distinct row-major indices.
proof fn lemma_grid_index_injective(width: int, x1: int, y1: int, x2: int, y2: int)
    requires
        0 <= x1 < width,
        0 <= x2 < width,
        0 <= y1,
        0 <= y2,
        y1 * width + x1 == y2 * width + x2,
    ensures
        x1 == x2 && y1 == y2,
{
    assert(x1 == x2 && y1 == y2) by (nonlinear_arith)
        requires
            0 <= x1 < width,
            0 <= x2 < width,
            0 <= y1,
            0 <= y2,
            y1 * width + x1 == y2 * width + x2,
    ;
}

} // verus!
