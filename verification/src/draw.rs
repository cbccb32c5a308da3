//! Pixel rasterization primitives: filled rectangles, outlined
//! rectangles, axis-aligned lines, and two Bresenham-style diagonal-line
//! variants.
//!
//! Every operation is a no-op when the target rectangle is empty, and
//! every contract pins down each pixel of the resulting buffer: painted
//! with the given color inside the operation's pixel set, untouched
//! outside it.

use crate::geom::Rect;
use crate::pixel::{Color, PixelBuffer};
use core::ops::Range;
use vstd::prelude::*;

verus! {

/// The buffer `after` is a well-formed grid with the same dimensions as
/// `before`.
pub open spec fn same_dims(before: PixelBuffer, after: PixelBuffer) -> bool {
    &&& after.wf()
    &&& after.spec_width() == before.spec_width()
    &&& after.spec_height() == before.spec_height()
}

/// The rectangle lies entirely inside the image.
pub open spec fn rect_within(rect: Rect<usize>, image: PixelBuffer) -> bool {
    &&& rect.top_left.x + rect.size.w <= image.spec_width()
    &&& rect.top_left.y + rect.size.h <= image.spec_height()
}

/// The one-pixel-wide outline of the rectangle: the pixels of the
/// rectangle that lie on its first or last row or on its first or last
/// column.
pub open spec fn on_outline(rect: Rect<usize>, x: int, y: int) -> bool {
    rect.spec_contains(x, y) && (x == rect.top_left.x || x == rect.top_left.x + rect.size.w - 1
        || y == rect.top_left.y || y == rect.top_left.y + rect.size.h - 1)
}

/// Paint a 1-pixel horizontal line: every pixel with `x.start <= px <
/// x.end` in row `y`.
pub fn horizontal_line(image: &mut PixelBuffer, x: Range<usize>, y: usize, color: Color)
    requires
        old(image).wf(),
        x.start < x.end ==> x.end <= old(image).spec_width() && y < old(image).spec_height(),
    ensures
        same_dims(*old(image), *final(image)),
        forall|px: int, py: int|
            old(image).in_image(px, py) ==> final(image).spec_pixel(px, py) == (if py == y
                && x.start <= px < x.end {
                color
            } else {
                old(image).spec_pixel(px, py)
            }),
{
    let start: usize = x.start;
    let end: usize = x.end;
    if start >= end {
        return ;
    }
    let mut i: usize = start;
    while i < end
        invariant
            start <= i <= end,
            end <= image.spec_width(),
            y < image.spec_height(),
            same_dims(*old(image), *image),
            forall|px: int, py: int|
                old(image).in_image(px, py) ==> image.spec_pixel(px, py) == (if py == y && start
                    <= px < i {
                    color
                } else {
                    old(image).spec_pixel(px, py)
                }),
        decreases end - i,
    {
        image.set(i, y, color);
        i = i + 1;
    }
}

/// Paint a 1-pixel vertical line: every pixel with `y.start <= py <
/// y.end` in column `x`.
pub fn vertical_line(image: &mut PixelBuffer, x: usize, y: Range<usize>, color: Color)
    requires
        old(image).wf(),
        y.start < y.end ==> y.end <= old(image).spec_height() && x < old(image).spec_width(),
    ensures
        same_dims(*old(image), *final(image)),
        forall|px: int, py: int|
            old(image).in_image(px, py) ==> final(image).spec_pixel(px, py) == (if px == x
                && y.start <= py < y.end {
                color
            } else {
                old(image).spec_pixel(px, py)
            }),
{
    let start: usize = y.start;
    let end: usize = y.end;
    if start >= end {
        return ;
    }
    let mut i: usize = start;
    while i < end
        invariant
            start <= i <= end,
            end <= image.spec_height(),
            x < image.spec_width(),
            same_dims(*old(image), *image),
            forall|px: int, py: int|
                old(image).in_image(px, py) ==> image.spec_pixel(px, py) == (if px == x && start
                    <= py < i {
                    color
                } else {
                    old(image).spec_pixel(px, py)
                }),
        decreases end - i,
    {
        image.set(x, i, color);
        i = i + 1;
    }
}

/// Set every pixel of the half-open rectangle `[top_left, bottom_right)`
/// to `color`; an empty rectangle paints nothing.
pub fn filled_rect(image: &mut PixelBuffer, rect: &Rect<usize>, color: Color)
    requires
        old(image).wf(),
        !rect.spec_is_empty() ==> rect_within(*rect, *old(image)),
    ensures
        same_dims(*old(image), *final(image)),
        forall|px: int, py: int|
            old(image).in_image(px, py) ==> final(image).spec_pixel(px, py) == (
            if rect.spec_contains(px, py) {
                color
            } else {
                old(image).spec_pixel(px, py)
            }),
{
    if rect.is_empty() {
        return ;
    }
    let ghost orig = *image;
    let bottom_right = rect.bottom_right();
    let mut y: usize = rect.top_left.y;
    while y < bottom_right.y
        invariant
            !rect.spec_is_empty(),
            rect_within(*rect, orig),
            bottom_right == rect.spec_bottom_right(),
            rect.top_left.y <= y <= bottom_right.y,
            same_dims(orig, *image),
            forall|px: int, py: int|
                orig.in_image(px, py) ==> image.spec_pixel(px, py) == (
                if rect.spec_contains(px, py) && py < y {
                    color
                } else {
                    orig.spec_pixel(px, py)
                }),
        decreases bottom_right.y - y,
    {
        let mut x: usize = rect.top_left.x;
        while x < bottom_right.x
            invariant
                !rect.spec_is_empty(),
                rect_within(*rect, orig),
                bottom_right == rect.spec_bottom_right(),
                rect.top_left.y <= y < bottom_right.y,
                rect.top_left.x <= x <= bottom_right.x,
                same_dims(orig, *image),
                forall|px: int, py: int|
                    orig.in_image(px, py) ==> image.spec_pixel(px, py) == (
                    if rect.spec_contains(px, py) && (py < y || (py == y && px < x)) {
                        color
                    } else {
                        orig.spec_pixel(px, py)
                    }),
            decreases bottom_right.x - x,
        {
            image.set(x, y, color);
            x = x + 1;
        }
        y = y + 1;
    }
}

/// Draw the one-pixel-wide outline of the rectangle: its top row, its
/// bottom row, and — only when the rectangle is more than two rows high
/// — its left and right columns restricted to the rows strictly between
/// the two, so that no corner pixel is painted twice.
pub fn rect(image: &mut PixelBuffer, rect: &Rect<usize>, color: Color)
    requires
        old(image).wf(),
        !rect.spec_is_empty() ==> rect_within(*rect, *old(image)),
    ensures
        same_dims(*old(image), *final(image)),
        forall|px: int, py: int|
            old(image).in_image(px, py) ==> final(image).spec_pixel(px, py) == (
            if on_outline(*rect, px, py) {
                color
            } else {
                old(image).spec_pixel(px, py)
            }),
{
    if rect.is_empty() {
        return ;
    }
    let bottom_right = rect.bottom_right();
    horizontal_line(image, rect.top_left.x..bottom_right.x, rect.top_left.y, color);
    assert(forall|px: int, py: int|
        old(image).in_image(px, py) ==> image.spec_pixel(px, py) == (if py == rect.top_left.y
            && rect.top_left.x <= px < rect.top_left.x + rect.size.w {
            color
        } else {
            old(image).spec_pixel(px, py)
        }));
    horizontal_line(image, rect.top_left.x..bottom_right.x, bottom_right.y - 1, color);
    assert(forall|px: int, py: int|
        old(image).in_image(px, py) ==> image.spec_pixel(px, py) == (
        if (py == rect.top_left.y || py == rect.top_left.y + rect.size.h - 1) && rect.top_left.x
            <= px < rect.top_left.x + rect.size.w {
            color
        } else {
            old(image).spec_pixel(px, py)
        }));
    if rect.size.h > 2 {
        vertical_line(image, rect.top_left.x, rect.top_left.y + 1..bottom_right.y - 1, color);
        assert(forall|px: int, py: int|
            old(image).in_image(px, py) ==> image.spec_pixel(px, py) == (
            if ((py == rect.top_left.y || py == rect.top_left.y + rect.size.h - 1)
                && rect.top_left.x <= px < rect.top_left.x + rect.size.w) || (px == rect.top_left.x
                && rect.top_left.y < py < rect.top_left.y + rect.size.h - 1) {
                color
            } else {
                old(image).spec_pixel(px, py)
            }));
        vertical_line(image, bottom_right.x - 1, rect.top_left.y + 1..bottom_right.y - 1, color);
    }
    assert forall|px: int, py: int| old(image).in_image(px, py) implies image.spec_pixel(px, py)
        == (if on_outline(*rect, px, py) {
        color
    } else {
        old(image).spec_pixel(px, py)
    }) by {}
}

/// The Bresenham error accumulator before column `k` of a diagonal line
/// over a rectangle whose column extent is `dx` and whose row extent is
/// `dy` (each one less than the rectangle's width and height). It starts
/// at `2 * dy - dx`; a column whose accumulator is positive ends with a
/// row step and subtracts `2 * dx`, and every column adds `2 * dy`.
pub open spec fn diag_d(dx: int, dy: int, k: nat) -> int
    decreases k,
{
    if k == 0 {
        2 * dy - dx
    } else {
        let prev = diag_d(dx, dy, (k - 1) as nat);
        if prev > 0 {
            prev - 2 * dx + 2 * dy
        } else {
            prev + 2 * dy
        }
    }
}

/// How many of the first `k` columns of the diagonal line end with a
/// row step.
pub open spec fn diag_steps(dx: int, dy: int, k: nat) -> int
    decreases k,
{
    if k == 0 {
        0
    } else {
        diag_steps(dx, dy, (k - 1) as nat) + (if diag_d(dx, dy, (k - 1) as nat) > 0 {
            1int
        } else {
            0
        })
    }
}

/// On a square rectangle the error accumulator is constant, so the line
/// steps one row at every column: the painted pixels are the exact
/// diagonal.
pub proof fn lemma_diag_square(n: int, k: nat)
    requires
        0 <= n,
    ensures
        diag_d(n, n, k) == n,
        diag_steps(n, n, k) == (if n > 0 {
            k as int
        } else {
            0
        }),
    decreases k,
{
    if k > 0 {
        lemma_diag_square(n, (k - 1) as nat);
    }
}

/// The error accumulator never falls below `-2 * dx` and grows by at
/// most `2 * dy` per column.
pub proof fn lemma_diag_d_bounds(dx: int, dy: int, k: nat)
    requires
        0 <= dx,
        0 <= dy,
    ensures
        -2 * dx <= diag_d(dx, dy, k) <= 2 * dy * (k + 1),
    decreases k,
{
    if k == 0 {
        assert(2 * dy * (k + 1) == 2 * dy) by (nonlinear_arith)
            requires
                k == 0,
        ;
    } else {
        lemma_diag_d_bounds(dx, dy, (k - 1) as nat);
        assert(2 * dy * (k + 1) == 2 * dy * (((k - 1) as nat) + 1) + 2 * dy) by (nonlinear_arith)
            requires
                1 <= k,
        ;
        assert(2 * dy <= 2 * dy * (k + 1)) by (nonlinear_arith)
            requires
                0 <= dy,
                1 <= k + 1,
        ;
    }
}

/// The row painted in column `k` by `diagonal_line_from_top_left`: the
/// top row plus the row steps taken so far.
pub open spec fn diag_row_from_top(rect: Rect<usize>, k: nat) -> int {
    rect.top_left.y + diag_steps(rect.size.w - 1, rect.size.h - 1, k)
}

/// The row painted in column `k` by `diagonal_line_from_bottom_left`:
/// the bottom row minus the row steps taken so far.
pub open spec fn diag_row_from_bottom(rect: Rect<usize>, k: nat) -> int {
    rect.top_left.y + rect.size.h - 1 - diag_steps(rect.size.w - 1, rect.size.h - 1, k)
}

/// Draw a single-pixel-wide line from the rectangle's top-left corner
/// toward its bottom-right corner by integer error accumulation: column
/// `k` paints the pixel `diag_steps(..) ` rows below the top row. On a
/// square rectangle this is the exact main diagonal.
pub fn diagonal_line_from_top_left(image: &mut PixelBuffer, rect: &Rect<usize>, color: Color)
    requires
        old(image).wf(),
        !rect.spec_is_empty() ==> {
            &&& rect.size.w * rect.size.h <= usize::MAX
            &&& rect.top_left.x + rect.size.w <= old(image).spec_width()
            &&& forall|k: nat|
                k < rect.size.w ==> diag_row_from_top(*rect, k) < old(image).spec_height()
        },
    ensures
        same_dims(*old(image), *final(image)),
        forall|px: int, py: int|
            old(image).in_image(px, py) ==> final(image).spec_pixel(px, py) == (
            if !rect.spec_is_empty() && rect.top_left.x <= px < rect.top_left.x + rect.size.w && py
                == diag_row_from_top(*rect, (px - rect.top_left.x) as nat) {
                color
            } else {
                old(image).spec_pixel(px, py)
            }),
{
    if rect.is_empty() {
        return ;
    }
    let ghost orig = *image;
    let ghost dxi: int = rect.size.w - 1;
    let ghost dyi: int = rect.size.h - 1;
    let dx: i128 = rect.size.w as i128 - 1;
    let dy: i128 = rect.size.h as i128 - 1;
    let mut d: i128 = 2 * dy - dx;
    let mut y: usize = rect.top_left.y;
    let end_x: usize = rect.top_left.x + rect.size.w;
    let mut x: usize = rect.top_left.x;
    while x < end_x
        invariant
            !rect.spec_is_empty(),
            dxi == rect.size.w - 1,
            dyi == rect.size.h - 1,
            dx == dxi,
            dy == dyi,
            rect.size.w * rect.size.h <= usize::MAX,
            rect.top_left.x + rect.size.w <= orig.spec_width(),
            forall|k: nat|
                k < rect.size.w ==> diag_row_from_top(*rect, k) < orig.spec_height(),
            end_x == rect.top_left.x + rect.size.w,
            rect.top_left.x <= x <= end_x,
            d == diag_d(dxi, dyi, (x - rect.top_left.x) as nat),
            y == diag_row_from_top(*rect, (x - rect.top_left.x) as nat),
            0 <= diag_steps(dxi, dyi, (x - rect.top_left.x) as nat),
            same_dims(orig, *image),
            forall|px: int, py: int|
                orig.in_image(px, py) ==> image.spec_pixel(px, py) == (
                if rect.top_left.x <= px < x && py == diag_row_from_top(
                    *rect,
                    (px - rect.top_left.x) as nat,
                ) {
                    color
                } else {
                    orig.spec_pixel(px, py)
                }),
        decreases end_x - x,
    {
        let ghost k: nat = (x - rect.top_left.x) as nat;
        proof {
            assert(diag_row_from_top(*rect, k) < orig.spec_height());
        }
        image.set(x, y, color);
        proof {
            lemma_diag_d_bounds(dxi, dyi, k);
            lemma_diag_d_bounds(dxi, dyi, (k + 1) as nat);
            assert(2 * dyi * (k + 1) <= 2 * dyi * (rect.size.w + 1)) by (nonlinear_arith)
                requires
                    0 <= dyi,
                    k + 1 <= rect.size.w + 1,
            ;
            assert(2 * dyi * (((k + 1) as nat) + 1) <= 2 * dyi * (rect.size.w + 1))
                by (nonlinear_arith)
                requires
                    0 <= dyi,
                    k + 2 <= rect.size.w + 1,
            ;
            assert(2 * dyi * (rect.size.w + 1) <= 2 * (rect.size.w * rect.size.h)
                + 2 * rect.size.h) by (nonlinear_arith)
                requires
                    0 <= rect.size.w,
                    0 <= dyi,
                    dyi <= rect.size.h - 1,
            ;
            assert(diag_d(dxi, dyi, (k + 1) as nat) == (if diag_d(dxi, dyi, k) > 0 {
                diag_d(dxi, dyi, k) - 2 * dxi + 2 * dyi
            } else {
                diag_d(dxi, dyi, k) + 2 * dyi
            }));
            assert(diag_steps(dxi, dyi, (k + 1) as nat) == diag_steps(dxi, dyi, k) + (if diag_d(
                dxi,
                dyi,
                k,
            ) > 0 {
                1int
            } else {
                0
            }));
        }
        if d > 0 {
            y = y + 1;
            d = d - 2 * dx;
        }
        d = d + 2 * dy;
        x = x + 1;
    }
}

/// Draw a single-pixel-wide line from the rectangle's bottom-left corner
/// toward its top-right corner, the mirror of
/// `diagonal_line_from_top_left`: column `k` paints the pixel
/// `diag_steps(..)` rows above the bottom row. On a square rectangle
/// this is the exact anti-diagonal.
pub fn diagonal_line_from_bottom_left(image: &mut PixelBuffer, rect: &Rect<usize>, color: Color)
    requires
        old(image).wf(),
        !rect.spec_is_empty() ==> {
            &&& rect.size.w * rect.size.h <= usize::MAX
            &&& rect.top_left.x + rect.size.w <= old(image).spec_width()
            &&& forall|k: nat|
                k < rect.size.w ==> 0 <= #[trigger] diag_row_from_bottom(*rect, k) < old(
                    image,
                ).spec_height()
        },
    ensures
        same_dims(*old(image), *final(image)),
        forall|px: int, py: int|
            old(image).in_image(px, py) ==> final(image).spec_pixel(px, py) == (
            if !rect.spec_is_empty() && rect.top_left.x <= px < rect.top_left.x + rect.size.w && py
                == diag_row_from_bottom(*rect, (px - rect.top_left.x) as nat) {
                color
            } else {
                old(image).spec_pixel(px, py)
            }),
{
    if rect.is_empty() {
        return ;
    }
    let ghost orig = *image;
    let ghost dxi: int = rect.size.w - 1;
    let ghost dyi: int = rect.size.h - 1;
    proof {
        assert(diag_steps(dxi, dyi, 0) == 0);
        assert(0 <= diag_row_from_bottom(*rect, 0) < old(image).spec_height());
    }
    let dx: i128 = rect.size.w as i128 - 1;
    let dy: i128 = rect.size.h as i128 - 1;
    let mut d: i128 = 2 * dy - dx;
    let bottom_right = rect.bottom_right();
    let mut y: usize = bottom_right.y;
    let end_x: usize = rect.top_left.x + rect.size.w;
    let mut x: usize = rect.top_left.x;
    while x < end_x
        invariant
            !rect.spec_is_empty(),
            dxi == rect.size.w - 1,
            dyi == rect.size.h - 1,
            dx == dxi,
            dy == dyi,
            rect.size.w * rect.size.h <= usize::MAX,
            rect.top_left.x + rect.size.w <= orig.spec_width(),
            forall|k: nat|
                k < rect.size.w ==> 0 <= #[trigger] diag_row_from_bottom(*rect, k)
                    < orig.spec_height(),
            end_x == rect.top_left.x + rect.size.w,
            rect.top_left.x <= x <= end_x,
            d == diag_d(dxi, dyi, (x - rect.top_left.x) as nat),
            y == diag_row_from_bottom(*rect, (x - rect.top_left.x) as nat) + 1,
            0 <= diag_steps(dxi, dyi, (x - rect.top_left.x) as nat),
            same_dims(orig, *image),
            forall|px: int, py: int|
                orig.in_image(px, py) ==> image.spec_pixel(px, py) == (
                if rect.top_left.x <= px < x && py == diag_row_from_bottom(
                    *rect,
                    (px - rect.top_left.x) as nat,
                ) {
                    color
                } else {
                    orig.spec_pixel(px, py)
                }),
        decreases end_x - x,
    {
        let ghost k: nat = (x - rect.top_left.x) as nat;
        proof {
            assert(0 <= diag_row_from_bottom(*rect, k) < orig.spec_height());
        }
        image.set(x, y - 1, color);
        proof {
            lemma_diag_d_bounds(dxi, dyi, k);
            lemma_diag_d_bounds(dxi, dyi, (k + 1) as nat);
            assert(2 * dyi * (k + 1) <= 2 * dyi * (rect.size.w + 1)) by (nonlinear_arith)
                requires
                    0 <= dyi,
                    k + 1 <= rect.size.w + 1,
            ;
            assert(2 * dyi * (((k + 1) as nat) + 1) <= 2 * dyi * (rect.size.w + 1))
                by (nonlinear_arith)
                requires
                    0 <= dyi,
                    k + 2 <= rect.size.w + 1,
            ;
            assert(2 * dyi * (rect.size.w + 1) <= 2 * (rect.size.w * rect.size.h)
                + 2 * rect.size.h) by (nonlinear_arith)
                requires
                    0 <= rect.size.w,
                    0 <= dyi,
                    dyi <= rect.size.h - 1,
            ;
            assert(diag_d(dxi, dyi, (k + 1) as nat) == (if diag_d(dxi, dyi, k) > 0 {
                diag_d(dxi, dyi, k) - 2 * dxi + 2 * dyi
            } else {
                diag_d(dxi, dyi, k) + 2 * dyi
            }));
            assert(diag_steps(dxi, dyi, (k + 1) as nat) == diag_steps(dxi, dyi, k) + (if diag_d(
                dxi,
                dyi,
                k,
            ) > 0 {
                1int
            } else {
                0
            }));
        }
        if d > 0 {
            y = y - 1;
            d = d - 2 * dx;
        }
        d = d + 2 * dy;
        x = x + 1;
    }
}

/// On a square rectangle the diagonal primitives paint exact diagonals:
/// column `k` of `diagonal_line_from_top_left` paints the main-diagonal
/// pixel `k` rows below the top row, and column `k` of
/// `diagonal_line_from_bottom_left` the anti-diagonal pixel `k` rows
/// above the bottom row. (A one-pixel square degenerates to its single
/// pixel.)
pub proof fn lemma_diag_rows_square(rect: Rect<usize>, k: nat)
    requires
        rect.size.w == rect.size.h,
        k < rect.size.w,
    ensures
        diag_row_from_top(rect, k) == rect.top_left.y + (if rect.size.w > 1 {
            k as int
        } else {
            0
        }),
        diag_row_from_bottom(rect, k) == rect.top_left.y + rect.size.h - 1 - (if rect.size.w > 1 {
            k as int
        } else {
            0
        }),
{
    lemma_diag_square(rect.size.w - 1, k);
}

/// With a height of at most two rows the outline degenerates to the top
/// and bottom rows alone: no pixel is painted for being on the left or
/// right column that is not already on one of those rows.
pub proof fn lemma_outline_thin_rect(rect: Rect<usize>, x: int, y: int)
    requires
        rect.size.h <= 2,
    ensures
        on_outline(rect, x, y) <==> (rect.spec_contains(x, y) && (y == rect.top_left.y || y
            == rect.top_left.y + rect.size.h - 1)),
{
}

} // verus!
