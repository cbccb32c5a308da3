//! Generic 2D point, size and rectangle arithmetic.
//!
//! Rectangles are half-open: a `Rect` contains a point iff both of the
//! point's coordinates lie in `[top_left, bottom_right)`.

use vstd::prelude::*;

verus! {

#[derive(Copy, Clone, PartialEq, Eq, Structural, Hash, Debug)]
pub struct Point<T> {
    pub x: T,
    pub y: T,
}

#[derive(Copy, Clone, PartialEq, Eq, Structural, Hash, Debug)]
pub struct Size<T> {
    pub w: T,
    pub h: T,
}

#[derive(Copy, Clone, PartialEq, Eq, Structural, Hash, Debug)]
pub struct Rect<T> {
    pub top_left: Point<T>,
    pub size: Size<T>,
}

impl Point<usize> {
    /// Component-wise sum of two points, as a mathematical value.
    pub open spec fn spec_add(self, rhs: Point<usize>) -> Point<usize> {
        Point { x: (self.x + rhs.x) as usize, y: (self.y + rhs.y) as usize }
    }

    /// The point displaced by a size, as a mathematical value.
    pub open spec fn spec_add_size(self, rhs: Size<usize>) -> Point<usize> {
        Point { x: (self.x + rhs.w) as usize, y: (self.y + rhs.h) as usize }
    }

    /// Component-wise addition with another point.
    pub fn add(self, rhs: Point<usize>) -> (r: Point<usize>)
        requires
            self.x + rhs.x <= usize::MAX,
            self.y + rhs.y <= usize::MAX,
        ensures
            r == self.spec_add(rhs),
            r.x == self.x + rhs.x,
            r.y == self.y + rhs.y,
    {
        Point { x: self.x + rhs.x, y: self.y + rhs.y }
    }

    /// Component-wise addition with a size.
    pub fn add_size(self, rhs: Size<usize>) -> (r: Point<usize>)
        requires
            self.x + rhs.w <= usize::MAX,
            self.y + rhs.h <= usize::MAX,
        ensures
            r == self.spec_add_size(rhs),
            r.x == self.x + rhs.w,
            r.y == self.y + rhs.h,
    {
        Point { x: self.x + rhs.w, y: self.y + rhs.h }
    }

    /// In-place component-wise addition with another point.
    pub fn add_assign(&mut self, rhs: Point<usize>)
        requires
            old(self).x + rhs.x <= usize::MAX,
            old(self).y + rhs.y <= usize::MAX,
        ensures
            *final(self) == old(self).spec_add(rhs),
    {
        self.x = self.x + rhs.x;
        self.y = self.y + rhs.y;
    }

    /// In-place component-wise addition with a size.
    pub fn add_assign_size(&mut self, rhs: Size<usize>)
        requires
            old(self).x + rhs.w <= usize::MAX,
            old(self).y + rhs.h <= usize::MAX,
        ensures
            *final(self) == old(self).spec_add_size(rhs),
    {
        self.x = self.x + rhs.w;
        self.y = self.y + rhs.h;
    }
}

impl Size<usize> {
    /// A size is empty iff either extent is zero.
    pub open spec fn spec_is_empty(self) -> bool {
        self.w == 0 || self.h == 0
    }

    /// Whether the size spans no pixels at all.
    pub fn is_empty(&self) -> (r: bool)
        ensures
            r == self.spec_is_empty(),
            r == (self.w == 0 || self.h == 0),
    {
        self.w == 0 || self.h == 0
    }
}

impl Rect<usize> {
    /// A rectangle is empty iff its size is empty.
    pub open spec fn spec_is_empty(self) -> bool {
        self.size.spec_is_empty()
    }

    /// The corner one past the rectangle's last row and column.
    pub open spec fn spec_bottom_right(self) -> Point<usize> {
        self.top_left.spec_add_size(self.size)
    }

    /// Whether the (mathematical) coordinates `x`, `y` lie inside the
    /// half-open rectangle `[top_left, top_left + size)`.
    pub open spec fn spec_contains(self, x: int, y: int) -> bool {
        &&& self.top_left.x <= x < self.top_left.x + self.size.w
        &&& self.top_left.y <= y < self.top_left.y + self.size.h
    }

    /// Whether the rectangle's corner sums stay within `usize`.
    pub open spec fn spec_fits(self) -> bool {
        &&& self.top_left.x + self.size.w <= usize::MAX
        &&& self.top_left.y + self.size.h <= usize::MAX
    }

    /// Whether the rectangle spans no pixels at all.
    pub fn is_empty(&self) -> (r: bool)
        ensures
            r == self.spec_is_empty(),
            r == self.size.spec_is_empty(),
    {
        self.size.is_empty()
    }

    /// The corner one past the rectangle's last row and column.
    pub fn bottom_right(&self) -> (r: Point<usize>)
        requires
            self.spec_fits(),
        ensures
            r == self.spec_bottom_right(),
            r == self.top_left.spec_add_size(self.size),
            r.x == self.top_left.x + self.size.w,
            r.y == self.top_left.y + self.size.h,
    {
        self.top_left.add_size(self.size)
    }

    /// Whether `point` lies inside the rectangle (half-open on the
    /// bottom-right side).
    pub fn is_in_bounds(&self, point: Point<usize>) -> (r: bool)
        requires
            self.spec_fits(),
        ensures
            r == self.spec_contains(point.x as int, point.y as int),
    {
        point.x >= self.top_left.x && point.y >= self.top_left.y && {
            let bottom_right = self.bottom_right();
            point.x < bottom_right.x && point.y < bottom_right.y
        }
    }
}

/// A rectangle's bottom-right corner is its top-left corner displaced by
/// its size, component by component.
pub proof fn lemma_bottom_right_is_add(r: Rect<usize>)
    ensures
        r.spec_bottom_right() == r.top_left.spec_add_size(r.size),
{
}

/// A rectangle is empty exactly when its size is empty, i.e. when either
/// the width or the height is zero.
pub proof fn lemma_rect_empty_iff_size_empty(r: Rect<usize>)
    ensures
        r.spec_is_empty() <==> r.size.spec_is_empty(),
        r.spec_is_empty() <==> (r.size.w == 0 || r.size.h == 0),
{
}

/// Containment is exactly the half-open test against both corners: a
/// point is inside iff each coordinate is at least the top-left one and
/// strictly below the bottom-right one, so containment fails at and
/// beyond `bottom_right`.
pub proof fn lemma_contains_half_open(r: Rect<usize>, x: int, y: int)
    requires
        r.spec_fits(),
    ensures
        r.spec_contains(x, y) <==> {
            &&& r.top_left.x <= x < r.spec_bottom_right().x
            &&& r.top_left.y <= y < r.spec_bottom_right().y
        },
{
}

} // verus!
