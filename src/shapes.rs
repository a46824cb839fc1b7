use vstd::prelude::*;

verus! {

/// Fixed-point scale of fractions: `MILLI` stands for `1.0`.
pub const MILLI: i64 = 1000;

/// A point in integer pixel coordinates.
#[derive(Clone, Copy, Debug, PartialEq, Eq, Structural)]
pub struct Point {
    pub x: i64,
    pub y: i64,
}

/// A width and a height.
#[derive(Clone, Copy, Debug, PartialEq, Eq, Structural)]
pub struct Size {
    pub w: i64,
    pub h: i64,
}

/// An axis-aligned rectangle given by its top-left corner and its size.
#[derive(Clone, Copy, Debug, PartialEq, Eq, Structural)]
pub struct Rect {
    pub pos: Point,
    pub size: Size,
}

/// Whether `p` lies in the half-open box `[pos.x, pos.x + w) x [pos.y, pos.y + h)`.
pub open spec fn rect_contains(r: Rect, p: Point) -> bool {
    &&& r.pos.x <= p.x
    &&& p.x < r.pos.x + r.size.w
    &&& r.pos.y <= p.y
    &&& p.y < r.pos.y + r.size.h
}

/// Half of `v`, rounded toward zero (as integer division does).
pub open spec fn half(v: int) -> int {
    if v >= 0 {
        v / 2
    } else {
        -((-v) / 2)
    }
}

impl Point {
    pub fn new(x: i64, y: i64) -> (r: Point)
        ensures
            r.x == x,
            r.y == y,
    {
        Point { x, y }
    }
}

impl Size {
    pub fn new(w: i64, h: i64) -> (r: Size)
        ensures
            r.w == w,
            r.h == h,
    {
        Size { w, h }
    }
}

impl Rect {
    pub fn new(x: i64, y: i64, w: i64, h: i64) -> (r: Rect)
        ensures
            r.pos.x == x,
            r.pos.y == y,
            r.size.w == w,
            r.size.h == h,
    {
        Rect { pos: Point { x, y }, size: Size { w, h } }
    }

    /// Hit test: the left and top edges are inside, the right and bottom
    /// edges are not.
    pub fn contains(&self, p: Point) -> (r: bool)
        ensures
            r == rect_contains(*self, p),
    {
        let px = p.x as i128;
        let py = p.y as i128;
        let x0 = self.pos.x as i128;
        let y0 = self.pos.y as i128;
        x0 <= px && px < x0 + self.size.w as i128 && y0 <= py && py < y0 + self.size.h as i128
    }

    /// The center of the rectangle; halves are rounded toward zero.
    pub fn center(&self) -> (r: Point)
        requires
            i64::MIN <= self.pos.x + half(self.size.w as int) <= i64::MAX,
            i64::MIN <= self.pos.y + half(self.size.h as int) <= i64::MAX,
        ensures
            r.x == self.pos.x + half(self.size.w as int),
            r.y == self.pos.y + half(self.size.h as int),
    {
        Point { x: self.pos.x + self.size.w / 2, y: self.pos.y + self.size.h / 2 }
    }
}

/// A hit test agrees with the half-open box on both axes.
pub proof fn lemma_contains_iff_in_box(b: Rect, p: Point)
    ensures
        rect_contains(b, p) <==> (b.pos.x <= p.x < b.pos.x + b.size.w && b.pos.y <= p.y < b.pos.y
            + b.size.h),
{
}

} // verus!
