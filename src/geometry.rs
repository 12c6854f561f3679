use vstd::prelude::*;

use crate::settings::{COORD_LIMIT, RADIUS_LIMIT};

verus! {

/// A position on the screen, in hundredths of a pixel; `y` grows downwards.
#[derive(Clone, Copy, Debug, PartialEq, Eq, Structural)]
pub struct Point {
    pub x: i64,
    pub y: i64,
}

/// The point with the given coordinates (exact whenever they fit in an `i64`).
pub open spec fn pt(x: int, y: int) -> Point {
    Point { x: x as i64, y: y as i64 }
}

impl Point {
    /// Both coordinates lie within `lim` of zero.
    pub open spec fn within(self, lim: int) -> bool {
        -lim <= self.x <= lim && -lim <= self.y <= lim
    }
}

/// The fixed palette that every shape is painted from.
#[derive(Clone, Copy, Debug, PartialEq, Eq, Structural)]
pub enum Paint {
    Line,
    Shadow,
    OuterBorder,
    InnerBorder,
    Black,
    Purple,
    WhitePurple,
    White,
    LightGreen,
    RingFill,
    RingFillFar,
    RingLine,
}

/// A regular hexagon with a vertex straight above and one straight below its centre.
#[derive(Clone, Copy, Debug, PartialEq, Eq, Structural)]
pub struct Hexagon {
    pub center: Point,
    pub radius: i64,
    pub paint: Paint,
}

/// One element of a draw list.
#[derive(Clone, Copy, Debug, PartialEq, Eq, Structural)]
pub enum Shape {
    /// A straight line of the given half-width.
    Line { paint: Paint, radius: i64, from: Point, to: Point },
    /// A filled hexagon.
    Polygon(Hexagon),
    /// An ellipse inscribed in the rectangle with top-left `corner`.
    Ellipse { paint: Paint, corner: Point, width: i64, height: i64 },
}

/// `w` is the horizontal reach of a hexagon of radius `r`: `r * sqrt(3) / 2`, rounded down.
pub open spec fn is_half_width(r: int, w: int) -> bool {
    0 <= w && 4 * w * w <= 3 * r * r && 3 * r * r < 4 * (w + 1) * (w + 1)
}

/// `r * sqrt(3) / 2`, rounded down.
pub open spec fn half_width(r: int) -> int {
    choose|w: int| is_half_width(r, w)
}

proof fn lemma_half_width_unique(r: int, a: int, b: int)
    requires
        is_half_width(r, a),
        is_half_width(r, b),
    ensures
        a == b,
{
    if a < b {
        assert(4 * (a + 1) * (a + 1) <= 4 * b * b) by (nonlinear_arith)
            requires
                0 <= a,
                a + 1 <= b,
        ;
    } else if b < a {
        assert(4 * (b + 1) * (b + 1) <= 4 * a * a) by (nonlinear_arith)
            requires
                0 <= b,
                b + 1 <= a,
        ;
    }
}

/// Any witness of `is_half_width` is the one that `half_width` names.
pub proof fn lemma_half_width(r: int, w: int)
    requires
        is_half_width(r, w),
    ensures
        half_width(r) == w,
{
    lemma_half_width_unique(r, w, half_width(r));
}

/// Computes `r * sqrt(3) / 2` rounded down, by bisection.
pub fn compute_half_width(r: i64) -> (w: i64)
    requires
        0 <= r <= RADIUS_LIMIT,
    ensures
        w == half_width(r as int),
        0 <= w <= r,
{
    assert(3 * r * r <= 3 * RADIUS_LIMIT * RADIUS_LIMIT) by (nonlinear_arith)
        requires
            0 <= r <= RADIUS_LIMIT,
    ;
    let target: i64 = 3 * r * r;
    let mut lo: i64 = 0;
    let mut hi: i64 = r + 1;
    assert(3 * r * r < 4 * (r + 1) * (r + 1)) by (nonlinear_arith)
        requires
            0 <= r,
    ;
    while hi - lo > 1
        invariant
            0 <= r <= RADIUS_LIMIT,
            target == 3 * r * r,
            0 <= lo < hi <= r + 1,
            4 * lo * lo <= target,
            target < 4 * hi * hi,
        decreases hi - lo,
    {
        let mid: i64 = lo + (hi - lo) / 2;
        assert(4 * mid * mid <= 4 * (RADIUS_LIMIT + 1) * (RADIUS_LIMIT + 1)) by (nonlinear_arith)
            requires
                0 <= mid <= RADIUS_LIMIT + 1,
        ;
        if 4 * mid * mid <= target {
            lo = mid;
        } else {
            hi = mid;
        }
    }
    assert(lo <= r) by (nonlinear_arith)
        requires
            0 <= lo,
            4 * lo * lo <= 3 * r * r,
            0 <= r,
    ;
    proof {
        lemma_half_width(r as int, lo as int);
    }
    lo
}

impl Hexagon {
    /// The centre and the radius are small enough for every corner to be computed.
    pub open spec fn wf(self) -> bool {
        self.center.within(COORD_LIMIT as int) && 0 <= self.radius <= RADIUS_LIMIT
    }

    /// Offset of corner `i` from the centre. Corners run clockwise on the screen
    /// from the lower right one: lower right, bottom, lower left, upper left, top,
    /// upper right.
    pub open spec fn corner_offset(self, i: int) -> (int, int) {
        let r = self.radius as int;
        let w = half_width(r);
        let h = r / 2;
        if i == 0 {
            (w, h)
        } else if i == 1 {
            (0, r)
        } else if i == 2 {
            (-w, h)
        } else if i == 3 {
            (-w, -h)
        } else if i == 4 {
            (0, -r)
        } else {
            (w, -h)
        }
    }

    /// Corner `i` (0 to 5) of the hexagon.
    pub open spec fn spec_corner(self, i: int) -> Point {
        pt(self.center.x + self.corner_offset(i).0, self.center.y + self.corner_offset(i).1)
    }

    /// The six edges of the hexagon as lines of half-width `radius`.
    pub open spec fn outline(self, radius: i64) -> Seq<Shape> {
        Seq::new(
            6,
            |i: int|
                Shape::Line {
                    paint: self.paint,
                    radius,
                    from: self.spec_corner(i),
                    to: self.spec_corner((i + 1) % 6),
                },
        )
    }

    pub fn new(center: Point, radius: i64, paint: Paint) -> (h: Hexagon)
        ensures
            h == (Hexagon { center, radius, paint }),
    {
        Hexagon { center, radius, paint }
    }

    /// Corner `i` of the hexagon, as `spec_corner` gives it.
    pub fn corner(&self, i: usize) -> (p: Point)
        requires
            self.wf(),
            i < 6,
        ensures
            p == self.spec_corner(i as int),
            p.within(COORD_LIMIT + RADIUS_LIMIT),
    {
        let w = compute_half_width(self.radius);
        let r = self.radius;
        let h = r / 2;
        let c = self.center;
        if i == 0 {
            Point { x: c.x + w, y: c.y + h }
        } else if i == 1 {
            Point { x: c.x, y: c.y + r }
        } else if i == 2 {
            Point { x: c.x - w, y: c.y + h }
        } else if i == 3 {
            Point { x: c.x - w, y: c.y - h }
        } else if i == 4 {
            Point { x: c.x, y: c.y - r }
        } else {
            Point { x: c.x + w, y: c.y - h }
        }
    }

    /// The six corners, in the order of `spec_corner`.
    pub fn corners(&self) -> (v: Vec<Point>)
        requires
            self.wf(),
        ensures
            v@ == Seq::new(6, |i: int| self.spec_corner(i)),
    {
        let mut v: Vec<Point> = Vec::new();
        for i in 0..6
            invariant
                self.wf(),
                v@ == Seq::new(i as nat, |k: int| self.spec_corner(k)),
        {
            let p = self.corner(i);
            v.push(p);
        }
        v
    }

    /// Appends the filled hexagon to a draw list.
    pub fn draw_filled(&self, out: &mut Vec<Shape>)
        ensures
            final(out)@ == old(out)@.push(Shape::Polygon(*self)),
    {
        out.push(Shape::Polygon(*self));
    }

    /// Appends the six edges of the hexagon to a draw list.
    pub fn draw_lined(&self, radius: i64, out: &mut Vec<Shape>)
        requires
            self.wf(),
        ensures
            final(out)@ == old(out)@ + self.outline(radius),
    {
        let ghost start = out@;
        for i in 0..6
            invariant
                self.wf(),
                out@ == start + self.outline(radius).take(i as int),
        {
            let from = self.corner(i);
            let next: usize = if i < 5 { i + 1 } else { 0 };
            let to = self.corner(next);
            out.push(Shape::Line { paint: self.paint, radius, from, to });
            assert(self.outline(radius).take(i + 1) == self.outline(radius).take(i as int).push(
                self.outline(radius)[i as int],
            ));
        }
        assert(self.outline(radius).take(6) == self.outline(radius));
    }
}

} // verus!
