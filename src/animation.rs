use vstd::prelude::*;
use vstd::arithmetic::div_mod::lemma_fundamental_div_mod_converse;

use crate::geometry::{pt, Hexagon, Paint, Point, Shape};
use crate::settings::{COORD_LIMIT, POINT_SPACING};

verus! {

/// Starting radius of the outer aiming hexagon.
pub const ANIMATION_RADIUS: i64 = 30000;
/// Distance from the centre at which the four cross-hair lines start.
pub const AIM_LINE_REACH: i64 = 25000;
/// Closest that the cross-hair lines come to the centre: half of `POINT_SPACING`.
pub const AIM_LINE_MIN: i64 = 2500;
/// Time over which the aiming hexagon and lines close in.
pub const AIMING_TIME: i64 = 300_000;
/// Start of the ring phase.
pub const PHASE2_START: i64 = 1_000_000;
/// Time over which the rings of the second phase close in.
pub const PHASE2_AIMING_TIME: i64 = 300_000;
/// End of the animation.
pub const PHASE2_END: i64 = 2_000_000;
/// Half-width of thin hexagon outlines.
pub const AIMING_HEX_RADIUS: i64 = 50;
/// Half-width of the aiming lines.
pub const AIMING_LINE_RADIUS: i64 = 150;
/// Half-width of the filled-looking rings of the second phase.
pub const RING_FILL_RADIUS: i64 = 600;
/// Half of one on-off cycle of the flashing inner hexagon.
pub const INNER_HEX_FLASH_PERIOD: i64 = 100_000;
/// Smallest size that the rings of the second phase settle to.
pub const RING_MIN_SIZE: i64 = 7500;

/// `len` scaled by the share of the aiming time still left at time `t`, rounded
/// down; zero once it has run out.
pub open spec fn aim_scaled(len: int, t: int) -> int {
    if t >= AIMING_TIME {
        0
    } else {
        len * (AIMING_TIME - t) / (AIMING_TIME as int)
    }
}

/// Radius of the outer aiming hexagon: it shrinks with the aiming time, but never
/// below one grid spacing.
pub open spec fn outer_radius(t: int) -> int {
    let s = aim_scaled(ANIMATION_RADIUS as int, t);
    if s > POINT_SPACING {
        s
    } else {
        POINT_SPACING as int
    }
}

/// Distance from the centre at which the cross-hair lines end: it shrinks with
/// the aiming time, but never below half a grid spacing.
pub open spec fn aim_reach(t: int) -> int {
    let s = aim_scaled(AIM_LINE_REACH as int, t);
    if s < POINT_SPACING / 2 {
        POINT_SPACING / 2
    } else {
        s
    }
}

/// The shrinking outer hexagon has come within half a grid spacing of the centre.
pub open spec fn collapsed(t: int) -> bool {
    ANIMATION_RADIUS * (AIMING_TIME - t) <= (POINT_SPACING / 2) * AIMING_TIME
}

/// The flashing inner hexagon shows: the outer one has collapsed, and `t` lies in
/// the second half of a flash cycle.
pub open spec fn flash_on(t: int) -> bool {
    collapsed(t) && t % (2 * INNER_HEX_FLASH_PERIOD) > INNER_HEX_FLASH_PERIOD
}

/// Size of a ring of the second phase that starts at `full` and settles linearly
/// to `RING_MIN_SIZE` over `PHASE2_AIMING_TIME`.
pub open spec fn settle(full: int, t: int) -> int {
    let since = t - PHASE2_START;
    if since >= PHASE2_AIMING_TIME {
        RING_MIN_SIZE as int
    } else {
        RING_MIN_SIZE + (full - RING_MIN_SIZE) * (PHASE2_AIMING_TIME - since) / (PHASE2_AIMING_TIME as int)
    }
}

/// The point a quarter-step `k` (of 4) of the way from `a` to `b`, rounded down.
pub open spec fn quarter(a: int, b: int, k: int) -> int {
    a + (b - a) * k / 4
}

pub open spec fn toward(p: Point, q: Point, k: int) -> Point {
    pt(quarter(p.x as int, q.x as int, k), quarter(p.y as int, q.y as int, k))
}

pub open spec fn hex(c: Point, r: int, paint: Paint) -> Hexagon {
    Hexagon { center: c, radius: r as i64, paint }
}

pub open spec fn aim_line(from: Point, to: Point) -> Shape {
    Shape::Line { paint: Paint::LightGreen, radius: AIMING_LINE_RADIUS, from, to }
}

/// The six short ticks on the edges of hexagon `h`: two running down from the top
/// corner, two running up from the bottom corner, each a quarter of an edge
/// long, and the middle half of the left and of the right edge.
pub open spec fn ticks(h: Hexagon) -> Seq<Shape> {
    let v0 = h.spec_corner(0);
    let v1 = h.spec_corner(1);
    let v2 = h.spec_corner(2);
    let v3 = h.spec_corner(3);
    let v4 = h.spec_corner(4);
    let v5 = h.spec_corner(5);
    seq![
        aim_line(v4, toward(v3, v4, 3)),
        aim_line(v4, toward(v5, v4, 3)),
        aim_line(v1, toward(v2, v1, 3)),
        aim_line(v1, toward(v0, v1, 3)),
        aim_line(
            pt(v2.x as int, quarter(v2.y as int, v3.y as int, 1)),
            pt(v2.x as int, quarter(v2.y as int, v3.y as int, 3)),
        ),
        aim_line(
            pt(v0.x as int, quarter(v0.y as int, v5.y as int, 1)),
            pt(v0.x as int, quarter(v0.y as int, v5.y as int, 3)),
        ),
    ]
}

/// The four cross-hair lines closing in on `c`, then the ticks on the hexagon that
/// they end on.
pub open spec fn aiming_lines(c: Point, t: int) -> Seq<Shape> {
    let r = AIM_LINE_REACH as int;
    let tc = aim_reach(t);
    seq![
        aim_line(pt(c.x - r, c.y as int), pt(c.x - tc, c.y as int)),
        aim_line(pt(c.x + r, c.y as int), pt(c.x + tc, c.y as int)),
        aim_line(pt(c.x as int, c.y - r), pt(c.x as int, c.y - tc)),
        aim_line(pt(c.x as int, c.y + r), pt(c.x as int, c.y + tc)),
    ] + ticks(hex(c, tc, Paint::LightGreen))
}

/// The three pairs of nested hexagon outlines of the second phase.
pub open spec fn ring_shapes(c: Point, t: int) -> Seq<Shape> {
    let a = settle(ANIMATION_RADIUS * 8 / 10, t);
    let b = settle(ANIMATION_RADIUS as int, t);
    let d = settle(ANIMATION_RADIUS * 12 / 10, t);
    hex(c, a * 9 / 10, Paint::RingLine).outline(AIMING_HEX_RADIUS) + hex(
        c,
        a * 11 / 10,
        Paint::RingLine,
    ).outline(AIMING_HEX_RADIUS) + hex(c, b, Paint::RingFill).outline(RING_FILL_RADIUS) + hex(
        c,
        b * 12 / 10,
        Paint::RingLine,
    ).outline(AIMING_HEX_RADIUS) + hex(c, d * 11 / 10, Paint::RingFillFar).outline(
        RING_FILL_RADIUS,
    ) + hex(c, d * 13 / 10, Paint::RingLine).outline(AIMING_HEX_RADIUS)
}

/// What the animation centred on `c` draws once `t` microseconds have passed:
/// until the end, the outer hexagon, the aiming lines and (while it flashes on)
/// the inner hexagon; strictly inside the second phase, the rings as well.
pub open spec fn frame(c: Point, t: int) -> Seq<Shape> {
    (if t < PHASE2_END {
        hex(c, outer_radius(t), Paint::LightGreen).outline(AIMING_HEX_RADIUS) + aiming_lines(c, t)
            + if flash_on(t) {
            hex(c, POINT_SPACING / 2, Paint::LightGreen).outline(AIMING_LINE_RADIUS)
        } else {
            Seq::empty()
        }
    } else {
        Seq::empty()
    }) + if PHASE2_START < t < PHASE2_END {
        ring_shapes(c, t)
    } else {
        Seq::empty()
    }
}

/// The timed placement effect of one stone.
#[derive(Clone, Copy, Debug, PartialEq, Eq, Structural)]
pub struct Animation {
    center: Point,
    elapsed_time: u64,
    finished: bool,
}

/// Sum of a sequence of frame deltas.
pub open spec fn total(ds: Seq<u64>) -> int
    decreases ds.len(),
{
    if ds.len() == 0 {
        0
    } else {
        total(ds.drop_last()) + ds.last()
    }
}

impl Animation {
    pub closed spec fn center(self) -> Point {
        self.center
    }

    pub closed spec fn elapsed(self) -> int {
        self.elapsed_time as int
    }

    pub closed spec fn finished(self) -> bool {
        self.finished
    }

    /// The animation has finished exactly when its time has reached the end, and
    /// its centre is one that the geometry can work with.
    pub closed spec fn wf(self) -> bool {
        &&& self.center.within(COORD_LIMIT as int)
        &&& self.finished == (self.elapsed_time >= PHASE2_END)
    }

    /// A fresh animation centred on `c`.
    pub closed spec fn started(c: Point) -> Animation {
        Animation { center: c, elapsed_time: 0, finished: false }
    }

    /// The animation after a frame of `delta` microseconds: time adds up (it stops
    /// at the largest `u64`), and it finishes once time reaches the end.
    pub closed spec fn advanced(self, delta: int) -> Animation {
        let t = if self.elapsed_time + delta > u64::MAX {
            u64::MAX as int
        } else {
            self.elapsed_time + delta
        };
        Animation { center: self.center, elapsed_time: t as u64, finished: self.finished || t >= PHASE2_END }
    }

    /// The animation after a run of frames.
    pub closed spec fn advanced_all(self, ds: Seq<u64>) -> Animation
        decreases ds.len(),
    {
        if ds.len() == 0 {
            self
        } else {
            self.advanced_all(ds.drop_last()).advanced(ds.last() as int)
        }
    }

    /// What the animation draws now.
    pub open spec fn spec_frame(self) -> Seq<Shape> {
        frame(self.center(), self.elapsed())
    }

    pub proof fn lemma_started(c: Point)
        ensures
            Animation::started(c).center() == c,
            Animation::started(c).elapsed() == 0,
            !Animation::started(c).finished(),
            c.within(COORD_LIMIT as int) ==> Animation::started(c).wf(),
    {
    }

    /// A well-formed animation has finished exactly when its time has reached
    /// the end, and its centre lies within `COORD_LIMIT`.
    pub proof fn lemma_wf(self)
        requires
            self.wf(),
        ensures
            self.finished() == (self.elapsed() >= PHASE2_END),
            self.center().within(COORD_LIMIT as int),
    {
    }

    pub proof fn lemma_advanced(self, delta: int)
        requires
            self.wf(),
            delta >= 0,
        ensures
            self.advanced(delta).wf(),
            self.advanced(delta).center() == self.center(),
            self.advanced(delta).elapsed() == if self.elapsed() + delta > u64::MAX {
                u64::MAX as int
            } else {
                self.elapsed() + delta
            },
            self.advanced(delta).finished() == (self.advanced(delta).elapsed() >= PHASE2_END),
    {
    }

    /// Starts an animation centred on `center`, at time zero and not finished.
    pub fn new(center: Point) -> (a: Animation)
        requires
            center.within(COORD_LIMIT as int),
        ensures
            a == Animation::started(center),
            a.wf(),
            a.center() == center,
            a.elapsed() == 0,
            !a.finished(),
    {
        Animation { center, elapsed_time: 0, finished: false }
    }

    /// Time since the animation started, in microseconds.
    pub fn elapsed_time(&self) -> (t: u64)
        ensures
            t == self.elapsed(),
    {
        self.elapsed_time
    }

    pub fn is_finished(&self) -> (b: bool)
        ensures
            b == self.finished(),
    {
        self.finished
    }

    /// Advances the animation by one frame of `delta` microseconds.
    pub fn update(&mut self, delta: u64)
        requires
            old(self).wf(),
        ensures
            *final(self) == old(self).advanced(delta as int),
            final(self).wf(),
            final(self).center() == old(self).center(),
            final(self).elapsed() == if old(self).elapsed() + delta > u64::MAX {
                u64::MAX as int
            } else {
                old(self).elapsed() + delta
            },
            final(self).finished() == (final(self).elapsed() >= PHASE2_END),
            old(self).finished() ==> final(self).finished(),
    {
        self.elapsed_time = self.elapsed_time.saturating_add(delta);
        if self.elapsed_time >= PHASE2_END as u64 {
            self.finished = true;
        }
    }

    /// Appends what the animation draws now to a draw list.
    pub fn draw(&self, out: &mut Vec<Shape>)
        requires
            self.wf(),
        ensures
            final(out)@ == old(out)@ + self.spec_frame(),
    {
        let ghost start = out@;
        let et = self.elapsed_time;
        let ghost t = et as int;
        if et < PHASE2_END as u64 {
            let t = et as i64;
            self.draw_outer_hexagon(t, out);
            self.draw_aiming_lines(t, out);
            self.draw_inner_hexagon(t, out);
        }
        if (PHASE2_START as u64) < et && et < PHASE2_END as u64 {
            self.draw_transparent_hex(et as i64, out);
        }
        assert(out@ =~= start + frame(self.center, t));
    }

    fn draw_outer_hexagon(&self, t: i64, out: &mut Vec<Shape>)
        requires
            self.wf(),
            0 <= t < PHASE2_END,
        ensures
            final(out)@ == old(out)@ + hex(self.center, outer_radius(t as int), Paint::LightGreen).outline(
                AIMING_HEX_RADIUS,
            ),
    {
        let scaled = scale_by_aiming(ANIMATION_RADIUS, t);
        let radius = if scaled > POINT_SPACING {
            scaled
        } else {
            POINT_SPACING
        };
        let h = Hexagon::new(self.center, radius, Paint::LightGreen);
        h.draw_lined(AIMING_HEX_RADIUS, out);
    }

    fn draw_aiming_lines(&self, t: i64, out: &mut Vec<Shape>)
        requires
            self.wf(),
            0 <= t < PHASE2_END,
        ensures
            final(out)@ == old(out)@ + aiming_lines(self.center, t as int),
    {
        let ghost start = out@;
        let c = self.center;
        let r = AIM_LINE_REACH;
        let scaled = scale_by_aiming(AIM_LINE_REACH, t);
        let tc = if scaled < AIM_LINE_MIN {
            AIM_LINE_MIN
        } else {
            scaled
        };
        out.push(line(Point { x: c.x - r, y: c.y }, Point { x: c.x - tc, y: c.y }));
        out.push(line(Point { x: c.x + r, y: c.y }, Point { x: c.x + tc, y: c.y }));
        out.push(line(Point { x: c.x, y: c.y - r }, Point { x: c.x, y: c.y - tc }));
        out.push(line(Point { x: c.x, y: c.y + r }, Point { x: c.x, y: c.y + tc }));
        let h = Hexagon::new(c, tc, Paint::LightGreen);
        let v0 = h.corner(0);
        let v1 = h.corner(1);
        let v2 = h.corner(2);
        let v3 = h.corner(3);
        let v4 = h.corner(4);
        let v5 = h.corner(5);
        out.push(line(v4, toward_exec(v3, v4, 3)));
        out.push(line(v4, toward_exec(v5, v4, 3)));
        out.push(line(v1, toward_exec(v2, v1, 3)));
        out.push(line(v1, toward_exec(v0, v1, 3)));
        out.push(
            line(
                Point { x: v2.x, y: quarter_exec(v2.y, v3.y, 1) },
                Point { x: v2.x, y: quarter_exec(v2.y, v3.y, 3) },
            ),
        );
        out.push(
            line(
                Point { x: v0.x, y: quarter_exec(v0.y, v5.y, 1) },
                Point { x: v0.x, y: quarter_exec(v0.y, v5.y, 3) },
            ),
        );
        assert(out@ =~= start + aiming_lines(self.center, t as int));
    }

    fn draw_inner_hexagon(&self, t: i64, out: &mut Vec<Shape>)
        requires
            self.wf(),
            0 <= t < PHASE2_END,
        ensures
            final(out)@ == old(out)@ + if flash_on(t as int) {
                hex(self.center, POINT_SPACING / 2, Paint::LightGreen).outline(AIMING_LINE_RADIUS)
            } else {
                Seq::empty()
            },
    {
        if ANIMATION_RADIUS * (AIMING_TIME - t) <= (POINT_SPACING / 2) * AIMING_TIME {
            if t % (2 * INNER_HEX_FLASH_PERIOD) > INNER_HEX_FLASH_PERIOD {
                let h = Hexagon::new(self.center, POINT_SPACING / 2, Paint::LightGreen);
                h.draw_lined(AIMING_LINE_RADIUS, out);
                return ;
            }
        }
        assert(out@ =~= old(out)@ + Seq::<Shape>::empty());
    }

    fn draw_transparent_hex(&self, t: i64, out: &mut Vec<Shape>)
        requires
            self.wf(),
            PHASE2_START < t < PHASE2_END,
        ensures
            final(out)@ == old(out)@ + ring_shapes(self.center, t as int),
    {
        let ghost start = out@;
        let c = self.center;
        let a = settle_exec(ANIMATION_RADIUS * 8 / 10, t);
        Hexagon::new(c, a * 9 / 10, Paint::RingLine).draw_lined(AIMING_HEX_RADIUS, out);
        Hexagon::new(c, a * 11 / 10, Paint::RingLine).draw_lined(AIMING_HEX_RADIUS, out);
        let b = settle_exec(ANIMATION_RADIUS, t);
        Hexagon::new(c, b, Paint::RingFill).draw_lined(RING_FILL_RADIUS, out);
        Hexagon::new(c, b * 12 / 10, Paint::RingLine).draw_lined(AIMING_HEX_RADIUS, out);
        let d = settle_exec(ANIMATION_RADIUS * 12 / 10, t);
        Hexagon::new(c, d * 11 / 10, Paint::RingFillFar).draw_lined(RING_FILL_RADIUS, out);
        Hexagon::new(c, d * 13 / 10, Paint::RingLine).draw_lined(AIMING_HEX_RADIUS, out);
        assert(out@ =~= start + ring_shapes(self.center, t as int));
    }
}

fn line(from: Point, to: Point) -> (s: Shape)
    ensures
        s == aim_line(from, to),
{
    Shape::Line { paint: Paint::LightGreen, radius: AIMING_LINE_RADIUS, from, to }
}

/// `len` scaled by the share of the aiming time left at `t` (see `aim_scaled`).
fn scale_by_aiming(len: i64, t: i64) -> (r: i64)
    requires
        0 <= len <= ANIMATION_RADIUS,
        0 <= t,
    ensures
        r == aim_scaled(len as int, t as int),
        0 <= r <= len,
{
    if t >= AIMING_TIME {
        0
    } else {
        assert(0 <= len * (AIMING_TIME - t) <= len * AIMING_TIME) by (nonlinear_arith)
            requires
                0 <= len <= ANIMATION_RADIUS,
                0 <= t < AIMING_TIME,
        ;
        len * (AIMING_TIME - t) / AIMING_TIME
    }
}

/// The size of a second-phase ring at `t` (see `settle`).
fn settle_exec(full: i64, t: i64) -> (r: i64)
    requires
        RING_MIN_SIZE <= full <= ANIMATION_RADIUS * 12 / 10,
        PHASE2_START < t,
    ensures
        r == settle(full as int, t as int),
        RING_MIN_SIZE <= r <= full,
{
    let since = t - PHASE2_START;
    if since >= PHASE2_AIMING_TIME {
        RING_MIN_SIZE
    } else {
        let k = full - RING_MIN_SIZE;
        assert(0 <= k * (PHASE2_AIMING_TIME - since) <= k * PHASE2_AIMING_TIME) by (nonlinear_arith)
            requires
                0 <= k <= ANIMATION_RADIUS * 12 / 10,
                0 <= since < PHASE2_AIMING_TIME,
        ;
        RING_MIN_SIZE + k * (PHASE2_AIMING_TIME - since) / PHASE2_AIMING_TIME
    }
}

/// `a + (b - a) * k / 4`, with the division rounding down (see `quarter`).
fn quarter_exec(a: i64, b: i64, k: i64) -> (r: i64)
    requires
        -2 * COORD_LIMIT <= a <= 2 * COORD_LIMIT,
        -2 * COORD_LIMIT <= b <= 2 * COORD_LIMIT,
        0 <= k <= 4,
    ensures
        r == quarter(a as int, b as int, k as int),
{
    assert(-16 * COORD_LIMIT <= (b - a) * k <= 16 * COORD_LIMIT) by (nonlinear_arith)
        requires
            -4 * COORD_LIMIT <= b - a <= 4 * COORD_LIMIT,
            0 <= k <= 4,
    ;
    let d = (b - a) * k;
    let q = if d >= 0 {
        d / 4
    } else {
        let m = -d;
        let q = -((m + 3) / 4);
        proof {
            let r = d - q * 4;
            assert(0 <= r < 4);
            lemma_fundamental_div_mod_converse(d as int, 4, q as int, r);
        }
        q
    };
    a + q
}

fn toward_exec(p: Point, q: Point, k: i64) -> (r: Point)
    requires
        p.within(2 * COORD_LIMIT),
        q.within(2 * COORD_LIMIT),
        0 <= k <= 4,
    ensures
        r == toward(p, q, k as int),
{
    Point { x: quarter_exec(p.x, q.x, k), y: quarter_exec(p.y, q.y, k) }
}

/// Once finished, an animation stays finished through any run of frames.
pub proof fn law_finished_stays_finished(a: Animation, ds: Seq<u64>)
    requires
        a.wf(),
        a.finished(),
    ensures
        a.advanced_all(ds).finished(),
    decreases ds.len(),
{
    if ds.len() > 0 {
        law_finished_stays_finished(a, ds.drop_last());
    }
}

/// After a run of frames, the time of an animation is its time before plus the
/// sum of the frames (stopping at the largest `u64`), and its centre is unchanged.
pub proof fn lemma_advanced_all(a: Animation, ds: Seq<u64>)
    requires
        a.wf(),
    ensures
        a.advanced_all(ds).wf(),
        a.advanced_all(ds).center() == a.center(),
        a.advanced_all(ds).elapsed() == if a.elapsed() + total(ds) > u64::MAX {
            u64::MAX as int
        } else {
            a.elapsed() + total(ds)
        },
    decreases ds.len(),
{
    if ds.len() > 0 {
        lemma_advanced_all(a, ds.drop_last());
    }
}

/// What an animation draws depends on its centre and its time alone: two
/// animations with the same centre, run through any two sequences of frames that
/// bring them to the same time, draw the same shapes.
pub proof fn law_frame_depends_on_time_only(a: Animation, b: Animation, da: Seq<u64>, db: Seq<u64>)
    requires
        a.wf(),
        b.wf(),
        a.center() == b.center(),
        a.elapsed() + total(da) == b.elapsed() + total(db),
    ensures
        a.advanced_all(da).spec_frame() == b.advanced_all(db).spec_frame(),
{
    lemma_advanced_all(a, da);
    lemma_advanced_all(b, db);
}

/// Advancing by two frames in turn is advancing once by their sum.
pub proof fn law_advance_splits(a: Animation, d1: u64, d2: u64)
    requires
        a.wf(),
    ensures
        a.advanced(d1 as int).advanced(d2 as int) == a.advanced(d1 + d2),
{
}

} // verus!
