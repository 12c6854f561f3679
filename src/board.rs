use vstd::prelude::*;

use crate::geometry::{pt, Paint, Point, Shape};
use crate::mapper::{grid_offset, lemma_locate_far, locate, spec_locate};
use crate::settings::{
    BORDER_GAP, BORDER_RADIUS, OUTER_BORDER_RADIUS, LINE_LENGTH, LINE_RADIUS, NUM_OF_POINTS, ORIGIN_LIMIT, POINT_SPACING,
    SHADOW_OFFSET, STAR_POINT_RADIUS,
};
use crate::stone::{Stone, StoneType, STONE_LIMIT};

verus! {

/// Number of intersections on the board.
pub const NUM_OF_CELLS: usize = 361;

/// Position of intersection `(i, j)` in the row-major list of cells.
pub open spec fn cell_index(i: int, j: int) -> int {
    i * NUM_OF_POINTS + j
}

/// Screen position of intersection `(i, j)` of a board whose first intersection is at `o`.
pub open spec fn canonical(o: Point, i: int, j: int) -> Point {
    pt(o.x + i * POINT_SPACING, o.y + j * POINT_SPACING)
}

/// The intersection that a pointer at `(x, y)` resolves to on a board at `o`.
pub open spec fn target(o: Point, x: int, y: int) -> Option<(int, int)> {
    spec_locate(x - o.x, y - o.y)
}

/// A stone can go where a pointer at `(x, y)` is: it resolves to an intersection,
/// and that one is empty.
pub open spec fn placeable(o: Point, cells: Seq<Option<Stone>>, x: int, y: int) -> bool {
    match target(o, x, y) {
        Some((i, j)) => cells[cell_index(i, j)] is None,
        None => false,
    }
}

/// The cells after a placement of a `kind` stone at a pointer at `(x, y)`: where it is
/// placeable, a fresh stone at the intersection's own screen position; else no change.
pub open spec fn place_model(
    o: Point,
    cells: Seq<Option<Stone>>,
    x: int,
    y: int,
    kind: StoneType,
) -> Seq<Option<Stone>> {
    match target(o, x, y) {
        Some((i, j)) => if cells[cell_index(i, j)] is None {
            cells.update(cell_index(i, j), Some(Stone::fresh(kind, canonical(o, i, j))))
        } else {
            cells
        },
        None => cells,
    }
}

/// Every stone after one frame of `delta` microseconds.
pub open spec fn update_model(cells: Seq<Option<Stone>>, delta: int) -> Seq<Option<Stone>> {
    cells.map_values(
        |c: Option<Stone>|
            match c {
                Some(s) => Some(s.updated(delta)),
                None => None,
            },
    )
}

pub proof fn lemma_cell_index(i: int, j: int)
    requires
        0 <= i < NUM_OF_POINTS,
        0 <= j < NUM_OF_POINTS,
    ensures
        0 <= cell_index(i, j) < NUM_OF_CELLS,
        cell_index(i, j) / (NUM_OF_POINTS as int) == i,
        cell_index(i, j) % (NUM_OF_POINTS as int) == j,
{
    vstd::arithmetic::div_mod::lemma_fundamental_div_mod_converse(
        cell_index(i, j),
        NUM_OF_POINTS as int,
        i,
        j,
    );
}

pub proof fn lemma_cell_index_injective(i: int, j: int, i2: int, j2: int)
    requires
        0 <= i < NUM_OF_POINTS,
        0 <= j < NUM_OF_POINTS,
        0 <= i2 < NUM_OF_POINTS,
        0 <= j2 < NUM_OF_POINTS,
    ensures
        cell_index(i, j) == cell_index(i2, j2) <==> (i == i2 && j == j2),
{
    lemma_cell_index(i, j);
    lemma_cell_index(i2, j2);
}

/// Line `k` of the grid moved `offset` right and down: lines 0 to 18 are the
/// vertical ones from left to right, lines 19 to 37 the horizontal ones from top
/// to bottom.
pub open spec fn grid_line(o: Point, k: int, offset: int, paint: Paint) -> Shape {
    if k < NUM_OF_POINTS {
        let x = o.x + offset + k * POINT_SPACING;
        let y = o.y + offset;
        Shape::Line { paint, radius: LINE_RADIUS, from: pt(x, y), to: pt(x, y + LINE_LENGTH) }
    } else {
        let x = o.x + offset;
        let y = o.y + offset + (k - NUM_OF_POINTS) * POINT_SPACING;
        Shape::Line { paint, radius: LINE_RADIUS, from: pt(x, y), to: pt(x + LINE_LENGTH, y) }
    }
}

/// All the lines of the grid, moved `offset` right and down.
pub open spec fn grid_lines(o: Point, offset: int, paint: Paint) -> Seq<Shape> {
    Seq::new(2 * NUM_OF_POINTS as nat, |k: int| grid_line(o, k, offset, paint))
}

/// Star point `k` of nine: on lines 3, 9 and 15 of each direction, row by row.
pub open spec fn star_point(o: Point, k: int) -> Shape {
    let px = 3 + 6 * (k % 3);
    let py = 3 + 6 * (k / 3);
    Shape::Ellipse {
        paint: Paint::Line,
        corner: pt(
            o.x + px * POINT_SPACING - STAR_POINT_RADIUS / 2,
            o.y + py * POINT_SPACING - STAR_POINT_RADIUS / 2,
        ),
        width: STAR_POINT_RADIUS,
        height: STAR_POINT_RADIUS,
    }
}

pub open spec fn star_points(o: Point) -> Seq<Shape> {
    Seq::new(9, |k: int| star_point(o, k))
}

/// The four sides of a border `BORDER_GAP` outside the grid, drawn `rad` wide:
/// left, top, right, bottom, each reaching `rad` past the corners.
pub open spec fn border_pass(o: Point, rad: i64, paint: Paint) -> Seq<Shape> {
    let l = o.x - BORDER_GAP;
    let u = o.y - BORDER_GAP;
    let r = o.x + LINE_LENGTH + BORDER_GAP;
    let b = o.y + LINE_LENGTH + BORDER_GAP;
    seq![
        Shape::Line { paint, radius: rad, from: pt(l, u - rad), to: pt(l, b + rad) },
        Shape::Line { paint, radius: rad, from: pt(l - rad, u), to: pt(r + rad, u) },
        Shape::Line { paint, radius: rad, from: pt(r, u - rad), to: pt(r, b + rad) },
        Shape::Line { paint, radius: rad, from: pt(l - rad, b), to: pt(r + rad, b) },
    ]
}

/// The double border: a wide outer outline, then a narrower inner one over it.
pub open spec fn borders(o: Point) -> Seq<Shape> {
    border_pass(o, OUTER_BORDER_RADIUS, Paint::OuterBorder) + border_pass(
        o,
        BORDER_RADIUS,
        Paint::InnerBorder,
    )
}

/// What one cell draws in the shadow layer, or in the stone layer.
pub open spec fn cell_shapes(c: Option<Stone>, shadow: bool) -> Seq<Shape> {
    match c {
        Some(s) => if shadow {
            s.shadow_shapes()
        } else {
            s.shapes()
        },
        None => Seq::empty(),
    }
}

/// What the first `k` cells draw in one layer, in row-major order.
pub open spec fn cell_layer(cells: Seq<Option<Stone>>, k: nat, shadow: bool) -> Seq<Shape>
    decreases k,
{
    if k == 0 {
        Seq::empty()
    } else {
        cell_layer(cells, (k - 1) as nat, shadow) + cell_shapes(cells[k - 1], shadow)
    }
}

/// A whole frame of the board, back to front: the shadows of the grid lines, the
/// shadows of the stones, the grid lines, the border, the star points, the stones.
pub open spec fn board_frame(o: Point, cells: Seq<Option<Stone>>) -> Seq<Shape> {
    grid_lines(o, SHADOW_OFFSET as int, Paint::Shadow) + cell_layer(cells, NUM_OF_CELLS as nat, true)
        + grid_lines(o, 0, Paint::Line) + borders(o) + star_points(o) + cell_layer(
        cells,
        NUM_OF_CELLS as nat,
        false,
    )
}

/// A stone on intersection `(i, j)` of a board at `o` is well formed and centred
/// on that intersection.
pub open spec fn cell_ok(c: Option<Stone>, o: Point, i: int, j: int) -> bool {
    match c {
        Some(s) => s.wf() && s.center() == canonical(o, i, j),
        None => true,
    }
}

/// The grid of a board: its origin and, for each intersection in row-major order,
/// the stone on it if any.
pub struct Board {
    position: Point,
    stones: Vec<Option<Stone>>,
}

impl Board {
    /// Screen position of intersection `(0, 0)`.
    pub closed spec fn origin(self) -> Point {
        self.position
    }

    /// The cells in row-major order: `(i, j)` is at `cell_index(i, j)`.
    pub closed spec fn cells(self) -> Seq<Option<Stone>> {
        self.stones@
    }

    pub open spec fn cell(self, i: int, j: int) -> Option<Stone> {
        self.cells()[cell_index(i, j)]
    }

    /// One cell per intersection, and each stone well formed and centred on its
    /// own intersection.
    pub closed spec fn wf(self) -> bool {
        &&& self.position.within(ORIGIN_LIMIT as int)
        &&& self.stones@.len() == NUM_OF_CELLS
        &&& forall|i: int, j: int|
            0 <= i < NUM_OF_POINTS && 0 <= j < NUM_OF_POINTS
                ==> cell_ok(#[trigger] self.stones@[cell_index(i, j)], self.position, i, j)
    }

    /// What a well-formed board holds: its origin within `ORIGIN_LIMIT`, one cell
    /// per intersection, and on each intersection at most a well-formed stone
    /// centred on it.
    pub proof fn lemma_wf(self)
        requires
            self.wf(),
        ensures
            self.origin().within(ORIGIN_LIMIT as int),
            self.cells().len() == NUM_OF_CELLS,
            forall|i: int, j: int|
                0 <= i < NUM_OF_POINTS && 0 <= j < NUM_OF_POINTS ==> cell_ok(
                    #[trigger] self.cell(i, j),
                    self.origin(),
                    i,
                    j,
                ),
    {
    }

    /// An empty board whose intersection `(0, 0)` is at `(pos_x, pos_y)`.
    pub fn new(pos_x: i64, pos_y: i64) -> (b: Board)
        requires
            pt(pos_x as int, pos_y as int).within(ORIGIN_LIMIT as int),
        ensures
            b.wf(),
            b.origin() == (Point { x: pos_x, y: pos_y }),
            b.cells() == Seq::new(NUM_OF_CELLS as nat, |k: int| None::<Stone>),
    {
        let mut stones: Vec<Option<Stone>> = Vec::new();
        for k in 0..NUM_OF_CELLS
            invariant
                stones@ == Seq::new(k as nat, |k: int| None::<Stone>),
        {
            stones.push(None);
        }
        Board { position: Point { x: pos_x, y: pos_y }, stones }
    }

    /// The stone on intersection `(point_x, point_y)`, if any.
    pub fn get(&self, point_x: usize, point_y: usize) -> (s: Option<Stone>)
        requires
            self.wf(),
            point_x < NUM_OF_POINTS,
            point_y < NUM_OF_POINTS,
        ensures
            s == self.cell(point_x as int, point_y as int),
            cell_ok(s, self.origin(), point_x as int, point_y as int),
    {
        self.stones[point_x * NUM_OF_POINTS + point_y]
    }

    /// The intersection that a pointer at `(pos_x, pos_y)` resolves to.
    fn target(&self, pos_x: i64, pos_y: i64) -> (r: Option<(usize, usize)>)
        requires
            self.wf(),
        ensures
            match r {
                Some((i, j)) => target(self.origin(), pos_x as int, pos_y as int) == Some(
                    (i as int, j as int),
                ),
                None => target(self.origin(), pos_x as int, pos_y as int) is None,
            },
    {
        let rel_x = pos_x.checked_sub(self.position.x);
        let rel_y = pos_y.checked_sub(self.position.y);
        match (rel_x, rel_y) {
            (Some(rx), Some(ry)) => locate(rx, ry),
            _ => {
                proof {
                    lemma_locate_far(pos_x - self.position.x, pos_y - self.position.y);
                }
                None
            },
        }
    }

    /// Whether a stone can go where a pointer at `(pos_x, pos_y)` is.
    pub fn is_placeable(&self, pos_x: i64, pos_y: i64) -> (b: bool)
        requires
            self.wf(),
        ensures
            b == placeable(self.origin(), self.cells(), pos_x as int, pos_y as int),
    {
        if let Some((px, py)) = self.target(pos_x, pos_y) {
            self.stones[px * NUM_OF_POINTS + py].is_none()
        } else {
            false
        }
    }

    /// Places a `stone_type` stone on the intersection that a pointer at
    /// `(pos_x, pos_y)` resolves to, centred on the intersection itself; does
    /// nothing where that is no intersection or an occupied one.
    pub fn place_a_stone(&mut self, pos_x: i64, pos_y: i64, stone_type: StoneType)
        requires
            old(self).wf(),
        ensures
            final(self).wf(),
            final(self).origin() == old(self).origin(),
            final(self).cells().len() == NUM_OF_CELLS,
            final(self).cells() == place_model(
                old(self).origin(),
                old(self).cells(),
                pos_x as int,
                pos_y as int,
                stone_type,
            ),
    {
        if let Some((px, py)) = self.target(pos_x, pos_y) {
            let k = px * NUM_OF_POINTS + py;
            if self.stones[k].is_none() {
                let (off_x, off_y) = grid_offset(px, py);
                let cx = off_x + self.position.x;
                let cy = off_y + self.position.y;
                let stone = Stone::new(cx, cy, stone_type);
                proof {
                    Stone::lemma_fresh(
                        stone_type,
                        Point { x: cx, y: cy },
                    );
                }
                assert(stone.center() == canonical(self.position, px as int, py as int));
                self.stones.set(k, Some(stone));
                assert forall|i: int, j: int|
                    0 <= i < NUM_OF_POINTS && 0 <= j < NUM_OF_POINTS implies cell_ok(
                        #[trigger] self.stones@[cell_index(i, j)],
                        self.position,
                        i,
                        j,
                    ) by {
                    lemma_cell_index(i, j);
                    lemma_cell_index(px as int, py as int);
                    lemma_cell_index_injective(i, j, px as int, py as int);
                    if i != px || j != py {
                        assert(cell_ok(old(self).stones@[cell_index(i, j)], self.position, i, j));
                    }
                }
            }
        }
    }

    /// Appends a whole frame of the board to a draw list.
    pub fn draw(&self, out: &mut Vec<Shape>)
        requires
            self.wf(),
        ensures
            final(out)@ == old(out)@ + board_frame(self.origin(), self.cells()),
    {
        let ghost start = out@;
        self.draw_line_shadows(out);
        self.draw_cells(true, out);
        self.draw_lines(out);
        self.draw_borders(out);
        self.draw_star_points(out);
        self.draw_cells(false, out);
        assert(out@ =~= start + board_frame(self.position, self.stones@));
    }

    /// Appends one layer of every cell, in row-major order.
    fn draw_cells(&self, shadow: bool, out: &mut Vec<Shape>)
        requires
            self.wf(),
        ensures
            final(out)@ == old(out)@ + cell_layer(self.cells(), NUM_OF_CELLS as nat, shadow),
    {
        let ghost start = out@;
        for k in 0..NUM_OF_CELLS
            invariant
                self.wf(),
                out@ == start + cell_layer(self.stones@, k as nat, shadow),
        {
            let ghost before = out@;
            proof {
                let i = k as int / NUM_OF_POINTS as int;
                let j = k as int % NUM_OF_POINTS as int;
                assert(k == cell_index(i, j));
                assert(cell_ok(self.stones@[cell_index(i, j)], self.position, i, j));
            }
            match &self.stones[k] {
                Some(stone) => {
                    if shadow {
                        stone.draw_shadow(out);
                    } else {
                        stone.draw(out);
                    }
                },
                None => {},
            }
            assert(out@ =~= before + cell_shapes(self.stones@[k as int], shadow));
            assert(cell_layer(self.stones@, (k + 1) as nat, shadow) == cell_layer(
                self.stones@,
                k as nat,
                shadow,
            ) + cell_shapes(self.stones@[k as int], shadow));
            assert(out@ =~= start + cell_layer(self.stones@, (k + 1) as nat, shadow));
        }
    }

    /// Appends the grid moved `offset` right and down.
    fn draw_grid(&self, offset: i64, paint: Paint, out: &mut Vec<Shape>)
        requires
            self.wf(),
            0 <= offset <= SHADOW_OFFSET,
        ensures
            final(out)@ == old(out)@ + grid_lines(self.origin(), offset as int, paint),
    {
        let ghost start = out@;
        let ghost lines = grid_lines(self.position, offset as int, paint);
        let base_x = self.position.x + offset;
        let base_y = self.position.y + offset;
        for i in 0..NUM_OF_POINTS
            invariant
                self.wf(),
                0 <= offset <= SHADOW_OFFSET,
                base_x == self.position.x + offset,
                base_y == self.position.y + offset,
                lines == grid_lines(self.position, offset as int, paint),
                out@ == start + lines.take(i as int),
        {
            let start_x = base_x + (i as i64) * POINT_SPACING;
            out.push(
                Shape::Line {
                    paint,
                    radius: LINE_RADIUS,
                    from: Point { x: start_x, y: base_y },
                    to: Point { x: start_x, y: base_y + LINE_LENGTH },
                },
            );
            assert(lines.take(i + 1) =~= lines.take(i as int).push(lines[i as int]));
        }
        for i in 0..NUM_OF_POINTS
            invariant
                self.wf(),
                0 <= offset <= SHADOW_OFFSET,
                base_x == self.position.x + offset,
                base_y == self.position.y + offset,
                lines == grid_lines(self.position, offset as int, paint),
                out@ == start + lines.take(NUM_OF_POINTS + i),
        {
            let start_y = base_y + (i as i64) * POINT_SPACING;
            out.push(
                Shape::Line {
                    paint,
                    radius: LINE_RADIUS,
                    from: Point { x: base_x, y: start_y },
                    to: Point { x: base_x + LINE_LENGTH, y: start_y },
                },
            );
            assert(lines.take(NUM_OF_POINTS + i + 1) =~= lines.take(NUM_OF_POINTS + i).push(
                lines[NUM_OF_POINTS + i],
            ));
        }
        assert(lines.take(2 * NUM_OF_POINTS) =~= lines);
    }

    /// Appends the shadows of the grid lines.
    fn draw_line_shadows(&self, out: &mut Vec<Shape>)
        requires
            self.wf(),
        ensures
            final(out)@ == old(out)@ + grid_lines(self.origin(), SHADOW_OFFSET as int, Paint::Shadow),
    {
        self.draw_grid(SHADOW_OFFSET, Paint::Shadow, out);
    }

    /// Appends the grid lines.
    fn draw_lines(&self, out: &mut Vec<Shape>)
        requires
            self.wf(),
        ensures
            final(out)@ == old(out)@ + grid_lines(self.origin(), 0, Paint::Line),
    {
        self.draw_grid(0, Paint::Line, out);
    }

    /// Appends the nine star-point markers.
    fn draw_star_points(&self, out: &mut Vec<Shape>)
        requires
            self.wf(),
        ensures
            final(out)@ == old(out)@ + star_points(self.origin()),
    {
        let ghost start = out@;
        let ghost points = star_points(self.position);
        for k in 0..9
            invariant
                self.wf(),
                points == star_points(self.position),
                out@ == start + points.take(k as int),
        {
            let px: i64 = 3 + 6 * (k % 3) as i64;
            let py: i64 = 3 + 6 * (k / 3) as i64;
            out.push(
                Shape::Ellipse {
                    paint: Paint::Line,
                    corner: Point {
                        x: self.position.x + px * POINT_SPACING - STAR_POINT_RADIUS / 2,
                        y: self.position.y + py * POINT_SPACING - STAR_POINT_RADIUS / 2,
                    },
                    width: STAR_POINT_RADIUS,
                    height: STAR_POINT_RADIUS,
                },
            );
            assert(points.take(k + 1) =~= points.take(k as int).push(points[k as int]));
        }
        assert(points.take(9) =~= points);
    }

    /// Appends the double border around the grid.
    fn draw_borders(&self, out: &mut Vec<Shape>)
        requires
            self.wf(),
        ensures
            final(out)@ == old(out)@ + borders(self.origin()),
    {
        let ghost start = out@;
        let left = self.position.x - BORDER_GAP;
        let upper = self.position.y - BORDER_GAP;
        let right = self.position.x + LINE_LENGTH + BORDER_GAP;
        let lower = self.position.y + LINE_LENGTH + BORDER_GAP;
        let passes = [(OUTER_BORDER_RADIUS, Paint::OuterBorder), (BORDER_RADIUS, Paint::InnerBorder)];
        for n in 0..2
            invariant
                self.wf(),
                left == self.position.x - BORDER_GAP,
                upper == self.position.y - BORDER_GAP,
                right == self.position.x + LINE_LENGTH + BORDER_GAP,
                lower == self.position.y + LINE_LENGTH + BORDER_GAP,
                passes@ == seq![(OUTER_BORDER_RADIUS, Paint::OuterBorder), (BORDER_RADIUS, Paint::InnerBorder)],
                n == 0 ==> out@ == start,
                n == 1 ==> out@ == start + border_pass(self.position, OUTER_BORDER_RADIUS, Paint::OuterBorder),
                n == 2 ==> out@ == start + borders(self.position),
        {
            let (rad, paint) = passes[n];
            let ghost before = out@;
            out.push(line(paint, rad, left, upper - rad, left, lower + rad));
            out.push(line(paint, rad, left - rad, upper, right + rad, upper));
            out.push(line(paint, rad, right, upper - rad, right, lower + rad));
            out.push(line(paint, rad, left - rad, lower, right + rad, lower));
            assert(out@ =~= before + border_pass(self.position, rad, paint));
            assert(n == 1 ==> out@ =~= start + borders(self.position));
        }
    }

    /// Advances every stone's animation by one frame of `delta` microseconds.
    pub fn update(&mut self, delta: u64)
        requires
            old(self).wf(),
        ensures
            final(self).wf(),
            final(self).origin() == old(self).origin(),
            final(self).cells().len() == NUM_OF_CELLS,
            final(self).cells() == update_model(old(self).cells(), delta as int),
    {
        let ghost start = self.stones@;
        let ghost goal = update_model(start, delta as int);
        for k in 0..NUM_OF_CELLS
            invariant
                self.wf(),
                self.position == old(self).position,
                start == old(self).stones@,
                goal == update_model(start, delta as int),
                start.len() == NUM_OF_CELLS,
                forall|m: int| 0 <= m < k ==> self.stones@[m] == goal[m],
                forall|m: int| k <= m < NUM_OF_CELLS ==> self.stones@[m] == start[m],
        {
            if let Some(mut s) = self.stones[k] {
                proof {
                    let i = k as int / NUM_OF_POINTS as int;
                    let j = k as int % NUM_OF_POINTS as int;
                    assert(k == cell_index(i, j));
                    s.lemma_updated(delta as int);
                }
                s.update(delta);
                self.stones.set(k, Some(s));
                assert forall|i: int, j: int|
                    0 <= i < NUM_OF_POINTS && 0 <= j < NUM_OF_POINTS implies cell_ok(
                        #[trigger] self.stones@[cell_index(i, j)],
                        self.position,
                        i,
                        j,
                    ) by {
                    if cell_index(i, j) == k {
                        assert(old(self).stones@[cell_index(i, j)] == start[k as int]);
                    }
                }
            }
        }
        assert(self.stones@ =~= goal);
    }
}

fn line(paint: Paint, radius: i64, x1: i64, y1: i64, x2: i64, y2: i64) -> (s: Shape)
    ensures
        s == (Shape::Line { paint, radius, from: Point { x: x1, y: y1 }, to: Point { x: x2, y: y2 } }),
{
    Shape::Line { paint, radius, from: Point { x: x1, y: y1 }, to: Point { x: x2, y: y2 } }
}

/// Placing a second time, with any colour, at any pointer that resolves to the
/// same intersection as a first placement, leaves the board as the first
/// placement left it: the first stone stays.
pub proof fn law_place_occupied_is_noop(
    o: Point,
    cells: Seq<Option<Stone>>,
    x1: int,
    y1: int,
    k1: StoneType,
    x2: int,
    y2: int,
    k2: StoneType,
)
    requires
        cells.len() == NUM_OF_CELLS,
        target(o, x1, y1) is Some,
        target(o, x2, y2) == target(o, x1, y1),
    ensures
        place_model(o, place_model(o, cells, x1, y1, k1), x2, y2, k2) == place_model(
            o,
            cells,
            x1,
            y1,
            k1,
        ),
        !placeable(o, place_model(o, cells, x1, y1, k1), x2, y2),
{
    let (i, j) = target(o, x1, y1).unwrap();
    assert(0 <= cell_index(i, j) < NUM_OF_CELLS) by (nonlinear_arith)
        requires
            0 <= i < NUM_OF_POINTS,
            0 <= j < NUM_OF_POINTS,
    ;
}

/// A placement changes the board exactly where `is_placeable` holds: no stone
/// goes down where it is false, and one does wherever it is true.
pub proof fn law_placeable_iff_placed(
    o: Point,
    cells: Seq<Option<Stone>>,
    x: int,
    y: int,
    kind: StoneType,
)
    requires
        cells.len() == NUM_OF_CELLS,
    ensures
        placeable(o, cells, x, y) <==> place_model(o, cells, x, y, kind) != cells,
{
    if let Some((i, j)) = target(o, x, y) {
        assert(0 <= cell_index(i, j) < NUM_OF_CELLS) by (nonlinear_arith)
            requires
                0 <= i < NUM_OF_POINTS,
                0 <= j < NUM_OF_POINTS,
        ;
        if placeable(o, cells, x, y) {
            assert(place_model(o, cells, x, y, kind)[cell_index(i, j)] is Some);
        }
    }
}

} // verus!
