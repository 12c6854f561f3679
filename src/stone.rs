use vstd::prelude::*;

use crate::animation::{hex, Animation, PHASE2_END};
use crate::geometry::{pt, Hexagon, Paint, Point, Shape};
use crate::settings::{COORD_LIMIT, SHADOW_OFFSET, STONE_RADIUS};

verus! {

/// The two colours of stone.
#[allow(non_camel_case_types)]
#[derive(Clone, Copy, Debug, PartialEq, Eq, Structural)]
pub enum StoneType {
    BLACK,
    WHITE,
}

/// Bound on the coordinates of a stone's centre.
pub const STONE_LIMIT: i64 = COORD_LIMIT - SHADOW_OFFSET;

/// The nested rings of a resting stone, outermost first.
pub open spec fn rings(kind: StoneType, c: Point) -> Seq<Hexagon> {
    let r = STONE_RADIUS as int;
    match kind {
        StoneType::BLACK => seq![
            hex(c, r, Paint::Purple),
            hex(c, r - 500, Paint::Black),
            hex(c, r - 650, Paint::WhitePurple),
            hex(c, r - 900, Paint::Black),
        ],
        StoneType::WHITE => seq![
            hex(c, r, Paint::Purple),
            hex(c, r - 200, Paint::Black),
            hex(c, r - 350, Paint::WhitePurple),
            hex(c, r - 700, Paint::Black),
            hex(c, r - 1000, Paint::White),
        ],
    }
}

/// The shadow of a stone centred on `c`: its outer ring, moved right and down.
pub open spec fn shadow_of(c: Point) -> Hexagon {
    hex(pt(c.x + SHADOW_OFFSET, c.y + SHADOW_OFFSET), STONE_RADIUS as int, Paint::Shadow)
}

/// The hexagons filled, in order.
pub open spec fn filled(hs: Seq<Hexagon>) -> Seq<Shape> {
    Seq::new(hs.len(), |i: int| Shape::Polygon(hs[i]))
}

/// A stone on the board: its colour, its centre, and its placement animation
/// while that runs.
#[derive(Clone, Copy, Debug, PartialEq, Eq, Structural)]
pub struct Stone {
    kind: StoneType,
    center: Point,
    animation: Option<Animation>,
}

impl Stone {
    pub closed spec fn kind(self) -> StoneType {
        self.kind
    }

    pub closed spec fn center(self) -> Point {
        self.center
    }

    pub closed spec fn animation(self) -> Option<Animation> {
        self.animation
    }

    /// The centre fits the geometry, and a running animation is centred on the
    /// stone and not finished yet (a finished one is dropped at once).
    pub closed spec fn wf(self) -> bool {
        &&& self.center.within(STONE_LIMIT as int)
        &&& self.animation matches Some(a) ==> a.wf() && a.center() == self.center && !a.finished()
    }

    /// A stone just placed at `c`, with its animation starting.
    pub closed spec fn fresh(kind: StoneType, c: Point) -> Stone {
        Stone { kind, center: c, animation: Some(Animation::started(c)) }
    }

    /// The stone after a frame of `delta` microseconds: its animation advances, and
    /// is dropped once it has finished.
    pub closed spec fn updated(self, delta: int) -> Stone {
        match self.animation {
            Some(a) => {
                let b = a.advanced(delta);
                Stone { animation: if b.finished() { None } else { Some(b) }, ..self }
            },
            None => self,
        }
    }

    /// What the stone draws: its animation while that runs, else its rings.
    pub open spec fn shapes(self) -> Seq<Shape> {
        match self.animation() {
            Some(a) => a.spec_frame(),
            None => filled(rings(self.kind(), self.center())),
        }
    }

    /// What the stone draws in the shadow layer: nothing while it is animated, else
    /// its shadow.
    pub open spec fn shadow_shapes(self) -> Seq<Shape> {
        match self.animation() {
            Some(_) => Seq::empty(),
            None => seq![Shape::Polygon(shadow_of(self.center()))],
        }
    }

    /// A well-formed stone is centred within `STONE_LIMIT`, and a running
    /// animation of it is well formed, centred on it and not finished.
    pub proof fn lemma_wf(self)
        requires
            self.wf(),
        ensures
            self.center().within(STONE_LIMIT as int),
            self.animation() matches Some(a) ==> a.wf() && a.center() == self.center() && !a.finished(),
    {
    }

    pub proof fn lemma_fresh(kind: StoneType, c: Point)
        requires
            c.within(STONE_LIMIT as int),
        ensures
            Stone::fresh(kind, c).wf(),
            Stone::fresh(kind, c).kind() == kind,
            Stone::fresh(kind, c).center() == c,
            Stone::fresh(kind, c).animation() == Some(Animation::started(c)),
    {
        Animation::lemma_started(c);
    }

    pub proof fn lemma_updated(self, delta: int)
        requires
            self.wf(),
            delta >= 0,
        ensures
            self.updated(delta).wf(),
            self.updated(delta).kind() == self.kind(),
            self.updated(delta).center() == self.center(),
            self.updated(delta).animation() == match self.animation() {
                Some(a) => if a.advanced(delta).finished() {
                    None
                } else {
                    Some(a.advanced(delta))
                },
                None => None,
            },
    {
        if let Some(a) = self.animation {
            a.lemma_advanced(delta);
        }
    }

    /// A stone of colour `stone_type` centred on `(pos_x, pos_y)`, with its
    /// placement animation starting.
    pub fn new(pos_x: i64, pos_y: i64, stone_type: StoneType) -> (s: Stone)
        requires
            pt(pos_x as int, pos_y as int).within(STONE_LIMIT as int),
        ensures
            s == Stone::fresh(stone_type, Point { x: pos_x, y: pos_y }),
            s.wf(),
            s.kind() == stone_type,
            s.center() == (Point { x: pos_x, y: pos_y }),
            s.animation() == Some(Animation::started(Point { x: pos_x, y: pos_y })),
            s.animation().unwrap().elapsed() == 0,
            !s.animation().unwrap().finished(),
    {
        let center = Point { x: pos_x, y: pos_y };
        proof {
            Animation::lemma_started(center);
        }
        Stone { kind: stone_type, center, animation: Some(Animation::new(center)) }
    }

    pub fn stone_type(&self) -> (k: StoneType)
        ensures
            k == self.kind(),
    {
        self.kind
    }

    pub fn position(&self) -> (p: Point)
        ensures
            p == self.center(),
    {
        self.center
    }

    /// The running animation, if any.
    pub fn current_animation(&self) -> (a: Option<Animation>)
        ensures
            a == self.animation(),
    {
        self.animation
    }

    pub fn is_animating(&self) -> (b: bool)
        ensures
            b == self.animation().is_some(),
    {
        self.animation.is_some()
    }

    /// The rings of the resting stone, outermost first.
    pub fn hexes(&self) -> (v: Vec<Hexagon>)
        requires
            self.wf(),
        ensures
            v@ == rings(self.kind(), self.center()),
            forall|i: int| 0 <= i < v@.len() ==> (#[trigger] v@[i]).wf(),
    {
        let c = self.center;
        let r = STONE_RADIUS;
        let v = match self.kind {
            StoneType::BLACK => vec![
                Hexagon::new(c, r, Paint::Purple),
                Hexagon::new(c, r - 500, Paint::Black),
                Hexagon::new(c, r - 650, Paint::WhitePurple),
                Hexagon::new(c, r - 900, Paint::Black),
            ],
            StoneType::WHITE => vec![
                Hexagon::new(c, r, Paint::Purple),
                Hexagon::new(c, r - 200, Paint::Black),
                Hexagon::new(c, r - 350, Paint::WhitePurple),
                Hexagon::new(c, r - 700, Paint::Black),
                Hexagon::new(c, r - 1000, Paint::White),
            ],
        };
        assert(v@ =~= rings(self.kind, c));
        v
    }

    /// The shadow of the resting stone.
    pub fn shadow(&self) -> (h: Hexagon)
        requires
            self.wf(),
        ensures
            h == shadow_of(self.center()),
            h.wf(),
    {
        let c = self.center;
        Hexagon::new(
            Point { x: c.x + SHADOW_OFFSET, y: c.y + SHADOW_OFFSET },
            STONE_RADIUS,
            Paint::Shadow,
        )
    }

    /// Appends the stone's shadow layer to a draw list.
    pub fn draw_shadow(&self, out: &mut Vec<Shape>)
        requires
            self.wf(),
        ensures
            final(out)@ == old(out)@ + self.shadow_shapes(),
    {
        match self.animation {
            Some(_) => {
                assert(out@ =~= old(out)@ + self.shadow_shapes());
            },
            None => {
                let h = self.shadow();
                h.draw_filled(out);
                assert(out@ =~= old(out)@ + self.shadow_shapes());
            },
        }
    }

    /// Appends what the stone draws to a draw list.
    pub fn draw(&self, out: &mut Vec<Shape>)
        requires
            self.wf(),
        ensures
            final(out)@ == old(out)@ + self.shapes(),
    {
        match self.animation {
            Some(ani) => {
                ani.draw(out);
            },
            None => {
                let ghost start = out@;
                let hexes = self.hexes();
                for i in 0..hexes.len()
                    invariant
                        hexes@ == rings(self.kind, self.center),
                        out@ == start + filled(hexes@.take(i as int)),
                {
                    hexes[i].draw_filled(out);
                    assert(filled(hexes@.take(i + 1)) =~= filled(hexes@.take(i as int)).push(
                        Shape::Polygon(hexes@[i as int]),
                    ));
                }
                assert(hexes@.take(hexes@.len() as int) =~= hexes@);
            },
        }
    }

    /// Advances the placement animation by one frame of `delta` microseconds,
    /// dropping it once it has finished.
    pub fn update(&mut self, delta: u64)
        requires
            old(self).wf(),
        ensures
            *final(self) == old(self).updated(delta as int),
            final(self).wf(),
            final(self).kind() == old(self).kind(),
            final(self).center() == old(self).center(),
            final(self).animation() == match old(self).animation() {
                Some(a) => if a.advanced(delta as int).finished() {
                    None
                } else {
                    Some(a.advanced(delta as int))
                },
                None => None,
            },
            final(self).animation() is None <==> (old(self).animation() is None
                || old(self).animation().unwrap().elapsed() + delta >= PHASE2_END),
            final(self).animation() is Some ==> final(self).animation().unwrap().elapsed()
                == old(self).animation().unwrap().elapsed() + delta,
    {
        proof {
            old(self).lemma_updated(delta as int);
        }
        let mut turn_off_animation = false;
        if let Some(ani) = &mut self.animation {
            ani.update(delta);
            if ani.is_finished() {
                turn_off_animation = true;
            }
        }
        if turn_off_animation {
            self.animation = None;
        }
    }
}

} // verus!
