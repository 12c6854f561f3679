use fancy_go::animation::{Animation, PHASE2_END};
use fancy_go::geometry::{compute_half_width, Paint, Point, Shape};

fn frame(a: &Animation) -> Vec<Shape> {
    let mut out = Vec::new();
    a.draw(&mut out);
    out
}

fn at(t: u64) -> Animation {
    let mut a = Animation::new(Point { x: 100000, y: 50000 });
    a.update(t);
    a
}

#[test]
fn animation_starts_at_zero_unfinished() {
    let a = Animation::new(Point { x: 0, y: 0 });
    assert_eq!(a.elapsed_time(), 0);
    assert!(!a.is_finished());
}

#[test]
fn animation_finishes_exactly_at_the_end() {
    let mut a = Animation::new(Point { x: 0, y: 0 });
    a.update(PHASE2_END as u64 - 1);
    assert!(!a.is_finished());
    a.update(1);
    assert!(a.is_finished());
    assert_eq!(a.elapsed_time(), 2_000_000);
}

#[test]
fn finished_stays_finished() {
    let mut a = at(2_500_000);
    assert!(a.is_finished());
    for d in [0u64, 1, 1000, 5_000_000] {
        a.update(d);
        assert!(a.is_finished());
    }
    a.update(u64::MAX);
    assert!(a.is_finished());
    assert_eq!(a.elapsed_time(), u64::MAX);
}

#[test]
fn frame_depends_on_elapsed_time_only() {
    let mut one = Animation::new(Point { x: 7000, y: 9000 });
    let mut two = Animation::new(Point { x: 7000, y: 9000 });
    one.update(2_000_000);
    two.update(1_000_000);
    two.update(1_000_000);
    assert_eq!(one, two);
    assert_eq!(frame(&one), frame(&two));

    let mut three = Animation::new(Point { x: 7000, y: 9000 });
    let mut four = Animation::new(Point { x: 7000, y: 9000 });
    three.update(1_200_000);
    for _ in 0..12 {
        four.update(100_000);
    }
    assert_eq!(frame(&three), frame(&four));
    assert_eq!(frame(&three).len(), 52);
}

#[test]
fn frame_sizes_over_the_phases() {
    // outer hexagon, four cross-hair lines and six ticks
    assert_eq!(frame(&at(0)).len(), 16);
    assert_eq!(frame(&at(250_000)).len(), 16);
    // collapsed, first half of a flash cycle: inner hexagon off
    assert_eq!(frame(&at(290_000)).len(), 16);
    // collapsed, second half: inner hexagon on
    assert_eq!(frame(&at(350_000)).len(), 22);
    assert_eq!(frame(&at(1_000_000)).len(), 16);
    // the rings of the second phase
    assert_eq!(frame(&at(1_100_000)).len(), 52);
    assert_eq!(frame(&at(1_150_000)).len(), 58);
    assert_eq!(frame(&at(1_900_000)).len(), 52);
    assert_eq!(frame(&at(1_999_999)).len(), 58);
    assert_eq!(frame(&at(2_000_000)).len(), 0);
}

#[test]
fn outer_hexagon_shrinks_to_one_spacing() {
    let c = Point { x: 100000, y: 50000 };
    let f = frame(&at(0));
    let w = compute_half_width(30000);
    assert_eq!(
        f[0],
        Shape::Line {
            paint: Paint::LightGreen,
            radius: 50,
            from: Point { x: c.x + w, y: c.y + 15000 },
            to: Point { x: c.x, y: c.y + 30000 },
        }
    );
    let f = frame(&at(150_000));
    assert_eq!(
        f[1],
        Shape::Line {
            paint: Paint::LightGreen,
            radius: 50,
            from: Point { x: c.x, y: c.y + 15000 },
            to: Point { x: c.x - compute_half_width(15000), y: c.y + 7500 },
        }
    );
    let f = frame(&at(280_000));
    assert_eq!(
        f[1],
        Shape::Line {
            paint: Paint::LightGreen,
            radius: 50,
            from: Point { x: c.x, y: c.y + 5000 },
            to: Point { x: c.x - compute_half_width(5000), y: c.y + 2500 },
        }
    );
}

#[test]
fn aiming_lines_close_in() {
    let c = Point { x: 100000, y: 50000 };
    let f = frame(&at(150_000));
    assert_eq!(
        f[6],
        Shape::Line {
            paint: Paint::LightGreen,
            radius: 150,
            from: Point { x: c.x - 25000, y: c.y },
            to: Point { x: c.x - 12500, y: c.y },
        }
    );
    assert_eq!(
        f[9],
        Shape::Line {
            paint: Paint::LightGreen,
            radius: 150,
            from: Point { x: c.x, y: c.y + 25000 },
            to: Point { x: c.x, y: c.y + 12500 },
        }
    );
    // never closer than half a spacing
    let f = frame(&at(900_000));
    assert_eq!(
        f[7],
        Shape::Line {
            paint: Paint::LightGreen,
            radius: 150,
            from: Point { x: c.x + 25000, y: c.y },
            to: Point { x: c.x + 2500, y: c.y },
        }
    );
    // the tick on the left edge covers its middle half
    let w = compute_half_width(2500);
    assert_eq!(
        f[14],
        Shape::Line {
            paint: Paint::LightGreen,
            radius: 150,
            from: Point { x: c.x - w, y: c.y + 1250 - 625 },
            to: Point { x: c.x - w, y: c.y + 1250 - 1875 },
        }
    );
    // the clamp holds from the end of the aiming time on
    let f = frame(&at(300_000));
    assert_eq!(
        f[6],
        Shape::Line {
            paint: Paint::LightGreen,
            radius: 150,
            from: Point { x: c.x - 25000, y: c.y },
            to: Point { x: c.x - 2500, y: c.y },
        }
    );
    // and not before: 25000 * (300000 - 270000) / 300000
    let f = frame(&at(270_000));
    assert_eq!(
        f[8],
        Shape::Line {
            paint: Paint::LightGreen,
            radius: 150,
            from: Point { x: c.x, y: c.y - 25000 },
            to: Point { x: c.x, y: c.y - 2500 },
        }
    );
    let f = frame(&at(240_000));
    assert_eq!(
        f[8],
        Shape::Line {
            paint: Paint::LightGreen,
            radius: 150,
            from: Point { x: c.x, y: c.y - 25000 },
            to: Point { x: c.x, y: c.y - 5000 },
        }
    );
}

#[test]
fn inner_hexagon_flashes() {
    let f = frame(&at(350_000));
    assert_eq!(
        f[16],
        Shape::Line {
            paint: Paint::LightGreen,
            radius: 150,
            from: Point { x: 100000 + compute_half_width(2500), y: 50000 + 1250 },
            to: Point { x: 100000, y: 50000 + 2500 },
        }
    );
}

#[test]
fn rings_settle_to_minimum_size() {
    let c = Point { x: 100000, y: 50000 };
    // half-way through closing in: 7500 + (30000 - 7500) / 2
    let f = frame(&at(1_150_000));
    let fill = &f[22 + 12..22 + 18];
    let r = 18750;
    assert_eq!(
        fill[1],
        Shape::Line {
            paint: Paint::RingFill,
            radius: 600,
            from: Point { x: c.x, y: c.y + r },
            to: Point { x: c.x - compute_half_width(r), y: c.y + r / 2 },
        }
    );
    // settled
    let f = frame(&at(1_500_000));
    assert_eq!(f.len(), 52);
    assert_eq!(
        f[16],
        Shape::Line {
            paint: Paint::RingLine,
            radius: 50,
            from: Point { x: c.x + compute_half_width(6750), y: c.y + 3375 },
            to: Point { x: c.x, y: c.y + 6750 },
        }
    );
    assert_eq!(
        f[16 + 30 + 1],
        Shape::Line {
            paint: Paint::RingLine,
            radius: 50,
            from: Point { x: c.x, y: c.y + 9750 },
            to: Point { x: c.x - compute_half_width(9750), y: c.y + 4875 },
        }
    );
}
