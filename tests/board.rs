use fancy_go::board::Board;
use fancy_go::geometry::{Hexagon, Paint, Point, Shape};
use fancy_go::game::{CursorShape, Game};
use fancy_go::settings::{POINT_SPACING, SUBPIXELS};
use fancy_go::stone::{Stone, StoneType};

const END: u64 = 2_000_000;

fn px(v: i64) -> i64 {
    v * SUBPIXELS
}

fn occupied(b: &Board) -> Vec<(usize, usize)> {
    let mut v = Vec::new();
    for i in 0..19 {
        for j in 0..19 {
            if b.get(i, j).is_some() {
                v.push((i, j));
            }
        }
    }
    v
}

#[test]
fn new_board_is_empty() {
    let b = Board::new(px(50), px(50));
    assert!(occupied(&b).is_empty());
}

#[test]
fn place_snaps_stone_to_intersection() {
    let mut b = Board::new(px(50), px(50));
    b.place_a_stone(px(50 + 100 + 7), px(50 + 50 - 8), StoneType::WHITE);
    assert_eq!(occupied(&b), vec![(2, 1)]);
    let s = b.get(2, 1).unwrap();
    assert_eq!(s.position(), Point { x: px(150), y: px(100) });
    assert_eq!(s.stone_type(), StoneType::WHITE);
}

#[test]
fn place_on_occupied_cell_keeps_first_stone() {
    let mut b = Board::new(px(50), px(50));
    b.place_a_stone(px(50), px(50), StoneType::BLACK);
    let first = b.get(0, 0).unwrap();
    b.place_a_stone(px(50), px(50), StoneType::BLACK);
    assert_eq!(b.get(0, 0), Some(first));
    b.place_a_stone(px(55), px(45), StoneType::WHITE);
    assert_eq!(b.get(0, 0), Some(first));
    assert_eq!(b.get(0, 0).unwrap().stone_type(), StoneType::BLACK);
    assert_eq!(occupied(&b), vec![(0, 0)]);
    assert!(!b.is_placeable(px(50), px(50)));
}

#[test]
fn placeable_agrees_with_placement() {
    let mut b = Board::new(px(50), px(50));
    b.place_a_stone(px(100), px(100), StoneType::BLACK);
    let xs = [px(0), px(39), px(41), px(50), px(60), px(61), px(75), px(90), px(100), px(109), px(955), px(959), px(961)];
    for &x in xs.iter() {
        for &y in xs.iter() {
            let before = occupied(&b);
            let mut after = Board::new(px(50), px(50));
            for &(i, j) in before.iter() {
                let (ox, oy) = (px(50) + i as i64 * POINT_SPACING, px(50) + j as i64 * POINT_SPACING);
                after.place_a_stone(ox, oy, StoneType::BLACK);
            }
            let expected = after.is_placeable(x, y);
            after.place_a_stone(x, y, StoneType::WHITE);
            let changed = occupied(&after) != before;
            assert_eq!(expected, changed, "at {} {}", x, y);
        }
    }
}

#[test]
fn placed_stone_animates_then_rests() {
    let mut b = Board::new(0, 0);
    b.place_a_stone(px(50), px(0), StoneType::BLACK);
    let s = b.get(1, 0).unwrap();
    let a = s.current_animation().unwrap();
    assert_eq!(a.elapsed_time(), 0);
    assert!(!a.is_finished());
    assert!(s.is_animating());

    let mut animated = Vec::new();
    s.draw(&mut animated);
    assert_eq!(animated.len(), 16);
    let mut shadow = Vec::new();
    s.draw_shadow(&mut shadow);
    assert!(shadow.is_empty());

    b.update(END);
    let s = b.get(1, 0).unwrap();
    assert!(!s.is_animating());
    let mut rest = Vec::new();
    s.draw(&mut rest);
    let c = Point { x: px(50), y: 0 };
    assert_eq!(
        rest,
        vec![
            Shape::Polygon(Hexagon::new(c, 2500, Paint::Purple)),
            Shape::Polygon(Hexagon::new(c, 2000, Paint::Black)),
            Shape::Polygon(Hexagon::new(c, 1850, Paint::WhitePurple)),
            Shape::Polygon(Hexagon::new(c, 1600, Paint::Black)),
        ]
    );
    let mut shadow = Vec::new();
    s.draw_shadow(&mut shadow);
    assert_eq!(
        shadow,
        vec![Shape::Polygon(Hexagon::new(Point { x: px(58), y: px(8) }, 2500, Paint::Shadow))]
    );
    // and it stays static
    b.update(1);
    let mut again = Vec::new();
    b.get(1, 0).unwrap().draw(&mut again);
    assert_eq!(again, rest);
}

#[test]
fn white_stone_has_five_rings() {
    let s = Stone::new(0, 0, StoneType::WHITE);
    let radii: Vec<i64> = s.hexes().iter().map(|h| h.radius).collect();
    assert_eq!(radii, vec![2500, 2300, 2150, 1800, 1500]);
    let paints: Vec<Paint> = s.hexes().iter().map(|h| h.paint).collect();
    assert_eq!(paints, vec![Paint::Purple, Paint::Black, Paint::WhitePurple, Paint::Black, Paint::White]);
}

#[test]
fn stone_update_just_before_the_end_keeps_animation() {
    let mut s = Stone::new(0, 0, StoneType::WHITE);
    s.update(END - 1);
    assert!(s.is_animating());
    assert_eq!(s.current_animation().unwrap().elapsed_time(), END - 1);
    s.update(1);
    assert!(!s.is_animating());
    assert_eq!(s.current_animation(), None);
}

#[test]
fn adjacent_stones_animate_independently() {
    let mut b = Board::new(0, 0);
    b.place_a_stone(px(100), px(100), StoneType::BLACK);
    b.place_a_stone(px(150), px(100), StoneType::WHITE);
    let mut first = b.get(2, 2).unwrap();
    let second = b.get(3, 2).unwrap();
    first.update(500_000);
    assert_eq!(first.current_animation().unwrap().elapsed_time(), 500_000);
    assert_eq!(second.current_animation().unwrap().elapsed_time(), 0);

    b.update(1_500_000);
    b.place_a_stone(px(100), px(150), StoneType::BLACK);
    b.update(500_000);
    assert!(!b.get(2, 2).unwrap().is_animating());
    assert!(!b.get(3, 2).unwrap().is_animating());
    assert_eq!(b.get(2, 3).unwrap().current_animation().unwrap().elapsed_time(), 500_000);
}

#[test]
fn board_frame_order_and_size() {
    let mut b = Board::new(px(50), px(50));
    let mut out = Vec::new();
    b.draw(&mut out);
    // 38 line shadows, 38 lines, 8 border lines, 9 star points
    assert_eq!(out.len(), 93);
    assert_eq!(
        out[0],
        Shape::Line {
            paint: Paint::Shadow,
            radius: 100,
            from: Point { x: px(58), y: px(58) },
            to: Point { x: px(58), y: px(58 + 900) },
        }
    );
    assert_eq!(
        out[38 + 19],
        Shape::Line {
            paint: Paint::Line,
            radius: 100,
            from: Point { x: px(50), y: px(50) },
            to: Point { x: px(950), y: px(50) },
        }
    );
    assert_eq!(
        out[76],
        Shape::Line {
            paint: Paint::OuterBorder,
            radius: 400,
            from: Point { x: px(48), y: px(44) },
            to: Point { x: px(48), y: px(956) },
        }
    );
    assert_eq!(
        out[83],
        Shape::Line {
            paint: Paint::InnerBorder,
            radius: 200,
            from: Point { x: px(46), y: px(952) },
            to: Point { x: px(954), y: px(952) },
        }
    );
    assert_eq!(
        out[84],
        Shape::Ellipse { paint: Paint::Line, corner: Point { x: px(195), y: px(195) }, width: 1000, height: 1000 }
    );
    assert_eq!(
        out[85],
        Shape::Ellipse { paint: Paint::Line, corner: Point { x: px(495), y: px(195) }, width: 1000, height: 1000 }
    );
    assert_eq!(
        out[92],
        Shape::Ellipse { paint: Paint::Line, corner: Point { x: px(795), y: px(795) }, width: 1000, height: 1000 }
    );

    b.place_a_stone(px(100), px(50), StoneType::WHITE);
    b.update(END);
    let mut out = Vec::new();
    b.draw(&mut out);
    assert_eq!(out.len(), 93 + 1 + 5);
    // the stone's shadow lies under the grid lines, the stone over everything
    assert_eq!(out[38], Shape::Polygon(Hexagon::new(Point { x: px(108), y: px(58) }, 2500, Paint::Shadow)));
    assert_eq!(out[94], Shape::Polygon(Hexagon::new(Point { x: px(100), y: px(50) }, 2500, Paint::Purple)));
    assert_eq!(out[98], Shape::Polygon(Hexagon::new(Point { x: px(100), y: px(50) }, 1500, Paint::White)));
}

#[test]
fn game_alternates_colours() {
    let mut g = Game::new([px(50), px(50)]);
    assert_eq!(g.next_stone_type(), StoneType::BLACK);
    assert!(g.is_placeable(px(50), px(50)));
    g.place_a_stone(px(50), px(50));
    assert_eq!(g.next_stone_type(), StoneType::WHITE);
    assert!(!g.is_placeable(px(50), px(50)));
    g.place_a_stone(px(100), px(50));
    assert_eq!(g.get_board().get(0, 0).unwrap().stone_type(), StoneType::BLACK);
    assert_eq!(g.get_board().get(1, 0).unwrap().stone_type(), StoneType::WHITE);
    g.update(END);
    let mut out = Vec::new();
    g.draw(&mut out);
    assert_eq!(out.len(), 93 + 2 + 4 + 5);
}

#[test]
fn cursor_is_a_hand_exactly_over_free_intersections() {
    let mut g = Game::new([px(50), px(50)]);
    assert_eq!(g.cursor(px(52), px(48)), CursorShape::Hand);
    assert_eq!(g.cursor(px(75), px(50)), CursorShape::Arrow);
    assert_eq!(g.cursor(px(0), px(0)), CursorShape::Arrow);
    g.place_a_stone(px(50), px(50));
    assert_eq!(g.cursor(px(52), px(48)), CursorShape::Arrow);
    assert_eq!(g.cursor(px(100), px(50)), CursorShape::Hand);
}
