use fancy_go::mapper::{grid_offset, locate, locate_axis};
use fancy_go::settings::{PLACEABLE_RADIUS, POINT_SPACING, SUBPIXELS};

fn px(v: i64) -> i64 {
    v * SUBPIXELS
}

#[test]
fn locate_with_spacing_fifty_and_tolerance_ten() {
    assert_eq!(POINT_SPACING, px(50));
    assert_eq!(PLACEABLE_RADIUS, px(10));
    assert_eq!(locate(px(0), px(0)), Some((0, 0)));
    // quotient 1, remainder 5: within the window of line 1
    assert_eq!(locate(px(55), px(0)), Some((1, 0)));
}

#[test]
fn locate_snaps_within_tolerance_of_every_intersection() {
    for i in 0..19i64 {
        for j in 0..19i64 {
            for (dx, dy) in [(0, 0), (px(10) - 1, 0), (-(px(10) - 1), px(9)), (px(-9), px(-9))] {
                let x = i * POINT_SPACING + dx;
                let y = j * POINT_SPACING + dy;
                assert_eq!(locate(x, y), Some((i as usize, j as usize)), "at {} {}", x, y);
            }
        }
    }
}

#[test]
fn locate_rejects_dead_zone() {
    for k in 0..19i64 {
        for off in [px(10) + 1, px(25), px(40) - 1] {
            let x = k * POINT_SPACING + off;
            assert_eq!(locate(x, 0), None, "at {}", x);
            assert_eq!(locate(0, x), None, "at {}", x);
        }
    }
}

#[test]
fn locate_axis_window_edges() {
    assert_eq!(locate_axis(-px(10) - 1), None);
    assert_eq!(locate_axis(-px(10)), Some(0));
    assert_eq!(locate_axis(px(10) - 1), Some(0));
    assert_eq!(locate_axis(px(10)), Some(0));
    assert_eq!(locate_axis(px(10) + 1), None);
    assert_eq!(locate_axis(px(40) - 1), None);
    assert_eq!(locate_axis(px(40)), Some(1));
    assert_eq!(locate_axis(px(60)), Some(1));
    assert_eq!(locate_axis(px(61)), None);
    assert_eq!(locate_axis(px(1000)), Some(20));
}

#[test]
fn locate_rejects_off_board() {
    assert_eq!(locate(px(18 * 50), px(18 * 50)), Some((18, 18)));
    assert_eq!(locate(px(18 * 50 + 10), 0), Some((18, 0)));
    // the window of a nineteenth line lies past the board
    assert_eq!(locate(px(18 * 50 + 40), 0), None);
    assert_eq!(locate(0, px(19 * 50)), None);
    assert_eq!(locate(-px(11), 0), None);
    assert_eq!(locate(i64::MAX, 0), None);
    assert_eq!(locate(i64::MIN, i64::MIN), None);
}

#[test]
fn grid_offset_is_spacing_times_index() {
    assert_eq!(grid_offset(0, 0), (0, 0));
    assert_eq!(grid_offset(3, 18), (px(150), px(900)));
}
