use vstd::prelude::*;
use vstd::arithmetic::div_mod::lemma_fundamental_div_mod_converse;

use crate::settings::{NUM_OF_POINTS, PLACEABLE_RADIUS, POINT_SPACING};

verus! {

/// The grid line that a coordinate, taken relative to the board's origin, snaps to
/// along one axis: line 0 for anything within the snapping distance of it or of the
/// board's near edge, line `q` or `q + 1` when the coordinate lies within that distance
/// past line `q` or before line `q + 1`, and no line in the gap between two windows.
pub open spec fn axis_index(rel: int) -> Option<int> {
    let s = POINT_SPACING as int;
    let tol = PLACEABLE_RADIUS as int;
    if rel < -tol {
        None
    } else if rel < tol {
        Some(0)
    } else if rel % s <= tol {
        Some(rel / s)
    } else if rel % s >= s - tol {
        Some(rel / s + 1)
    } else {
        None
    }
}

/// The intersection that a position relative to the board's origin resolves to:
/// both axes must snap to a line, and both lines must lie on the board.
pub open spec fn spec_locate(rel_x: int, rel_y: int) -> Option<(int, int)> {
    match (axis_index(rel_x), axis_index(rel_y)) {
        (Some(i), Some(j)) => if i < NUM_OF_POINTS && j < NUM_OF_POINTS {
            Some((i, j))
        } else {
            None
        },
        _ => None,
    }
}

/// The screen offset of intersection `(i, j)` from the board's origin.
pub open spec fn spec_grid_offset(i: int, j: int) -> (int, int) {
    (i * POINT_SPACING, j * POINT_SPACING)
}

/// The grid line that `rel` snaps to along one axis (see `axis_index`).
pub fn locate_axis(rel: i64) -> (r: Option<i64>)
    ensures
        match r {
            Some(i) => axis_index(rel as int) == Some(i as int),
            None => axis_index(rel as int) is None,
        },
{
    if rel < -PLACEABLE_RADIUS {
        None
    } else if rel < PLACEABLE_RADIUS {
        Some(0)
    } else {
        let quotient = rel / POINT_SPACING;
        let remainder = rel % POINT_SPACING;
        if remainder <= PLACEABLE_RADIUS {
            Some(quotient)
        } else if remainder >= POINT_SPACING - PLACEABLE_RADIUS {
            Some(quotient + 1)
        } else {
            None
        }
    }
}

/// The intersection that a position relative to the board's origin resolves to,
/// as `(column, row)`; `None` where it is not placeable.
pub fn locate(rel_x: i64, rel_y: i64) -> (r: Option<(usize, usize)>)
    ensures
        match r {
            Some((i, j)) => spec_locate(rel_x as int, rel_y as int) == Some((i as int, j as int)),
            None => spec_locate(rel_x as int, rel_y as int) is None,
        },
{
    if let Some(px) = locate_axis(rel_x) {
        if let Some(py) = locate_axis(rel_y) {
            if 0 <= px && px < NUM_OF_POINTS as i64 && 0 <= py && py < NUM_OF_POINTS as i64 {
                return Some((px as usize, py as usize));
            } else {
                proof {
                    assert(axis_index(rel_x as int) matches Some(i) && i >= 0);
                    assert(axis_index(rel_y as int) matches Some(j) && j >= 0);
                }
                return None;
            }
        }
    }
    None
}

/// The screen offset of intersection `(point_x, point_y)` from the board's origin.
pub fn grid_offset(point_x: usize, point_y: usize) -> (r: (i64, i64))
    requires
        point_x < NUM_OF_POINTS,
        point_y < NUM_OF_POINTS,
    ensures
        (r.0 as int, r.1 as int) == spec_grid_offset(point_x as int, point_y as int),
{
    (point_x as i64 * POINT_SPACING, point_y as i64 * POINT_SPACING)
}

/// Along one axis, a coordinate strictly within the snapping distance of line `i`
/// snaps to line `i`.
pub proof fn lemma_axis_snaps(i: int, rel: int)
    requires
        0 <= i,
        i * POINT_SPACING - PLACEABLE_RADIUS < rel < i * POINT_SPACING + PLACEABLE_RADIUS,
    ensures
        axis_index(rel) == Some(i),
{
    let s = POINT_SPACING as int;
    if rel >= PLACEABLE_RADIUS {
        if rel >= i * s {
            lemma_fundamental_div_mod_converse(rel, s, i, rel - i * s);
        } else {
            lemma_fundamental_div_mod_converse(rel, s, i - 1, rel - (i - 1) * s);
        }
    }
}

/// Along one axis, a coordinate strictly between the snapping windows of lines `k`
/// and `k + 1` snaps to no line.
pub proof fn lemma_axis_gap(k: int, rel: int)
    requires
        k * POINT_SPACING + PLACEABLE_RADIUS < rel < (k + 1) * POINT_SPACING - PLACEABLE_RADIUS,
    ensures
        axis_index(rel) is None,
{
    let s = POINT_SPACING as int;
    if k >= 0 {
        lemma_fundamental_div_mod_converse(rel, s, k, rel - k * s);
    }
}

/// A position strictly within the snapping distance of intersection `(i, j)`,
/// on both axes, is located at that intersection.
pub proof fn law_locate_near_intersection(i: int, j: int, rel_x: int, rel_y: int)
    requires
        0 <= i < NUM_OF_POINTS,
        0 <= j < NUM_OF_POINTS,
        i * POINT_SPACING - PLACEABLE_RADIUS < rel_x < i * POINT_SPACING + PLACEABLE_RADIUS,
        j * POINT_SPACING - PLACEABLE_RADIUS < rel_y < j * POINT_SPACING + PLACEABLE_RADIUS,
    ensures
        spec_locate(rel_x, rel_y) == Some((i, j)),
{
    lemma_axis_snaps(i, rel_x);
    lemma_axis_snaps(j, rel_y);
}

/// A position whose column, or whose row, lies strictly between the snapping
/// windows of two neighbouring lines is located nowhere.
pub proof fn law_locate_dead_zone(k: int, rel_x: int, rel_y: int)
    requires
        (k * POINT_SPACING + PLACEABLE_RADIUS < rel_x < (k + 1) * POINT_SPACING - PLACEABLE_RADIUS)
            || (k * POINT_SPACING + PLACEABLE_RADIUS < rel_y < (k + 1) * POINT_SPACING
            - PLACEABLE_RADIUS),
    ensures
        spec_locate(rel_x, rel_y) is None,
{
    if k * POINT_SPACING + PLACEABLE_RADIUS < rel_x < (k + 1) * POINT_SPACING - PLACEABLE_RADIUS {
        lemma_axis_gap(k, rel_x);
    } else {
        lemma_axis_gap(k, rel_y);
    }
}

/// A relative position with a coordinate outside the range of `i64` is located nowhere.
pub proof fn lemma_locate_far(rel_x: int, rel_y: int)
    requires
        rel_x < i64::MIN || rel_x > i64::MAX || rel_y < i64::MIN || rel_y > i64::MAX,
    ensures
        spec_locate(rel_x, rel_y) is None,
{
    let s = POINT_SPACING as int;
    if rel_x > i64::MAX {
        assert(rel_x / s >= NUM_OF_POINTS);
    }
    if rel_y > i64::MAX {
        assert(rel_y / s >= NUM_OF_POINTS);
    }
}

} // verus!
