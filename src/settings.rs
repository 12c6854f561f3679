use vstd::prelude::*;

verus! {

/// Hundredths of a pixel in one pixel: every length in this crate is counted in them.
pub const SUBPIXELS: i64 = 100;

/// Grid lines in each direction.
pub const NUM_OF_POINTS: usize = 19;

/// Distance between two neighbouring grid lines.
pub const POINT_SPACING: i64 = 5000;

/// Distance around a grid line within which a pointer snaps to it.
pub const PLACEABLE_RADIUS: i64 = 1000;

/// Length of one grid line, from the first intersection to the last.
pub const LINE_LENGTH: i64 = 90000;

/// Half the width of a grid line.
pub const LINE_RADIUS: i64 = 100;

/// Diameter of a star-point marker.
pub const STAR_POINT_RADIUS: i64 = 1000;

/// Offset of every shadow, right and down.
pub const SHADOW_OFFSET: i64 = 800;

/// Width of the inner border outline.
pub const BORDER_RADIUS: i64 = 200;

/// Width of the outer border outline.
pub const OUTER_BORDER_RADIUS: i64 = BORDER_RADIUS + BORDER_GAP;

/// Gap between the outermost grid lines and the border.
pub const BORDER_GAP: i64 = 200;

/// Radius of the outermost ring of a stone.
pub const STONE_RADIUS: i64 = 2500;

/// Bound on the coordinates of any centre that the geometry works with.
pub const COORD_LIMIT: i64 = 0x100_0000_0000;

/// Bound on the coordinates of a board's origin.
pub const ORIGIN_LIMIT: i64 = 0x80_0000_0000;

/// Bound on the radius of a hexagon.
pub const RADIUS_LIMIT: i64 = 0x4000_0000;

} // verus!
