//! Placement of the ball and paddle glyphs on a character grid.
//!
//! A normalized position times the region's size in cells gives a
//! denormalized coordinate, kept here multiplied by `UNIT` so that its whole
//! part is the cell and its remainder the sub-cell offset. The offset's zone
//! picks a glyph that shows where in the cell the ball stands.
use vstd::prelude::*;
use crate::field::{UNIT, Zone, in_field, clamp, zone, zone_spec};

verus! {

/// Column at which the paddle is drawn, counted from the region's edge.
pub const PADDLE_MARGIN: u16 = 1;

/// One piece of text placed at a cell of the region.
#[derive(Debug, Clone, Copy)]
pub struct Cell {
    pub x: u16,
    pub y: u16,
    pub text: &'static str,
}

/// Top and bottom half of the ball for horizontal zone `h` and vertical zone
/// `v`. An empty half draws nothing on its row.
pub open spec fn ball_glyphs(h: Zone, v: Zone) -> (&'static str, &'static str) {
    match v {
        Zone::Mid => match h {
            Zone::Low => ("▐█▌", ""),
            Zone::Mid => ("██", ""),
            Zone::High => ("▐█▌", ""),
        },
        _ => match h {
            Zone::Low => ("▗▄", "▝▀"),
            Zone::Mid => ("▗▄▖", "▝▀▘"),
            Zone::High => ("▄▖", "▀▘"),
        },
    }
}

fn ball_glyph_pair(h: Zone, v: Zone) -> (r: (&'static str, &'static str))
    ensures
        r == ball_glyphs(h, v),
{
    match v {
        Zone::Mid => match h {
            Zone::Low => ("▐█▌", ""),
            Zone::Mid => ("██", ""),
            Zone::High => ("▐█▌", ""),
        },
        _ => match h {
            Zone::Low => ("▗▄", "▝▀"),
            Zone::Mid => ("▗▄▖", "▝▀▘"),
            Zone::High => ("▄▖", "▀▘"),
        },
    }
}

/// A normalized coordinate `pos` on an axis of `cells` cells, times `UNIT`.
pub open spec fn denormalized(pos: int, cells: int) -> int {
    pos * cells
}

/// The whole cell of a denormalized coordinate, truncated.
pub open spec fn cell_of(d: int) -> int {
    d / (UNIT as int)
}

/// The ball's column: its cell, shifted left by four and right by the
/// horizontal zone, but never left of the region.
pub open spec fn ball_column(x: int, width: int) -> int {
    let d = denormalized(x, width);
    let c = cell_of(d) + zone_spec(d).index() - 4;
    if c < 0 {
        0
    } else {
        c
    }
}

/// The row offset of the ball's lower half: zero in the low zone, else one.
pub open spec fn row_shift(z: Zone) -> int {
    if z == Zone::Low {
        0
    } else {
        1
    }
}

/// Row of the ball's top half, kept off the region's top and bottom rows.
pub open spec fn ball_top_row(y: int, height: int) -> int {
    let d = denormalized(y, height);
    clamp(cell_of(d) + row_shift(zone_spec(d)) - 1, 1, height - 2)
}

/// Row of the ball's bottom half, kept off the region's top and bottom rows.
pub open spec fn ball_bottom_row(y: int, height: int) -> int {
    let d = denormalized(y, height);
    clamp(cell_of(d) + row_shift(zone_spec(d)), 1, height - 2)
}

/// The two cells that draw a ball at normalized `(x, y)` in a region of
/// `width` by `height` cells.
pub open spec fn ball_cells_spec(x: int, y: int, width: int, height: int) -> (Cell, Cell) {
    let g = ball_glyphs(zone_spec(denormalized(x, width)), zone_spec(denormalized(y, height)));
    let col = ball_column(x, width) as u16;
    (
        Cell { x: col, y: ball_top_row(y, height) as u16, text: g.0 },
        Cell { x: col, y: ball_bottom_row(y, height) as u16, text: g.1 },
    )
}

/// Denormalizes `pos` on an axis of `cells` cells: the cell and the zone.
fn locate(pos: i64, cells: u16) -> (r: (i64, Zone))
    requires
        in_field(pos as int),
    ensures
        r.0 == cell_of(denormalized(pos as int, cells as int)),
        0 <= r.0 <= cells,
        r.1 == zone_spec(denormalized(pos as int, cells as int)),
{
    let p: u64 = pos as u64;
    let n: u64 = cells as u64;
    assert(p * n <= 10000 * n) by (nonlinear_arith)
        requires
            p <= 10000,
    ;
    assert(10000 * n <= 10000 * 65535) by (nonlinear_arith)
        requires
            n <= 65535,
    ;
    let d: u64 = p * n;
    let c: u64 = d / (UNIT as u64);
    assert(c <= n) by (nonlinear_arith)
        requires
            d <= 10000 * n,
            c == d / 10000,
    ;
    (c as i64, zone(d))
}

/// Clamps `v` into `[lo, hi]`.
fn clamp_row(v: i64, lo: i64, hi: i64) -> (r: u16)
    requires
        0 <= lo <= hi <= 65535,
    ensures
        r as int == clamp(v as int, lo as int, hi as int),
{
    if v < lo {
        lo as u16
    } else if v > hi {
        hi as u16
    } else {
        v as u16
    }
}

/// Places the ball at normalized `(x, y)` in a region of `width` by `height`
/// cells: its top half and, on the row below, its bottom half.
pub fn ball_cells(x: i64, y: i64, width: u16, height: u16) -> (r: (Cell, Cell))
    requires
        in_field(x as int),
        in_field(y as int),
        height >= 3,
    ensures
        r == ball_cells_spec(x as int, y as int, width as int, height as int),
        1 <= r.0.y <= height - 2,
        1 <= r.1.y <= height - 2,
        r.0.x == r.1.x,
{
    let (cx, zx) = locate(x, width);
    let (cy, zy) = locate(y, height);
    let g = ball_glyph_pair(zx, zy);
    let shifted: i64 = cx + zx.offset() as i64 - 4;
    let col: u16 = if shifted < 0 {
        0
    } else {
        shifted as u16
    };
    let down: i64 = if zy == Zone::Low {
        0
    } else {
        1
    };
    let last: i64 = height as i64 - 2;
    let top = Cell { x: col, y: clamp_row(cy + down - 1, 1, last), text: g.0 };
    let bottom = Cell { x: col, y: clamp_row(cy + down, 1, last), text: g.1 };
    (top, bottom)
}

/// Row of the paddle cell `i` (0, 1 or 2, from the top) for a paddle at
/// normalized height `y`: a stack centered on the paddle's cell, each row kept
/// off the region's top and bottom rows.
pub open spec fn paddle_row(y: int, height: int, i: int) -> int {
    clamp(cell_of(denormalized(y, height)) + i - 1, 1, height - 2)
}

/// Cap, body and cap of a paddle at normalized height `y` in a region of
/// `height` rows, at column `PADDLE_MARGIN`.
pub open spec fn paddle_cells_spec(y: int, height: int) -> (Cell, Cell, Cell) {
    (
        Cell { x: PADDLE_MARGIN, y: paddle_row(y, height, 0) as u16, text: "┓" },
        Cell { x: PADDLE_MARGIN, y: paddle_row(y, height, 1) as u16, text: "┃" },
        Cell { x: PADDLE_MARGIN, y: paddle_row(y, height, 2) as u16, text: "┛" },
    )
}

/// Places a paddle at normalized height `y` in a region of `height` rows.
pub fn paddle_cells(y: i64, height: u16) -> (r: (Cell, Cell, Cell))
    requires
        in_field(y as int),
        height >= 3,
    ensures
        r == paddle_cells_spec(y as int, height as int),
        1 <= r.0.y <= r.1.y <= r.2.y <= height - 2,
{
    let (cy, _) = locate(y, height);
    let last: i64 = height as i64 - 2;
    (
        Cell { x: PADDLE_MARGIN, y: clamp_row(cy - 1, 1, last), text: "┓" },
        Cell { x: PADDLE_MARGIN, y: clamp_row(cy, 1, last), text: "┃" },
        Cell { x: PADDLE_MARGIN, y: clamp_row(cy + 1, 1, last), text: "┛" },
    )
}

} // verus!
