//! Screen geometry of the grid, in whole pixels: where each cell is drawn,
//! and which cell a screen point falls on.
//!
//! The rule used throughout: a margin of `screen_width / 40` (2.5%) is kept
//! left and top; the usable width is the screen width less two margins; a
//! tile is square, with side `usable_width / columns`, rounded down. The grid
//! rectangle spans exactly `columns x rows` tiles, so its height follows from
//! the row count and may end short of, or run past, the bottom of the screen.
use vstd::prelude::*;

use crate::grid::Coord;

verus! {

/// An axis-aligned screen rectangle: origin `(x, y)`, width `w`, height `h`.
#[derive(Copy, Clone, Debug, PartialEq, Eq, Structural)]
pub struct Rect {
    pub x: i128,
    pub y: i128,
    pub w: i128,
    pub h: i128,
}

impl Rect {
    /// Whether `(px, py)` lies in the rectangle; the far edges are excluded.
    pub open spec fn spec_contains(self, px: int, py: int) -> bool {
        &&& self.x <= px < self.x + self.w
        &&& self.y <= py < self.y + self.h
    }

    /// Whether `(px, py)` lies in the rectangle; the far edges are excluded.
    pub fn contains(&self, px: i128, py: i128) -> (r: bool)
        requires
            i128::MIN <= self.x + self.w <= i128::MAX,
            i128::MIN <= self.y + self.h <= i128::MAX,
        ensures
            r == self.spec_contains(px as int, py as int),
    {
        self.x <= px && px < self.x + self.w && self.y <= py && py < self.y + self.h
    }
}

/// The point at the middle of `r`, rounded down.
pub open spec fn center(r: Rect) -> (int, int) {
    (r.x + r.w / 2, r.y + r.h / 2)
}

/// Pixels inset on each side of a tile when it is drawn.
pub const TILE_MARGIN: i128 = 1;

/// The screen width divided by this gives the margin around the grid.
pub const MARGIN_DIVISOR: u32 = 40;

/// The margin around the grid for a screen `swidth` pixels wide.
pub open spec fn margin_of(swidth: int) -> int {
    swidth / (MARGIN_DIVISOR as int)
}

/// The side of a square tile when `x_tiles` columns share the usable width
/// of a screen `swidth` pixels wide, rounded down but never below one pixel;
/// no columns give side 0.
pub open spec fn side_of(swidth: int, x_tiles: int) -> int {
    if x_tiles == 0 {
        0
    } else if (swidth - 2 * margin_of(swidth)) / x_tiles == 0 {
        1
    } else {
        (swidth - 2 * margin_of(swidth)) / x_tiles
    }
}

/// The grid's geometry on one screen, rebuilt every frame.
#[derive(Copy, Clone, Debug)]
pub struct Display {
    pub grid_rect: Rect,
    pub tile_side_len: u32,
    pub grid_size: (usize, usize),
}

impl Display {
    /// The grid rectangle spans `grid_size` tiles of side `tile_side_len`, and
    /// its origin is a screen position that a `u32` holds.
    pub open spec fn wf(self) -> bool {
        &&& 0 <= self.grid_rect.x <= u32::MAX
        &&& 0 <= self.grid_rect.y <= u32::MAX
        &&& self.grid_rect.w == self.grid_size.0 * self.tile_side_len
        &&& self.grid_rect.h == self.grid_size.1 * self.tile_side_len
    }

    /// The geometry that `new` derives for a screen `swidth` pixels wide and a
    /// grid of `x_tiles` by `y_tiles` cells.
    pub open spec fn spec_made_from(self, swidth: u32, x_tiles: usize, y_tiles: usize) -> bool {
        let m = margin_of(swidth as int);
        let s = side_of(swidth as int, x_tiles as int);
        &&& self.grid_rect.x == m
        &&& self.grid_rect.y == m
        &&& self.grid_rect.w == s * x_tiles
        &&& self.grid_rect.h == s * y_tiles
        &&& self.tile_side_len == s
        &&& self.grid_size == (x_tiles, y_tiles)
    }

    /// Where the tile at `c` is drawn: its cell, inset by `TILE_MARGIN`.
    pub open spec fn spec_tile_rect(self, c: Coord) -> Rect {
        let s = self.tile_side_len as int;
        Rect {
            x: (self.grid_rect.x + c.x * s + TILE_MARGIN) as i128,
            y: (self.grid_rect.y + c.y * s + TILE_MARGIN) as i128,
            w: (s - 2 * TILE_MARGIN) as i128,
            h: (s - 2 * TILE_MARGIN) as i128,
        }
    }

    /// The cell under the point `(px, py)`, or none outside the grid.
    pub open spec fn spec_tile_coord(self, px: int, py: int) -> Option<Coord> {
        if self.grid_rect.spec_contains(px, py) {
            let s = self.tile_side_len as int;
            Some(
                Coord {
                    x: ((px - self.grid_rect.x) / s) as usize,
                    y: ((py - self.grid_rect.y) / s) as usize,
                },
            )
        } else {
            None
        }
    }

    /// The geometry of a `x_tiles` by `y_tiles` grid on a screen `swidth`
    /// pixels wide. The screen height is not needed: tiles are square and
    /// sized by the width.
    pub fn new(swidth: u32, sheight: u32, x_tiles: usize, y_tiles: usize) -> (r: Display)
        ensures
            r.wf(),
            r.spec_made_from(swidth, x_tiles, y_tiles),
            x_tiles > 0 ==> r.tile_side_len > 0,
    {
        let margin: u32 = swidth / MARGIN_DIVISOR;
        let usable: u32 = swidth - 2 * margin;
        let side: u32 = if x_tiles == 0 {
            0
        } else if usable as usize / x_tiles == 0 {
            // a screen narrower than the column count still gets pickable tiles
            1
        } else {
            (usable as usize / x_tiles) as u32
        };
        proof {
            lemma_side_fits(swidth as int, x_tiles as int);
            lemma_span_fits(side as int, x_tiles as int);
            lemma_span_fits(side as int, y_tiles as int);
        }
        Display {
            grid_rect: Rect {
                x: margin as i128,
                y: margin as i128,
                w: (side as i128) * (x_tiles as i128),
                h: (side as i128) * (y_tiles as i128),
            },
            tile_side_len: side,
            grid_size: (x_tiles, y_tiles),
        }
    }

    /// Where the tile at `coord` is drawn. Any coordinate is accepted; the
    /// caller picks which ones lie in the grid.
    pub fn tile_rect(&self, coord: &Coord) -> (r: Rect)
        requires
            self.wf(),
        ensures
            r == self.spec_tile_rect(*coord),
    {
        let s: i128 = self.tile_side_len as i128;
        proof {
            lemma_span_fits(s as int, coord.x as int);
            lemma_span_fits(s as int, coord.y as int);
        }
        Rect {
            x: self.grid_rect.x + (coord.x as i128) * s + TILE_MARGIN,
            y: self.grid_rect.y + (coord.y as i128) * s + TILE_MARGIN,
            w: s - 2 * TILE_MARGIN,
            h: s - 2 * TILE_MARGIN,
        }
    }

    /// The rectangles of every cell of the grid, column by column: the cell
    /// `(x, y)` is at position `x * rows + y`.
    pub fn tile_rects(&self) -> (r: Vec<Rect>)
        requires
            self.wf(),
            self.grid_size.0 * self.grid_size.1 <= usize::MAX,
        ensures
            r@.len() == self.grid_size.0 * self.grid_size.1,
            forall|x: usize, y: usize|
                x < self.grid_size.0 && y < self.grid_size.1 ==> #[trigger] r@[x * self.grid_size.1
                    + y] == self.spec_tile_rect(Coord { x, y }),
    {
        let cols = self.grid_size.0;
        let rows = self.grid_size.1;
        let mut r: Vec<Rect> = Vec::new();
        let mut x: usize = 0;
        while x < cols
            invariant
                self.wf(),
                cols == self.grid_size.0,
                rows == self.grid_size.1,
                cols * rows <= usize::MAX,
                x <= cols,
                r@.len() == x * rows,
                forall|i: usize, j: usize|
                    i < x && j < rows ==> #[trigger] r@[i * rows + j] == self.spec_tile_rect(
                        Coord { x: i, y: j },
                    ),
            decreases cols - x,
        {
            let mut y: usize = 0;
            while y < rows
                invariant
                    self.wf(),
                    cols == self.grid_size.0,
                    rows == self.grid_size.1,
                    cols * rows <= usize::MAX,
                    x < cols,
                    y <= rows,
                    r@.len() == x * rows + y,
                    forall|i: usize, j: usize|
                        (i < x && j < rows) || (i == x && j < y) ==> #[trigger] r@[i * rows + j]
                            == self.spec_tile_rect(Coord { x: i, y: j }),
                decreases rows - y,
            {
                proof {
                    lemma_row_major_bounds(x as int, y as int, cols as int, rows as int);
                }
                let t = self.tile_rect(&Coord { x, y });
                r.push(t);
                proof {
                    assert forall|i: usize, j: usize|
                        (i < x && j < rows) || (i == x && j < y + 1) implies #[trigger] r@[i * rows
                        + j] == self.spec_tile_rect(Coord { x: i, y: j }) by {
                        lemma_row_major_before(i as int, j as int, x as int, y as int, rows as int);
                    }
                }
                y = y + 1;
            }
            proof {
                assert((x + 1) * rows == x * rows + rows) by (nonlinear_arith);
            }
            x = x + 1;
        }
        r
    }

    /// The cell under the screen point `pos`, or `None` where the point is
    /// outside the grid rectangle.
    pub fn get_tile_coord_from_pos(&self, pos: (i64, i64)) -> (r: Option<Coord>)
        requires
            self.wf(),
        ensures
            r == self.spec_tile_coord(pos.0 as int, pos.1 as int),
    {
        let px: i128 = pos.0 as i128;
        let py: i128 = pos.1 as i128;
        let rect = self.grid_rect;
        proof {
            lemma_span_fits(self.tile_side_len as int, self.grid_size.0 as int);
            lemma_span_fits(self.tile_side_len as int, self.grid_size.1 as int);
        }
        if !rect.contains(px, py) {
            return None;
        }
        let s: i128 = self.tile_side_len as i128;
        proof {
            lemma_cell_index(px - rect.x, s as int, self.grid_size.0 as int);
            lemma_cell_index(py - rect.y, s as int, self.grid_size.1 as int);
        }
        let x: usize = ((px - rect.x) / s) as usize;
        let y: usize = ((py - rect.y) / s) as usize;
        Some(Coord { x, y })
    }
}

/// On a display built by `new`, the middle of the rectangle drawn for a cell
/// inside the grid maps back to that cell.
pub proof fn tile_center_maps_back(
    d: Display,
    swidth: u32,
    x_tiles: usize,
    y_tiles: usize,
    c: Coord,
)
    requires
        d.wf(),
        d.spec_made_from(swidth, x_tiles, y_tiles),
        c.x < x_tiles,
        c.y < y_tiles,
    ensures
        d.spec_tile_coord(center(d.spec_tile_rect(c)).0, center(d.spec_tile_rect(c)).1) == Some(c),
{
    lemma_side_fits(swidth as int, x_tiles as int);
    lemma_center_in_cell(d, c);
}

/// The middle of the rectangle drawn for a cell inside the grid maps back
/// to that cell, whenever tiles are at least one pixel wide.
proof fn lemma_center_in_cell(d: Display, c: Coord)
    requires
        d.wf(),
        c.x < d.grid_size.0,
        c.y < d.grid_size.1,
        d.tile_side_len > 0,
    ensures
        d.spec_tile_coord(center(d.spec_tile_rect(c)).0, center(d.spec_tile_rect(c)).1) == Some(c),
{
    let s = d.tile_side_len as int;
    lemma_span_fits(s, c.x as int);
    lemma_span_fits(s, c.y as int);
    let k = TILE_MARGIN + (s - 2 * TILE_MARGIN) / 2;
    assert(0 <= k < s);
    lemma_in_cell(c.x as int, s, k, d.grid_size.0 as int);
    lemma_in_cell(c.y as int, s, k, d.grid_size.1 as int);
}

/// A point outside the grid rectangle maps to no cell.
pub proof fn outside_point_maps_to_none(d: Display, px: int, py: int)
    requires
        !d.grid_rect.spec_contains(px, py),
    ensures
        d.spec_tile_coord(px, py) is None,
{
}

/// A point inside the grid rectangle maps to a cell inside the grid, so no
/// further bounds check is needed.
pub proof fn inside_point_maps_into_grid(d: Display, px: int, py: int)
    requires
        d.wf(),
        d.grid_rect.spec_contains(px, py),
    ensures
        d.spec_tile_coord(px, py) matches Some(c) && c.x < d.grid_size.0 && c.y < d.grid_size.1,
{
    lemma_cell_index(px - d.grid_rect.x, d.tile_side_len as int, d.grid_size.0 as int);
    lemma_cell_index(py - d.grid_rect.y, d.tile_side_len as int, d.grid_size.1 as int);
}

/// The point `k` pixels into tile `i` lies in the span of `n` tiles and
/// divides back to `i`.
proof fn lemma_in_cell(i: int, s: int, k: int, n: int)
    requires
        0 <= i < n,
        0 <= k < s,
    ensures
        0 <= i * s + k < n * s,
        (i * s + k) / s == i,
{
    assert(0 <= i * s + k < n * s) by (nonlinear_arith)
        requires
            0 <= i < n,
            0 <= k < s,
    ;
    vstd::arithmetic::div_mod::lemma_fundamental_div_mod_converse(i * s + k, s, i, k);
}

/// Positions of the cell `(x, y)` in column-by-column order stay below the
/// total, so the arithmetic fits.
proof fn lemma_row_major_bounds(x: int, y: int, cols: int, rows: int)
    requires
        0 <= x < cols,
        0 <= y < rows,
    ensures
        0 <= x * rows + y < cols * rows,
        x * rows + y + 1 <= cols * rows,
{
    assert(0 <= x * rows + y < cols * rows) by (nonlinear_arith)
        requires
            0 <= x < cols,
            0 <= y < rows,
    ;
}

/// A cell that comes before `(x, y)` in column-by-column order has a
/// smaller position, and the position of `(x, y)` itself is `x * rows + y`.
proof fn lemma_row_major_before(i: int, j: int, x: int, y: int, rows: int)
    requires
        0 <= j < rows,
        0 <= y < rows,
        0 <= i <= x,
        i < x || j <= y,
    ensures
        i * rows + j <= x * rows + y,
        i * rows + j == x * rows + y ==> i == x && j == y,
{
    assert(i * rows + j <= x * rows + y && (i * rows + j == x * rows + y ==> i == x && j == y))
        by (nonlinear_arith)
        requires
            0 <= j < rows,
            0 <= y < rows,
            0 <= i <= x,
            i < x || j <= y,
    ;
}

/// The tile side never exceeds the usable width, which fits in a `u32`.
proof fn lemma_side_fits(swidth: int, x_tiles: int)
    requires
        0 <= swidth <= u32::MAX,
        0 <= x_tiles,
    ensures
        0 <= margin_of(swidth),
        0 <= 2 * margin_of(swidth) <= swidth,
        0 <= side_of(swidth, x_tiles) <= u32::MAX,
        x_tiles > 0 ==> side_of(swidth, x_tiles) >= 1,
{
    if x_tiles > 0 {
        let u = swidth - 2 * margin_of(swidth);
        assert(0 <= u / x_tiles <= u) by (nonlinear_arith)
            requires
                0 <= u,
                0 < x_tiles,
        ;
    }
}

/// `n` tiles of a side that fits in a `u32` span less than 2^96 pixels.
proof fn lemma_span_fits(s: int, n: int)
    requires
        0 <= s <= u32::MAX,
        0 <= n <= usize::MAX,
    ensures
        0 <= s * n <= 0x1_0000_0000_0000_0000_0000_0000,
        0 <= n * s <= 0x1_0000_0000_0000_0000_0000_0000,
{
    assert(0 <= s * n <= 0x1_0000_0000 * 0x1_0000_0000_0000_0000) by (nonlinear_arith)
        requires
            0 <= s <= 0x1_0000_0000,
            0 <= n <= 0x1_0000_0000_0000_0000,
    ;
}

/// An offset inside a span of `n` tiles of side `s` falls in a tile below `n`.
proof fn lemma_cell_index(off: int, s: int, n: int)
    requires
        0 <= off < n * s,
        0 <= s,
        0 <= n,
    ensures
        0 < s,
        0 <= off / s < n,
{
    if s == 0 {
        assert(n * s == 0);
    }
    assert(0 <= off / s < n) by (nonlinear_arith)
        requires
            0 <= off < n * s,
            0 < s,
    ;
}

} // verus!
