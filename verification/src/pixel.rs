//! The mapping between window pixels and board squares.
//!
//! The board fills a surface of `width` by `height` pixels and is cut into
//! eight equal columns and eight equal rows. A cell is `width / 8` wide as a
//! fraction, not rounded: pixel `p` along an axis of `extent` pixels lies in
//! cell `floor(8 * p / extent)`. The rectangle of a square is made of the
//! whole pixels that lie in it, so the 64 rectangles tile the board.

use vstd::prelude::*;
use crate::square::Square;

verus! {

/// `i` brought into the range of cell indices.
pub open spec fn clamp_cell(i: int) -> int {
    if i < 0 {
        0
    } else if i > 7 {
        7
    } else {
        i
    }
}

/// The cell, along one axis of `extent` pixels, that pixel `p` belongs to.
///
/// Pixels before the first cell count for cell 0, pixels on or past the far
/// edge for cell 7. An axis of no extent has cells of no width, so that
/// every pixel past the near edge lies past all of them.
pub open spec fn cell_of_pixel(p: int, extent: int) -> int {
    if extent > 0 {
        clamp_cell((8 * p) / extent)
    } else if p > 0 {
        7
    } else {
        0
    }
}

/// The first pixel, along one axis of `extent` pixels, at or after the near
/// edge of cell `index`: the edge lies at `index * extent / 8`.
pub open spec fn cell_origin(index: int, extent: int) -> int {
    (index * extent + 7) / 8
}

/// The number of whole pixels, along one axis of `extent` pixels, that
/// belong to cell `index`.
pub open spec fn cell_extent(index: int, extent: int) -> int {
    cell_origin(index + 1, extent) - cell_origin(index, extent)
}

/// A rectangle of whole pixels: its top-left pixel and its size.
#[derive(Clone, Copy, Debug, PartialEq, Eq, Structural)]
pub struct PixelRect {
    pub x: i64,
    pub y: i64,
    pub width: u32,
    pub height: u32,
}

impl PixelRect {
    /// Whether the pixel (`x`, `y`) lies in this rectangle.
    pub open spec fn holds(self, x: int, y: int) -> bool {
        self.x <= x < self.x + self.width && self.y <= y < self.y + self.height
    }
}

/// The floor of `8 * p / extent`, for a pixel inside the axis.
proof fn lemma_inner_quotient(p: int, extent: int)
    requires
        0 <= p < extent,
    ensures
        0 <= (8 * p) / extent < 8,
{
    assert(0 <= (8 * p) / extent < 8) by (nonlinear_arith)
        requires
            0 <= p < extent,
    ;
}

/// The quotient `8 * p / extent` for pixels outside the axis.
proof fn lemma_outer_quotient(p: int, extent: int)
    requires
        extent > 0,
    ensures
        p <= 0 ==> (8 * p) / extent <= 0,
        p >= extent ==> (8 * p) / extent >= 8,
{
    assert(p <= 0 ==> (8 * p) / extent <= 0) by (nonlinear_arith)
        requires
            extent > 0,
    ;
    assert(p >= extent ==> (8 * p) / extent >= 8) by (nonlinear_arith)
        requires
            extent > 0,
    ;
}

/// The cell index of pixel `p` along an axis of `extent` pixels.
fn cell_index(p: i64, extent: u32) -> (index: usize)
    ensures
        index == cell_of_pixel(p as int, extent as int),
        index < 8,
{
    if p <= 0 {
        proof {
            if extent > 0 {
                lemma_outer_quotient(p as int, extent as int);
            }
        }
        0
    } else if p >= extent as i64 {
        proof {
            if extent > 0 {
                lemma_outer_quotient(p as int, extent as int);
            }
        }
        7
    } else {
        proof {
            lemma_inner_quotient(p as int, extent as int);
        }
        let scaled: u64 = 8 * (p as u64);
        (scaled / (extent as u64)) as usize
    }
}

/// The square under the pixel (`x`, `y`) of a board of the given size.
pub open spec fn square_of_pixel(x: int, y: int, board_width: int, board_height: int) -> Square {
    Square {
        col: cell_of_pixel(x, board_width) as usize,
        row: cell_of_pixel(y, board_height) as usize,
    }
}

/// The pixel at the top-left corner of `square` on a board of the given
/// size.
pub open spec fn origin_of(square: Square, board_width: int, board_height: int) -> (i64, i64) {
    (
        cell_origin(square.col as int, board_width) as i64,
        cell_origin(square.row as int, board_height) as i64,
    )
}

/// The pixels of `square` on a board of the given size.
pub open spec fn rect_of(square: Square, board_width: int, board_height: int) -> PixelRect {
    PixelRect {
        x: cell_origin(square.col as int, board_width) as i64,
        y: cell_origin(square.row as int, board_height) as i64,
        width: cell_extent(square.col as int, board_width) as u32,
        height: cell_extent(square.row as int, board_height) as u32,
    }
}

/// The square under the pixel (`x`, `y`) of a board drawn `board_width` by
/// `board_height` pixels large. Pixels off the board count for the nearest
/// square.
pub fn pixel_to_square(x: i64, y: i64, board_width: u32, board_height: u32) -> (square: Square)
    ensures
        square.wf(),
        square == square_of_pixel(x as int, y as int, board_width as int, board_height as int),
{
    Square { col: cell_index(x, board_width), row: cell_index(y, board_height) }
}

/// The origin of cell `index` along an axis of `extent` pixels; `index` may
/// be 8, one past the last cell, whose origin is the far edge.
fn origin_along(index: usize, extent: u32) -> (origin: u64)
    requires
        index <= 8,
    ensures
        origin == cell_origin(index as int, extent as int),
        origin <= extent,
{
    assert(0 <= index * extent <= 8 * extent) by (nonlinear_arith)
        requires
            0 <= index <= 8,
            0 <= extent,
    ;
    let edge: u64 = (index as u64) * (extent as u64);
    (edge + 7) / 8
}

/// The origin and the extent of cell `index` along an axis of `extent`
/// pixels.
fn span_along(index: usize, extent: u32) -> (span: (i64, u32))
    requires
        index < 8,
    ensures
        span.0 == cell_origin(index as int, extent as int),
        span.1 == cell_extent(index as int, extent as int),
        0 <= span.0 <= span.0 + span.1 <= extent,
{
    proof {
        lemma_origins_ascend(index as int, extent as int);
    }
    let near = origin_along(index, extent);
    let far = origin_along(index + 1, extent);
    (near as i64, (far - near) as u32)
}

/// The pixel at the top-left corner of `square` on a board drawn
/// `board_width` by `board_height` pixels large: along each axis the first
/// pixel that belongs to the square's column or row.
pub fn square_to_pixel_origin(square: Square, board_width: u32, board_height: u32) -> (origin: (
    i64,
    i64,
))
    requires
        square.wf(),
    ensures
        origin == origin_of(square, board_width as int, board_height as int),
        origin.0 == cell_origin(square.col as int, board_width as int),
        origin.1 == cell_origin(square.row as int, board_height as int),
{
    (span_along(square.col, board_width).0, span_along(square.row, board_height).0)
}

/// The rectangle of `square` on a board drawn `board_width` by
/// `board_height` pixels large: the pixels of the board that lie in the
/// square.
pub fn square_to_pixel_rect(square: Square, board_width: u32, board_height: u32) -> (rect:
    PixelRect)
    requires
        square.wf(),
    ensures
        rect == rect_of(square, board_width as int, board_height as int),
        rect.x == cell_origin(square.col as int, board_width as int),
        rect.y == cell_origin(square.row as int, board_height as int),
        rect.width == cell_extent(square.col as int, board_width as int),
        rect.height == cell_extent(square.row as int, board_height as int),
{
    let (x, width) = span_along(square.col, board_width);
    let (y, height) = span_along(square.row, board_height);
    PixelRect { x, y, width, height }
}

/// Origins ascend along an axis: no cell has a negative extent.
pub proof fn lemma_origins_ascend(index: int, extent: int)
    requires
        extent >= 0,
    ensures
        cell_origin(index, extent) <= cell_origin(index + 1, extent),
        cell_extent(index, extent) >= 0,
{
    assert((index + 1) * extent == index * extent + extent) by (nonlinear_arith);
}

/// The eight cells tile the axis: the first begins at pixel 0, each begins
/// where the one before it ends, and the last ends at the far edge.
pub proof fn lemma_cells_tile_axis(extent: int)
    requires
        extent >= 0,
    ensures
        cell_origin(0, extent) == 0,
        cell_origin(8, extent) == extent,
        forall|index: int|
            #![trigger cell_extent(index, extent)]
            cell_origin(index, extent) + cell_extent(index, extent) == cell_origin(
                index + 1,
                extent,
            ) && cell_extent(index, extent) >= 0,
{
    assert forall|index: int| #![trigger cell_extent(index, extent)] cell_extent(index, extent) >= 0 by {
        lemma_origins_ascend(index, extent);
    }
}

/// A pixel inside the axis belongs to cell `index` exactly if it lies at or
/// after that cell's origin and before the next cell's.
pub proof fn lemma_cell_bounds(p: int, extent: int, index: int)
    requires
        0 <= p < extent,
        0 <= index < 8,
    ensures
        cell_of_pixel(p, extent) == index <==> cell_origin(index, extent) <= p < cell_origin(
            index + 1,
            extent,
        ),
{
    lemma_inner_quotient(p, extent);
    let q = (8 * p) / extent;
    assert(q * extent <= 8 * p < (q + 1) * extent) by (nonlinear_arith)
        requires
            extent > 0,
            q == (8 * p) / extent,
    ;
    assert(q >= index <==> 8 * p >= index * extent) by (nonlinear_arith)
        requires
            extent > 0,
            q * extent <= 8 * p < (q + 1) * extent,
    ;
    assert(q <= index <==> 8 * p < (index + 1) * extent) by (nonlinear_arith)
        requires
            extent > 0,
            q * extent <= 8 * p < (q + 1) * extent,
    ;
}

/// On an axis of at least eight pixels every cell holds its own origin:
/// mapping a cell to its origin and the origin back to a cell is the identity.
pub proof fn lemma_origin_round_trip(index: int, extent: int)
    requires
        extent >= 8,
        0 <= index < 8,
    ensures
        0 <= cell_origin(index, extent) < extent,
        cell_of_pixel(cell_origin(index, extent), extent) == index,
{
    let p = cell_origin(index, extent);
    assert(index * extent >= 0 && index * extent <= 7 * extent) by (nonlinear_arith)
        requires
            0 <= index < 8,
            extent >= 8,
    ;
    assert((index + 1) * extent == index * extent + extent) by (nonlinear_arith);
    lemma_cell_bounds(p, extent, index);
}

/// On a board of at least eight pixels each way, the origin of a square is
/// a pixel of the board that lies in that square.
pub proof fn lemma_square_origin_round_trip(square: Square, board_width: int, board_height: int)
    requires
        square.wf(),
        8 <= board_width <= u32::MAX,
        8 <= board_height <= u32::MAX,
    ensures
        0 <= origin_of(square, board_width, board_height).0 < board_width,
        0 <= origin_of(square, board_width, board_height).1 < board_height,
        square_of_pixel(
            origin_of(square, board_width, board_height).0 as int,
            origin_of(square, board_width, board_height).1 as int,
            board_width,
            board_height,
        ) == square,
{
    lemma_origin_round_trip(square.col as int, board_width);
    lemma_origin_round_trip(square.row as int, board_height);
}

/// The rectangle of a square holds exactly the pixels of the board that lie
/// in the square.
pub proof fn lemma_rect_holds_its_pixels(
    square: Square,
    x: int,
    y: int,
    board_width: int,
    board_height: int,
)
    requires
        square.wf(),
        0 <= x < board_width <= u32::MAX,
        0 <= y < board_height <= u32::MAX,
    ensures
        rect_of(square, board_width, board_height).holds(x, y) <==> square_of_pixel(
            x,
            y,
            board_width,
            board_height,
        ) == square,
{
    let col = square.col as int;
    let row = square.row as int;
    lemma_cell_bounds(x, board_width, col);
    lemma_cell_bounds(y, board_height, row);
    lemma_origins_ascend(col, board_width);
    lemma_origins_ascend(row, board_height);
    lemma_inner_quotient(x, board_width);
    lemma_inner_quotient(y, board_height);
    assert(0 <= col * board_width <= 7 * board_width) by (nonlinear_arith)
        requires
            0 <= col < 8,
            0 <= board_width,
    ;
    assert(0 <= row * board_height <= 7 * board_height) by (nonlinear_arith)
        requires
            0 <= row < 8,
            0 <= board_height,
    ;
    assert((col + 1) * board_width == col * board_width + board_width) by (nonlinear_arith);
    assert((row + 1) * board_height == row * board_height + board_height) by (nonlinear_arith);
}

} // verus!
