//! The glyph records of a tile sheet: one for each tile, rows from the top,
//! tiles from the left within a row.

use vstd::prelude::*;
use vstd::arithmetic::div_mod::{lemma_fundamental_div_mod, lemma_fundamental_div_mod_converse};
use vstd::arithmetic::mul::{lemma_mul_inequality, lemma_mul_is_commutative};
use crate::source::{ImageView, SourceImage};
use crate::tile::{advance, lemma_advance_bounds, measure_tile, tile_inside};

verus! {

/// What the descriptor says of one glyph. The offsets, the page and the
/// channel of a glyph are always zero and its advance is its width, so none
/// of them is stored.
#[derive(Clone, Copy, Debug, PartialEq, Eq, Structural)]
pub struct GlyphRecord {
    /// The character code, a single byte.
    pub id: u8,
    /// The column of the tile's left edge in the image.
    pub x: u32,
    /// The row of the tile's top edge in the image.
    pub y: u32,
    /// The advance width measured from the tile's pixels.
    pub width: u64,
    /// The height of every tile.
    pub height: u32,
}

/// Tiles of `tw` by `th` pixels cover the image exactly.
pub open spec fn grid_fits(img: ImageView, tw: int, th: int) -> bool {
    &&& tw > 0
    &&& th > 0
    &&& img.width as int % tw == 0
    &&& img.height as int % th == 0
}

/// How many tiles stand side by side in a row of the grid.
pub open spec fn grid_columns(img: ImageView, tw: int) -> int {
    img.width as int / tw
}

/// How many rows of tiles the grid has.
pub open spec fn grid_rows(img: ImageView, th: int) -> int {
    img.height as int / th
}

/// The number of tiles.
pub open spec fn tile_count(img: ImageView, tw: int, th: int) -> int {
    grid_columns(img, tw) * grid_rows(img, th)
}

/// The character code of the tile with index `i`: codes count up from that
/// of `first` and start again at zero after 255.
pub open spec fn glyph_id(first: char, i: int) -> u8 {
    ((first as int + i) % 256) as u8
}

/// The record of the tile with index `i` in reading order.
pub open spec fn glyph_at(img: ImageView, tw: int, th: int, first: char, i: int) -> GlyphRecord {
    let tx = (i % grid_columns(img, tw)) * tw;
    let ty = (i / grid_columns(img, tw)) * th;
    GlyphRecord {
        id: glyph_id(first, i),
        x: tx as u32,
        y: ty as u32,
        width: advance(img, tx, ty, tw, th) as u64,
        height: th as u32,
    }
}

/// The records of all tiles, in reading order.
pub open spec fn glyphs(img: ImageView, tw: int, th: int, first: char) -> Seq<GlyphRecord> {
    Seq::new(tile_count(img, tw, th) as nat, |i: int| glyph_at(img, tw, th, first, i))
}

/// The tile in column `col` of row `row` has the index `row * cols + col`.
pub proof fn lemma_tile_index(cols: int, row: int, col: int)
    requires
        0 <= col < cols,
    ensures
        (row * cols + col) / cols == row,
        (row * cols + col) % cols == col,
{
    lemma_fundamental_div_mod_converse(row * cols + col, cols, row, col);
}

/// A length that is a multiple of the tile size is the tile size times the
/// number of tiles.
pub proof fn lemma_exact_division(length: int, tile: int)
    requires
        tile > 0,
        length % tile == 0,
    ensures
        (length / tile) * tile == length,
{
    lemma_fundamental_div_mod(length, tile);
    lemma_mul_is_commutative(tile, length / tile);
}

/// Character codes are consecutive modulo 256, starting from the code of
/// `first` modulo 256.
pub proof fn lemma_ids_consecutive(first: char, i: int)
    requires
        0 <= i,
    ensures
        glyph_id(first, 0) == (first as int) % 256,
        glyph_id(first, i + 1) == (glyph_id(first, i) + 1) % 256,
{
}

/// The glyphs stand in reading order: the glyph with index `i` belongs to
/// the tile in column `i % columns` of row `i / columns`, which lies inside
/// the image; its code is that of `first` plus `i` modulo 256, one more than
/// the code before it; and its width is the tile's advance, at least two.
pub proof fn lemma_glyphs_in_reading_order(img: ImageView, tw: u32, th: u32, first: char, i: int)
    requires
        img.width <= u32::MAX,
        img.height <= u32::MAX,
        grid_fits(img, tw as int, th as int),
        0 <= i < tile_count(img, tw as int, th as int),
    ensures
        glyphs(img, tw as int, th as int, first).len() == tile_count(img, tw as int, th as int),
        glyphs(img, tw as int, th as int, first)[i].id == (first as int + i) % 256,
        i > 0 ==> glyphs(img, tw as int, th as int, first)[i].id == (glyphs(
            img,
            tw as int,
            th as int,
            first,
        )[i - 1].id + 1) % 256,
        glyphs(img, tw as int, th as int, first)[i].x == (i % grid_columns(img, tw as int)) * tw,
        glyphs(img, tw as int, th as int, first)[i].y == (i / grid_columns(img, tw as int)) * th,
        tile_inside(
            img,
            glyphs(img, tw as int, th as int, first)[i].x as int,
            glyphs(img, tw as int, th as int, first)[i].y as int,
            tw as int,
            th as int,
        ),
        glyphs(img, tw as int, th as int, first)[i].width == advance(
            img,
            glyphs(img, tw as int, th as int, first)[i].x as int,
            glyphs(img, tw as int, th as int, first)[i].y as int,
            tw as int,
            th as int,
        ),
        glyphs(img, tw as int, th as int, first)[i].width >= 2,
        glyphs(img, tw as int, th as int, first)[i].height == th,
{
    let cols = grid_columns(img, tw as int);
    let rows = grid_rows(img, th as int);
    let row = i / cols;
    let col = i % cols;
    assert(cols > 0) by (nonlinear_arith)
        requires
            0 <= i < cols * rows,
            0 <= cols,
            0 <= rows,
    ;
    lemma_fundamental_div_mod(i, cols);
    assert(0 <= row < rows) by (nonlinear_arith)
        requires
            i == cols * row + col,
            0 <= col < cols,
            0 <= i < cols * rows,
    ;
    lemma_mul_is_commutative(cols, row);
    lemma_tile_place(img, tw as int, th as int, row, col);
    lemma_advance_bounds(img, col * tw, row * th, tw as int, th as int);
}

/// Every tile of a fitting grid lies inside the image, at the place that
/// its index gives.
pub proof fn lemma_tile_place(img: ImageView, tw: int, th: int, row: int, col: int)
    requires
        grid_fits(img, tw, th),
        0 <= row < grid_rows(img, th),
        0 <= col < grid_columns(img, tw),
    ensures
        tile_inside(img, col * tw, row * th, tw, th),
        0 <= row * grid_columns(img, tw) + col < tile_count(img, tw, th),
        (row * grid_columns(img, tw) + col) % grid_columns(img, tw) == col,
        (row * grid_columns(img, tw) + col) / grid_columns(img, tw) == row,
{
    let cols = grid_columns(img, tw);
    let rows = grid_rows(img, th);
    lemma_exact_division(img.width as int, tw);
    lemma_exact_division(img.height as int, th);
    lemma_mul_inequality(col + 1, cols, tw);
    lemma_mul_inequality(row + 1, rows, th);
    lemma_mul_inequality(0, col, tw);
    lemma_mul_inequality(0, row, th);
    assert((col + 1) * tw == col * tw + tw) by (nonlinear_arith);
    assert((row + 1) * th == row * th + th) by (nonlinear_arith);
    lemma_tile_index(cols, row, col);
    lemma_mul_inequality(row + 1, rows, cols);
    lemma_mul_inequality(0, row, cols);
    assert((row + 1) * cols == row * cols + cols) by (nonlinear_arith);
    assert(rows * cols == cols * rows) by (nonlinear_arith);
}

/// The code after `id`, with 255 followed by zero.
pub fn next_id(id: u8) -> (next: u8)
    ensures
        next == (id + 1) % 256,
{
    if id == 255 {
        0
    } else {
        id + 1
    }
}

/// The code of the first glyph: the code of `first` modulo 256.
pub fn first_id(first: char) -> (id: u8)
    ensures
        id == glyph_id(first, 0),
{
    ((first as u32) % 256) as u8
}

/// Measures every tile of the grid, rows from the top and tiles from the
/// left within a row, and numbers them from the code of `first`.
pub fn scan_tiles(img: &SourceImage, tw: u32, th: u32, first: char) -> (records: Vec<GlyphRecord>)
    requires
        grid_fits(img@, tw as int, th as int),
    ensures
        records@ == glyphs(img@, tw as int, th as int, first),
{
    let cols: u32 = img.width() / tw;
    let rows: u32 = img.height() / th;
    let mut records: Vec<GlyphRecord> = Vec::new();
    let mut id: u8 = first_id(first);
    let mut row: u32 = 0;
    let mut ty: u32 = 0;
    proof {
        img.lemma_dimensions_fit();
        assert(0 * th == 0 && 0 * cols == 0) by (nonlinear_arith);
    }
    while row < rows
        invariant
            grid_fits(img@, tw as int, th as int),
            img@.width <= u32::MAX,
            img@.height <= u32::MAX,
            cols == grid_columns(img@, tw as int),
            rows == grid_rows(img@, th as int),
            row <= rows,
            ty == row * th,
            id == glyph_id(first, row * cols),
            records@.len() == row * cols,
            forall|k: int|
                0 <= k < records@.len() ==> records@[k] == glyph_at(
                    img@,
                    tw as int,
                    th as int,
                    first,
                    k,
                ),
        decreases rows - row,
    {
        let mut col: u32 = 0;
        let mut tx: u32 = 0;
        proof {
            assert(0 * tw == 0) by (nonlinear_arith);
        }
        while col < cols
            invariant
                grid_fits(img@, tw as int, th as int),
                img@.width <= u32::MAX,
                img@.height <= u32::MAX,
                cols == grid_columns(img@, tw as int),
                rows == grid_rows(img@, th as int),
                row < rows,
                col <= cols,
                ty == row * th,
                tx == col * tw,
                id == glyph_id(first, row * cols + col),
                records@.len() == row * cols + col,
                forall|k: int|
                    0 <= k < records@.len() ==> records@[k] == glyph_at(
                        img@,
                        tw as int,
                        th as int,
                        first,
                        k,
                    ),
            decreases cols - col,
        {
            proof {
                lemma_tile_place(img@, tw as int, th as int, row as int, col as int);
                assert((col + 1) * tw == col * tw + tw) by (nonlinear_arith);
            }
            let width = measure_tile(img, tx, ty, tw, th);
            records.push(GlyphRecord { id, x: tx, y: ty, width, height: th });
            id = next_id(id);
            tx = tx + tw;
            col = col + 1;
        }
        proof {
            assert((row + 1) * th == row * th + th) by (nonlinear_arith);
            assert((row + 1) * cols == row * cols + cols) by (nonlinear_arith);
            lemma_exact_division(img@.height as int, th as int);
            lemma_mul_inequality(row + 1, rows as int, th as int);
        }
        ty = ty + th;
        row = row + 1;
    }
    proof {
        assert(rows * cols == cols * rows) by (nonlinear_arith);
        assert(records@ =~= glyphs(img@, tw as int, th as int, first));
    }
    records
}

} // verus!
