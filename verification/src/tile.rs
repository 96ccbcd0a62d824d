//! Measuring one tile: how far to the right its ink reaches.
//!
//! A tile is the rectangle of `tw` by `th` pixels whose top-left pixel is
//! `(tx, ty)`. Columns and rows inside it are counted from zero.

use vstd::prelude::*;
use crate::source::{ImageView, SourceImage};

verus! {

/// The larger of two integers.
pub open spec fn larger(a: int, b: int) -> int {
    if a >= b {
        a
    } else {
        b
    }
}

/// Among the first `cols` pixels of row `y`, counted from column `tx`, the
/// local column of the rightmost opaque one; zero when all are transparent.
pub open spec fn row_extent(img: ImageView, tx: int, y: int, cols: int) -> int
    decreases cols,
{
    if cols <= 0 {
        0
    } else if img.opaque(tx + cols - 1, y) {
        cols - 1
    } else {
        row_extent(img, tx, y, cols - 1)
    }
}

/// The greatest row extent among the first `rows` rows of the tile.
pub open spec fn tile_extent(img: ImageView, tx: int, ty: int, tw: int, rows: int) -> int
    decreases rows,
{
    if rows <= 0 {
        0
    } else {
        larger(tile_extent(img, tx, ty, tw, rows - 1), row_extent(img, tx, ty + rows - 1, tw))
    }
}

/// The advance width of the tile: its extent and two pixels of spacing.
pub open spec fn advance(img: ImageView, tx: int, ty: int, tw: int, th: int) -> int {
    tile_extent(img, tx, ty, tw, th) + 2
}

/// The tile lies inside the image.
pub open spec fn tile_inside(img: ImageView, tx: int, ty: int, tw: int, th: int) -> bool {
    &&& 0 <= tx
    &&& 0 <= ty
    &&& 0 <= tw
    &&& 0 <= th
    &&& tx + tw <= img.width
    &&& ty + th <= img.height
}

/// No pixel of the tile is opaque.
pub open spec fn tile_transparent(img: ImageView, tx: int, ty: int, tw: int, th: int) -> bool {
    forall|c: int, r: int| 0 <= c < tw && 0 <= r < th ==> !#[trigger] img.opaque(tx + c, ty + r)
}

/// Column `c` of the tile holds an opaque pixel, and no column to its right
/// does.
pub open spec fn rightmost_opaque_column(
    img: ImageView,
    tx: int,
    ty: int,
    tw: int,
    th: int,
    c: int,
) -> bool {
    &&& 0 <= c < tw
    &&& exists|r: int| 0 <= r < th && #[trigger] img.opaque(tx + c, ty + r)
    &&& forall|k: int, r: int|
        c < k < tw && 0 <= r < th ==> !#[trigger] img.opaque(tx + k, ty + r)
}

/// A row extent is a column of the row, or zero.
pub proof fn lemma_row_extent_bounds(img: ImageView, tx: int, y: int, cols: int)
    ensures
        0 <= row_extent(img, tx, y, cols),
        row_extent(img, tx, y, cols) < larger(cols, 1),
    decreases cols,
{
    if cols > 0 && !img.opaque(tx + cols - 1, y) {
        lemma_row_extent_bounds(img, tx, y, cols - 1);
    }
}

/// Transparent pixels at the right end of a row do not count: where every
/// pixel from column `from` on is transparent, the extent is that of the
/// first `from` columns.
pub proof fn lemma_row_extent_skips_transparent(
    img: ImageView,
    tx: int,
    y: int,
    from: int,
    cols: int,
)
    requires
        0 <= from <= cols,
        forall|k: int| from <= k < cols ==> !#[trigger] img.opaque(tx + k, y),
    ensures
        row_extent(img, tx, y, cols) == row_extent(img, tx, y, from),
    decreases cols,
{
    if from < cols {
        assert(!img.opaque(tx + (cols - 1), y));
        lemma_row_extent_skips_transparent(img, tx, y, from, cols - 1);
    }
}

/// A tile extent is a column of the tile, or zero.
pub proof fn lemma_tile_extent_bounds(img: ImageView, tx: int, ty: int, tw: int, rows: int)
    ensures
        0 <= tile_extent(img, tx, ty, tw, rows),
        tile_extent(img, tx, ty, tw, rows) < larger(tw, 1),
    decreases rows,
{
    if rows > 0 {
        lemma_tile_extent_bounds(img, tx, ty, tw, rows - 1);
        lemma_row_extent_bounds(img, tx, ty + rows - 1, tw);
    }
}

/// Every advance width is at least two, and at most one more than the
/// tile's width.
pub proof fn lemma_advance_bounds(img: ImageView, tx: int, ty: int, tw: int, th: int)
    ensures
        2 <= advance(img, tx, ty, tw, th) <= larger(tw, 1) + 1,
{
    lemma_tile_extent_bounds(img, tx, ty, tw, th);
}

/// Where no pixel of the first `rows` rows is opaque from column `from` on,
/// the extent of those rows is below `from`, or zero.
proof fn lemma_tile_extent_below(
    img: ImageView,
    tx: int,
    ty: int,
    tw: int,
    rows: int,
    from: int,
)
    requires
        0 <= from <= tw,
        forall|k: int, r: int|
            from <= k < tw && 0 <= r < rows ==> !#[trigger] img.opaque(tx + k, ty + r),
    ensures
        tile_extent(img, tx, ty, tw, rows) < larger(from, 1),
    decreases rows,
{
    if rows > 0 {
        lemma_tile_extent_below(img, tx, ty, tw, rows - 1, from);
        let y = ty + rows - 1;
        assert forall|k: int| from <= k < tw implies !#[trigger] img.opaque(tx + k, y) by {
            assert(!img.opaque(tx + k, ty + (rows - 1)));
        }
        lemma_row_extent_skips_transparent(img, tx, y, from, tw);
        lemma_row_extent_bounds(img, tx, y, from);
    }
}

/// The extent never shrinks as rows are added.
proof fn lemma_tile_extent_grows(img: ImageView, tx: int, ty: int, tw: int, few: int, many: int)
    requires
        few <= many,
    ensures
        tile_extent(img, tx, ty, tw, few) <= tile_extent(img, tx, ty, tw, many),
    decreases many,
{
    if few < many {
        lemma_tile_extent_bounds(img, tx, ty, tw, few);
        if many > 0 {
            lemma_tile_extent_grows(img, tx, ty, tw, few, many - 1);
        }
    }
}

/// A fully transparent tile has the advance width two.
pub proof fn lemma_transparent_tile(img: ImageView, tx: int, ty: int, tw: int, th: int)
    requires
        tile_transparent(img, tx, ty, tw, th),
    ensures
        advance(img, tx, ty, tw, th) == 2,
{
    lemma_tile_extent_bounds(img, tx, ty, tw, th);
    if tw > 0 {
        lemma_tile_extent_below(img, tx, ty, tw, th, 0);
    }
}

/// A tile whose rightmost opaque pixel stands in local column `c` has the
/// advance width `c + 2`.
pub proof fn lemma_rightmost_column(img: ImageView, tx: int, ty: int, tw: int, th: int, c: int)
    requires
        rightmost_opaque_column(img, tx, ty, tw, th, c),
    ensures
        advance(img, tx, ty, tw, th) == c + 2,
{
    let r = choose|r: int| 0 <= r < th && #[trigger] img.opaque(tx + c, ty + r);
    let y = ty + r;
    // Row `r` reaches column `c` exactly.
    assert forall|k: int| c + 1 <= k < tw implies !#[trigger] img.opaque(tx + k, y) by {
        assert(!img.opaque(tx + k, ty + r));
    }
    lemma_row_extent_skips_transparent(img, tx, y, c + 1, tw);
    assert(img.opaque(tx + (c + 1) - 1, y));
    assert(row_extent(img, tx, y, tw) == c);
    // So the rows up to and including `r` reach at least `c`, and so does the tile.
    assert(ty + (r + 1) - 1 == y);
    assert(tile_extent(img, tx, ty, tw, r + 1) >= c);
    lemma_tile_extent_grows(img, tx, ty, tw, r + 1, th);
    // No row reaches further.
    lemma_tile_extent_below(img, tx, ty, tw, th, c + 1);
}

/// Measures the tile at `(tx, ty)`: scans each row from the left, keeps the
/// local column of the last opaque pixel seen, and takes the greatest over
/// the rows.
pub fn measure_tile(img: &SourceImage, tx: u32, ty: u32, tw: u32, th: u32) -> (width: u64)
    requires
        tile_inside(img@, tx as int, ty as int, tw as int, th as int),
    ensures
        width == advance(img@, tx as int, ty as int, tw as int, th as int),
{
    proof {
        img.lemma_dimensions_fit();
    }
    let mut size: u32 = 0;
    let mut r: u32 = 0;
    while r < th
        invariant
            img@.width <= u32::MAX,
            img@.height <= u32::MAX,
            tile_inside(img@, tx as int, ty as int, tw as int, th as int),
            r <= th,
            size == tile_extent(img@, tx as int, ty as int, tw as int, r as int),
        decreases th - r,
    {
        let y: u32 = ty + r;
        let mut row_size: u32 = 0;
        let mut c: u32 = 0;
        while c < tw
            invariant
                img@.width <= u32::MAX,
                tile_inside(img@, tx as int, ty as int, tw as int, th as int),
                r < th,
                y == ty + r,
                c <= tw,
                row_size == row_extent(img@, tx as int, y as int, c as int),
            decreases tw - c,
        {
            if img.alpha(tx + c, y) != 0 {
                row_size = c;
            }
            c = c + 1;
        }
        if row_size > size {
            size = row_size;
        }
        r = r + 1;
    }
    size as u64 + 2
}

} // verus!
