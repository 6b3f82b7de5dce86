//! The grid compositor: packs decoded images into one atlas.

use vstd::prelude::*;
use crate::blit::copy_block;
use crate::layout::{covered, Grid};
use crate::placement::{
    lemma_band_inside,
    lemma_cell_index,
    lemma_cell_of_byte,
    lemma_rows_positive,
    lemma_texel_of_byte,
    lemma_tile_placed,
};
use crate::raster::{rgba_bytes, Image, ImageView};

verus! {

/// Why a sequence of images could not be packed into an atlas.
#[derive(Clone, Copy, Debug, PartialEq, Eq)]
pub enum CompositorError {
    /// No image was given.
    Empty,
    /// The column count is zero or does not divide the number of images.
    InvalidColumnCount,
    /// The tile in row `row`, column `col` has size `actual` (width, height)
    /// where its cell asks for `expected`.
    InconsistentGrid { row: usize, col: usize, expected: (usize, usize), actual: (usize, usize) },
    /// The atlas, or one of its dimensions, is larger than a length can be.
    SizeOverflow,
}

/// The grid that `images`, laid out in `columns` columns, stand for.
pub open spec fn grid_of(images: Seq<Image>, columns: int) -> Grid {
    Grid { tiles: images.map_values(|img: Image| img@), columns }
}

/// The error that reports tile `i` of `grid` as the one of the wrong size.
pub open spec fn mismatch_at(grid: Grid, i: int) -> CompositorError {
    let row = i / grid.columns;
    let col = i % grid.columns;
    CompositorError::InconsistentGrid {
        row: row as usize,
        col: col as usize,
        expected: (grid.expected_width(col) as usize, grid.expected_height(row) as usize),
        actual: (grid.tiles[i].width as usize, grid.tiles[i].height as usize),
    }
}

/// What packing `grid` gives where no length may be more than `limit`: the
/// atlas, or the first reason in this order why there is none.
pub open spec fn packed(grid: Grid, limit: int) -> Result<ImageView, CompositorError> {
    if grid.tiles.len() == 0 {
        Err(CompositorError::Empty)
    } else if !grid.has_shape() {
        Err(CompositorError::InvalidColumnCount)
    } else if !grid.fits(limit) {
        Err(CompositorError::SizeOverflow)
    } else if grid.first_mismatch(0) < grid.tiles.len() {
        Err(mismatch_at(grid, grid.first_mismatch(0)))
    } else {
        Ok(grid.atlas())
    }
}

/// What `first_mismatch` finds from `from` on is the first tile there of the
/// wrong size: every tile between `from` and it has the size that its cell
/// asks for, and it has not, unless it is past the last tile.
pub proof fn lemma_first_mismatch_is_first(grid: Grid, from: int)
    requires
        0 <= from <= grid.tiles.len(),
    ensures
        from <= grid.first_mismatch(from) <= grid.tiles.len(),
        forall|i: int| from <= i < grid.first_mismatch(from) ==> #[trigger] grid.tile_matches(i),
        grid.first_mismatch(from) < grid.tiles.len() ==> !grid.tile_matches(
            grid.first_mismatch(from),
        ),
    decreases grid.tiles.len() - from,
{
    if from < grid.tiles.len() && grid.tile_matches(from) {
        lemma_first_mismatch_is_first(grid, from + 1);
    }
}

/// A grid of whole rows that fits is packed into its atlas exactly when every
/// tile has the size that its cell asks for.
pub proof fn lemma_consistent_grid_is_packed(grid: Grid, limit: int)
    requires
        grid.has_shape(),
        grid.fits(limit),
    ensures
        grid.consistent() <==> packed(grid, limit) == Ok::<ImageView, CompositorError>(
            grid.atlas(),
        ),
        !grid.consistent() <==> packed(grid, limit) matches Err(
            CompositorError::InconsistentGrid { .. },
        ),
{
    lemma_first_mismatch_is_first(grid, 0);
}

/// A column count that is zero, or that does not divide the number of images,
/// is refused as such, whatever the images are and however many (but none).
pub proof fn lemma_uneven_columns_refused(grid: Grid, limit: int)
    requires
        grid.tiles.len() >= 1,
        grid.columns <= 0 || grid.tiles.len() as int % grid.columns != 0,
    ensures
        packed(grid, limit) == Err::<ImageView, CompositorError>(
            CompositorError::InvalidColumnCount,
        ),
{
}

/// An atlas that would be longer than a length can be is refused as such, and
/// so is one whose width or height would be.
pub proof fn lemma_oversized_refused(grid: Grid, limit: int)
    requires
        grid.has_shape(),
        grid.total_len() > limit || grid.total_width() > limit || grid.total_height() > limit,
    ensures
        packed(grid, limit) == Err::<ImageView, CompositorError>(CompositorError::SizeOverflow),
{
}

/// Packing a single image in one column gives that image back, byte for byte.
pub proof fn lemma_single_image_unchanged(image: Image)
    requires
        image@.wf(),
    ensures
        packed(grid_of(seq![image], 1), usize::MAX as int) == Ok::<ImageView, CompositorError>(
            image@,
        ),
{
    let grid = grid_of(seq![image], 1);
    let tile = image@;
    let w = tile.width as int;
    let h = tile.height as int;
    image.lemma_view_in_bounds();
    assert(grid.tiles[0] == tile);
    assert(grid.has_shape());
    assert(grid.rows() == 1);
    assert(grid.total_width() == w) by (nonlinear_arith)
        requires
            grid.total_width() == w * (1 - 1) + w,
    ;
    assert(grid.total_height() == h) by (nonlinear_arith)
        requires
            grid.total_height() == h * (1 - 1) + h,
    ;
    assert(grid.tile_matches(0));
    assert(grid.first_mismatch(1) == 1);
    assert(grid.first_mismatch(0) == 1);
    assert forall|k: int| 0 <= k < grid.total_len() implies grid.atlas_byte(k) == tile.pixels[k] by {
        lemma_texel_of_byte(k, w, h);
        let x = (k / 4) % w;
        let y = (k / 4) / w;
        assert(w * (1 - 1) == 0 && h * (1 - 1) == 0) by (nonlinear_arith);
        assert(grid.col_of(x) == 0);
        assert(grid.row_of(y) == 0);
        assert(grid.tile(0, 0) == tile);
        assert(0 * grid.main_width() == 0 && 0 * grid.main_height() == 0);
    }
    assert(grid.atlas().pixels =~= tile.pixels);
}

/// Length of a grid axis that has `count` bands, all `main` long but the final
/// one, which is `last` long; `None` where that length is more than a length
/// can be.
pub(crate) fn axis_length(main: usize, last: usize, count: usize) -> (r: Option<usize>)
    requires
        count >= 1,
    ensures
        r == if main * (count - 1) + last <= usize::MAX {
            Some((main * (count - 1) + last) as usize)
        } else {
            None
        },
{
    assert(0 <= main * (count - 1)) by (nonlinear_arith)
        requires
            0 <= main,
            1 <= count,
    ;
    match main.checked_mul(count - 1) {
        None => None,
        Some(body) => body.checked_add(last),
    }
}

/// Looks for the first tile, in row-major order, whose size is not what its
/// cell asks for, and reports it.
pub(crate) fn find_mismatch(images: &[Image], columns: usize) -> (r: Option<CompositorError>)
    requires
        grid_of(images@, columns as int).has_shape(),
    ensures
        ({
            let grid = grid_of(images@, columns as int);
            let first = grid.first_mismatch(0);
            r == if first < grid.tiles.len() {
                Some(mismatch_at(grid, first))
            } else {
                None
            }
        }),
        r is None ==> grid_of(images@, columns as int).consistent(),
{
    let ghost grid = grid_of(images@, columns as int);
    let n: usize = images.len();
    let rows: usize = n / columns;
    let main_width: usize = images[0].width();
    let main_height: usize = images[0].height();
    let last_width: usize = images[n - 1].width();
    let last_height: usize = images[n - 1].height();
    proof {
        lemma_rows_positive(grid);
    }
    let mut i: usize = 0;
    while i < n
        invariant
            i <= n,
            n == images@.len(),
            columns > 0,
            rows >= 1,
            rows == grid.rows(),
            grid == grid_of(images@, columns as int),
            main_width == grid.main_width(),
            main_height == grid.main_height(),
            last_width == grid.last_width(),
            last_height == grid.last_height(),
            grid.first_mismatch(0) == grid.first_mismatch(i as int),
            forall|j: int| 0 <= j < i ==> #[trigger] grid.tile_matches(j),
        decreases n - i,
    {
        let row: usize = i / columns;
        let col: usize = i % columns;
        let width: usize = images[i].width();
        let height: usize = images[i].height();
        let expected_width: usize = if col == columns - 1 {
            last_width
        } else {
            main_width
        };
        let expected_height: usize = if row == rows - 1 {
            last_height
        } else {
            main_height
        };
        if width != expected_width || height != expected_height {
            return Some(
                CompositorError::InconsistentGrid {
                    row,
                    col,
                    expected: (expected_width, expected_height),
                    actual: (width, height),
                },
            );
        }
        i += 1;
    }
    None
}

/// Copies every tile of a consistent grid to its place in `out`, which then
/// holds the atlas.
fn place_tiles(out: &mut Vec<u8>, images: &[Image], columns: usize)
    requires
        grid_of(images@, columns as int).has_shape(),
        grid_of(images@, columns as int).consistent(),
        grid_of(images@, columns as int).fits(usize::MAX as int),
        grid_of(images@, columns as int).total_len() > 0,
        old(out)@.len() == grid_of(images@, columns as int).total_len(),
    ensures
        final(out)@ == grid_of(images@, columns as int).atlas().pixels,
{
    let ghost grid = grid_of(images@, columns as int);
    let n: usize = images.len();
    let rows: usize = n / columns;
    let main_width: usize = images[0].width();
    let main_height: usize = images[0].height();
    let last_width: usize = images[n - 1].width();
    proof {
        lemma_rows_positive(grid);
        assert(grid.total_width() > 0 && grid.total_height() > 0) by (nonlinear_arith)
            requires
                grid.total_width() * grid.total_height() * 4 > 0,
                grid.total_width() >= 0,
                grid.total_height() >= 0,
        ;
        assert(grid.total_width() * 4 <= grid.total_width() * grid.total_height() * 4)
            by (nonlinear_arith)
            requires
                grid.total_width() > 0,
                grid.total_height() > 0,
        ;
    }
    let total_width: usize = main_width * (columns - 1) + last_width;
    let stride: usize = total_width * 4;
    proof {
        assert forall|k: int| 0 <= k < out@.len() implies grid.tile_of_byte(k) >= 0 by {
            lemma_cell_of_byte(grid, k);
            let w = grid.total_width();
            lemma_cell_index(grid, grid.row_of((k / 4) / w), grid.col_of((k / 4) % w));
        }
    }
    let mut row: usize = 0;
    while row < rows
        invariant
            row <= rows,
            n == images@.len(),
            rows == grid.rows(),
            grid == grid_of(images@, columns as int),
            grid.has_shape(),
            grid.consistent(),
            grid.fits(usize::MAX as int),
            main_width == grid.main_width(),
            main_height == grid.main_height(),
            total_width == grid.total_width(),
            total_width > 0,
            grid.total_height() > 0,
            stride == total_width * 4,
            out@.len() == grid.total_len(),
            covered(grid, out@, row * columns),
        decreases rows - row,
    {
        let mut col: usize = 0;
        while col < columns
            invariant
                col <= columns,
                row < rows,
                n == images@.len(),
                rows == grid.rows(),
                grid == grid_of(images@, columns as int),
                grid.has_shape(),
                grid.consistent(),
                grid.fits(usize::MAX as int),
                main_width == grid.main_width(),
                main_height == grid.main_height(),
                total_width == grid.total_width(),
                total_width > 0,
                grid.total_height() > 0,
                stride == total_width * 4,
                out@.len() == grid.total_len(),
                covered(grid, out@, row * columns + col),
            decreases columns - col,
        {
            proof {
                lemma_cell_index(grid, row as int, col as int);
            }
            let tile = &images[row * columns + col];
            let tile_width: usize = tile.width();
            let tile_height: usize = tile.height();
            let ghost before = out@;
            proof {
                assert(grid.tile_matches(row * columns + col));
                lemma_band_inside(
                    grid.main_width(),
                    grid.last_width(),
                    grid.columns,
                    col as int,
                );
                lemma_band_inside(
                    grid.main_height(),
                    grid.last_height(),
                    grid.rows(),
                    row as int,
                );
                lemma_tile_placed(grid, before, row as int, col as int);
            }
            if tile_width > 0 && tile_height > 0 {
                proof {
                    lemma_block_inside(
                        row * main_height,
                        col * main_width,
                        tile_width as int,
                        tile_height as int,
                        total_width as int,
                        grid.total_height(),
                    );
                }
                assert((tile_width * 4) * tile_height == tile_width * tile_height * 4)
                    by (nonlinear_arith);
                let origin: usize = ((row * main_height) * total_width + col * main_width) * 4;
                copy_block(out, origin, stride, tile.pixels(), tile_width * 4, tile_height);
            } else {
                assert(grid.with_tile(before, row as int, col as int) =~= before);
            }
            assert(out@ == grid.with_tile(before, row as int, col as int));
            col += 1;
        }
        assert((row + 1) * columns == row * columns + columns) by (nonlinear_arith);
        row += 1;
    }
    proof {
        assert forall|k: int| 0 <= k < out@.len() implies out@[k] == grid.atlas_byte(k) by {
            lemma_cell_of_byte(grid, k);
            let w = grid.total_width();
            lemma_cell_index(grid, grid.row_of((k / 4) / w), grid.col_of((k / 4) % w));
            assert(grid.tile_of_byte(k) < rows * columns);
        }
        assert(out@ =~= grid.atlas().pixels);
    }
}

/// A block of `th` rows of `tw` texels whose first texel lies in column `x0`
/// of row `y0` of a `w` by `h` buffer, and which does not reach past the
/// buffer's right and lower edges, lies inside the buffer.
proof fn lemma_block_inside(y0: int, x0: int, tw: int, th: int, w: int, h: int)
    requires
        0 <= y0,
        0 <= x0,
        0 < tw,
        0 < th,
        x0 + tw <= w,
        y0 + th <= h,
    ensures
        0 <= y0 * w,
        0 <= y0 * w + x0,
        (y0 * w + x0) * 4 + (th - 1) * (w * 4) + tw * 4 <= w * h * 4,
        tw * 4 <= w * 4,
{
    assert(0 <= y0 * w) by (nonlinear_arith)
        requires
            0 <= y0,
            0 <= w,
    ;
    assert((y0 + th - 1) * w <= (h - 1) * w) by (nonlinear_arith)
        requires
            y0 + th - 1 <= h - 1,
            0 <= w,
    ;
    assert((y0 * w + x0) * 4 + (th - 1) * (w * 4) + tw * 4 == ((y0 + th - 1) * w + x0 + tw) * 4)
        by (nonlinear_arith);
    assert((h - 1) * w + w == w * h) by (nonlinear_arith);
}

/// Packs `images` into one atlas, a grid of `columns` columns filled row by
/// row in the order given. Every column but the last is as wide as the first
/// image and every row but the last as high; the last column and row take
/// their size from the final image.
pub fn pack_imgs(images: &[Image], columns: usize) -> (r: Result<Image, CompositorError>)
    ensures
        match r {
            Ok(atlas) => packed(grid_of(images@, columns as int), usize::MAX as int) == Ok::<
                ImageView,
                CompositorError,
            >(atlas@),
            Err(e) => packed(grid_of(images@, columns as int), usize::MAX as int) == Err::<
                ImageView,
                CompositorError,
            >(e),
        },
        r matches Ok(atlas) ==> atlas@.wf(),
{
    let ghost grid = grid_of(images@, columns as int);
    let n: usize = images.len();
    if n == 0 {
        return Err(CompositorError::Empty);
    }
    if columns == 0 || n % columns != 0 {
        return Err(CompositorError::InvalidColumnCount);
    }
    let rows: usize = n / columns;
    proof {
        lemma_rows_positive(grid);
    }
    let total_width = match axis_length(images[0].width(), images[n - 1].width(), columns) {
        Some(length) => length,
        None => {
            return Err(CompositorError::SizeOverflow);
        },
    };
    let total_height = match axis_length(images[0].height(), images[n - 1].height(), rows) {
        Some(length) => length,
        None => {
            return Err(CompositorError::SizeOverflow);
        },
    };
    let size = match rgba_bytes(total_width, total_height) {
        Some(bytes) => bytes,
        None => {
            return Err(CompositorError::SizeOverflow);
        },
    };
    match find_mismatch(images, columns) {
        Some(e) => {
            return Err(e);
        },
        None => {},
    }
    let mut out: Vec<u8> = vec![0u8; size];
    if size > 0 {
        place_tiles(&mut out, images, columns);
    } else {
        assert(out@ =~= grid.atlas().pixels);
    }
    Ok(Image::from_parts(out, total_width, total_height))
}

} // verus!
