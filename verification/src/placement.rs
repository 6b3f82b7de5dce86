//! Proofs that relate a byte of the atlas buffer to the tile that covers it.

use vstd::prelude::*;
use vstd::arithmetic::div_mod::{lemma_fundamental_div_mod, lemma_fundamental_div_mod_converse};
use crate::blit::lemma_mul_le;
use crate::layout::{band_extent, band_of, covered, Grid};

verus! {

/// A position inside the grid falls into one of its bands, and inside that
/// band's extent.
pub(crate) proof fn lemma_band_bounds(pos: int, main: int, last: int, count: int)
    requires
        count >= 1,
        main >= 0,
        last >= 0,
        0 <= pos < main * (count - 1) + last,
    ensures
        0 <= band_of(pos, main, count) < count,
        band_of(pos, main, count) * main <= pos,
        pos < band_of(pos, main, count) * main + band_extent(
            band_of(pos, main, count),
            main,
            last,
            count,
        ),
{
    let b = band_of(pos, main, count);
    if pos < main * (count - 1) {
        assert(main > 0) by (nonlinear_arith)
            requires
                0 <= pos < main * (count - 1),
                main >= 0,
                count >= 1,
        ;
        lemma_fundamental_div_mod(pos, main);
        assert(b * main == main * b) by (nonlinear_arith);
        assert(b < count - 1) by (nonlinear_arith)
            requires
                main * b <= pos,
                pos < main * (count - 1),
                main > 0,
        ;
        assert(b >= 0) by (nonlinear_arith)
            requires
                pos == main * b + pos % main,
                0 <= pos,
                pos % main < main,
                main > 0,
        ;
    } else {
        assert((count - 1) * main == main * (count - 1)) by (nonlinear_arith);
    }
}

/// The band whose extent holds a position is the band of that position.
pub(crate) proof fn lemma_band_unique(pos: int, main: int, last: int, count: int, b: int)
    requires
        count >= 1,
        main >= 0,
        last >= 0,
        0 <= b < count,
        b * main <= pos < b * main + band_extent(b, main, last, count),
    ensures
        band_of(pos, main, count) == b,
{
    if b < count - 1 {
        assert(main > 0);
        assert((b + 1) * main <= (count - 1) * main) by {
            lemma_mul_le(b + 1, count - 1, main);
        }
        assert((b + 1) * main == b * main + main) by (nonlinear_arith);
        assert((count - 1) * main == main * (count - 1)) by (nonlinear_arith);
        lemma_fundamental_div_mod_converse(pos, main, b, pos - b * main);
    } else {
        assert(b * main == main * (count - 1)) by (nonlinear_arith)
            requires
                b == count - 1,
        ;
    }
}

/// Every band of a grid axis lies inside the axis.
pub(crate) proof fn lemma_band_inside(main: int, last: int, count: int, b: int)
    requires
        count >= 1,
        main >= 0,
        last >= 0,
        0 <= b < count,
    ensures
        0 <= b * main,
        b * main + band_extent(b, main, last, count) <= main * (count - 1) + last,
{
    assert(0 <= b * main) by (nonlinear_arith)
        requires
            0 <= b,
            0 <= main,
    ;
    if b < count - 1 {
        lemma_mul_le(b + 1, count - 1, main);
        assert((b + 1) * main == b * main + main) by (nonlinear_arith);
        assert((count - 1) * main == main * (count - 1)) by (nonlinear_arith);
    } else {
        assert(b * main == main * (count - 1)) by (nonlinear_arith)
            requires
                b == count - 1,
        ;
    }
}

/// The byte at index `k` of a `w` by `h` RGBA8 buffer belongs to the texel in
/// column `(k / 4) % w` of row `(k / 4) / w`, and is its channel `k % 4`.
pub(crate) proof fn lemma_texel_of_byte(k: int, w: int, h: int)
    requires
        0 <= w,
        0 <= h,
        0 <= k < w * h * 4,
    ensures
        w > 0,
        0 <= (k / 4) % w < w,
        0 <= (k / 4) / w < h,
        0 <= k % 4 < 4,
        k == (((k / 4) / w) * w + (k / 4) % w) * 4 + k % 4,
{
    assert(w > 0) by (nonlinear_arith)
        requires
            0 <= w,
            0 <= k < w * h * 4,
    ;
    let t = k / 4;
    lemma_fundamental_div_mod(k, 4);
    assert(t < w * h) by (nonlinear_arith)
        requires
            k == 4 * t + k % 4,
            0 <= k % 4,
            k < w * h * 4,
    ;
    assert(0 <= t);
    lemma_fundamental_div_mod(t, w);
    let y = t / w;
    assert(y < h) by (nonlinear_arith)
        requires
            t == w * y + t % w,
            0 <= t % w,
            t < w * h,
            w > 0,
    ;
    assert(0 <= y) by (nonlinear_arith)
        requires
            t == w * y + t % w,
            t % w < w,
            0 <= t,
            w > 0,
    ;
    assert(y * w == w * y) by (nonlinear_arith);
}

/// The byte for channel `ch` of the texel in column `x` of row `y` sits at
/// index `(y * w + x) * 4 + ch`, and at no other.
pub(crate) proof fn lemma_byte_of_texel(x: int, y: int, ch: int, w: int)
    requires
        0 <= x < w,
        0 <= y,
        0 <= ch < 4,
    ensures
        0 <= (y * w + x) * 4 + ch,
        ((y * w + x) * 4 + ch) / 4 == y * w + x,
        ((y * w + x) * 4 + ch) % 4 == ch,
        (((y * w + x) * 4 + ch) / 4) % w == x,
        (((y * w + x) * 4 + ch) / 4) / w == y,
{
    let t = y * w + x;
    let k = t * 4 + ch;
    assert(0 <= y * w) by (nonlinear_arith)
        requires
            0 <= y,
            0 <= w,
    ;
    lemma_fundamental_div_mod_converse(k, 4, t, ch);
    lemma_fundamental_div_mod_converse(t, w, y, x);
}

/// A grid with whole rows has at least one row, and tile `row * columns + col`
/// sits in row `row`, column `col`.
pub(crate) proof fn lemma_cell_index(grid: Grid, row: int, col: int)
    requires
        grid.has_shape(),
        0 <= row < grid.rows(),
        0 <= col < grid.columns,
    ensures
        0 <= row * grid.columns + col < grid.tiles.len(),
        (row * grid.columns + col) / grid.columns == row,
        (row * grid.columns + col) % grid.columns == col,
{
    let n = grid.tiles.len() as int;
    let c = grid.columns;
    lemma_fundamental_div_mod(n, c);
    assert(n == c * grid.rows());
    lemma_mul_le(row + 1, grid.rows(), c);
    assert((row + 1) * c == row * c + c) by (nonlinear_arith);
    assert(grid.rows() * c == c * grid.rows()) by (nonlinear_arith);
    assert(0 <= row * c) by (nonlinear_arith)
        requires
            0 <= row,
            0 <= c,
    ;
    lemma_fundamental_div_mod_converse(row * c + col, c, row, col);
}

/// A grid with whole rows has at least one row.
pub(crate) proof fn lemma_rows_positive(grid: Grid)
    requires
        grid.has_shape(),
    ensures
        grid.rows() >= 1,
        grid.rows() * grid.columns == grid.tiles.len(),
{
    let n = grid.tiles.len() as int;
    let c = grid.columns;
    lemma_fundamental_div_mod(n, c);
    assert(n == c * grid.rows());
    assert(grid.rows() >= 1) by (nonlinear_arith)
        requires
            n == c * grid.rows(),
            n > 0,
            c > 0,
    ;
    assert(grid.rows() * c == c * grid.rows()) by (nonlinear_arith);
}

/// Where byte `k` of the atlas lies: its texel, the cell of the grid that the
/// texel falls into, and the texel's place inside that cell.
pub(crate) proof fn lemma_cell_of_byte(grid: Grid, k: int)
    requires
        grid.has_shape(),
        0 <= k < grid.total_len(),
    ensures
        ({
            let w = grid.total_width();
            let x = (k / 4) % w;
            let y = (k / 4) / w;
            let row = grid.row_of(y);
            let col = grid.col_of(x);
            &&& w > 0
            &&& 0 <= x < w
            &&& 0 <= y < grid.total_height()
            &&& 0 <= k % 4 < 4
            &&& k == (y * w + x) * 4 + k % 4
            &&& 0 <= row < grid.rows()
            &&& 0 <= col < grid.columns
            &&& row * grid.main_height() <= y < row * grid.main_height() + grid.expected_height(row)
            &&& col * grid.main_width() <= x < col * grid.main_width() + grid.expected_width(col)
        }),
{
    lemma_rows_positive(grid);
    let w = grid.total_width();
    let h = grid.total_height();
    assert(0 <= w) by (nonlinear_arith)
        requires
            w == grid.main_width() * (grid.columns - 1) + grid.last_width(),
            grid.main_width() >= 0,
            grid.columns >= 1,
            grid.last_width() >= 0,
    ;
    assert(0 <= h) by (nonlinear_arith)
        requires
            h == grid.main_height() * (grid.rows() - 1) + grid.last_height(),
            grid.main_height() >= 0,
            grid.rows() >= 1,
            grid.last_height() >= 0,
    ;
    lemma_texel_of_byte(k, w, h);
    let x = (k / 4) % w;
    let y = (k / 4) / w;
    lemma_band_bounds(x, grid.main_width(), grid.last_width(), grid.columns);
    lemma_band_bounds(y, grid.main_height(), grid.last_height(), grid.rows());
}

/// In the atlas of a consistent grid, the texel in column `x` of row `y` of
/// the tile in row `row`, column `col` lies `row` main heights and `y` rows
/// down and `col` main widths and `x` columns to the right: channel `ch` of it
/// is the byte at index
/// `((row * main_height + y) * total_width + col * main_width + x) * 4 + ch`.
pub proof fn lemma_texel_keeps_its_place(grid: Grid, row: int, col: int, x: int, y: int, ch: int)
    requires
        grid.has_shape(),
        grid.consistent(),
        0 <= row < grid.rows(),
        0 <= col < grid.columns,
        0 <= x < grid.tile(row, col).width,
        0 <= y < grid.tile(row, col).height,
        0 <= ch < 4,
    ensures
        ({
            let k = ((row * grid.main_height() + y) * grid.total_width() + col * grid.main_width()
                + x) * 4 + ch;
            let tile = grid.tile(row, col);
            &&& 0 <= k < grid.total_len()
            &&& grid.atlas().pixels[k] == tile.pixels[tile.offset(x, y, ch)]
        }),
{
    lemma_cell_index(grid, row, col);
    lemma_rows_positive(grid);
    let w = grid.total_width();
    let h = grid.total_height();
    let mw = grid.main_width();
    let mh = grid.main_height();
    assert(grid.tile_matches(row * grid.columns + col));
    lemma_band_inside(mw, grid.last_width(), grid.columns, col);
    lemma_band_inside(mh, grid.last_height(), grid.rows(), row);
    let ax = col * mw + x;
    let ay = row * mh + y;
    let k = (ay * w + ax) * 4 + ch;
    lemma_byte_of_texel(ax, ay, ch, w);
    lemma_band_unique(ax, mw, grid.last_width(), grid.columns, col);
    lemma_band_unique(ay, mh, grid.last_height(), grid.rows(), row);
    assert(k < w * h * 4) by (nonlinear_arith)
        requires
            k == (ay * w + ax) * 4 + ch,
            0 <= ax < w,
            0 <= ay < h,
            0 <= ch < 4,
    ;
    assert(k == ((row * mh + y) * w + col * mw + x) * 4 + ch);
}

/// A byte of the atlas whose texel falls into the cell in row `row`, column
/// `col` lies inside the block that the cell's tile is copied to, and the
/// block holds there what the atlas asks for.
proof fn lemma_cell_byte_in_block(grid: Grid, buf: Seq<u8>, row: int, col: int, k: int)
    requires
        grid.has_shape(),
        grid.consistent(),
        0 <= row < grid.rows(),
        0 <= col < grid.columns,
        buf.len() == grid.total_len(),
        0 <= k < grid.total_len(),
        grid.row_of((k / 4) / grid.total_width()) == row,
        grid.col_of((k / 4) % grid.total_width()) == col,
    ensures
        grid.with_tile(buf, row, col)[k] == grid.atlas_byte(k),
{
    lemma_cell_of_byte(grid, k);
    lemma_cell_index(grid, row, col);
    lemma_rows_positive(grid);
    let w = grid.total_width();
    let mw = grid.main_width();
    let mh = grid.main_height();
    let x = (k / 4) % w;
    let y = (k / 4) / w;
    let ch = k % 4;
    let i = row * grid.columns + col;
    let tile = grid.tiles[i];
    assert(grid.tile_matches(i));
    let tw = tile.width as int;
    let th = tile.height as int;
    assert(tw == grid.expected_width(col));
    assert(th == grid.expected_height(row));
    lemma_band_inside(mw, grid.last_width(), grid.columns, col);
    assert(tw <= w);
    let xk = x - col * mw;
    let yk = y - row * mh;
    let d = k - grid.origin(row, col);
    let stride = w * 4;
    let run = tw * 4;
    assert(d == yk * stride + (xk * 4 + ch)) by (nonlinear_arith)
        requires
            d == (y * w + x) * 4 + ch - ((row * mh) * w + col * mw) * 4,
            xk == x - col * mw,
            yk == y - row * mh,
            stride == w * 4,
    ;
    assert(0 <= yk * stride) by (nonlinear_arith)
        requires
            0 <= yk,
            0 <= stride,
    ;
    lemma_fundamental_div_mod_converse(d, stride, yk, xk * 4 + ch);
    assert(yk * run + (xk * 4 + ch) == (yk * tw + xk) * 4 + ch) by (nonlinear_arith)
        requires
            run == tw * 4,
    ;
}

/// A byte that lies inside the block of the tile in row `row`, column `col`
/// belongs to a texel of that cell.
proof fn lemma_block_byte_in_cell(grid: Grid, row: int, col: int, k: int)
    requires
        grid.has_shape(),
        grid.consistent(),
        0 <= row < grid.rows(),
        0 <= col < grid.columns,
        0 <= k < grid.total_len(),
        ({
            let d = k - grid.origin(row, col);
            let stride = grid.total_width() * 4;
            &&& d >= 0
            &&& d / stride < grid.tile(row, col).height
            &&& 0 <= d % stride < grid.tile(row, col).width * 4
        }),
    ensures
        grid.row_of((k / 4) / grid.total_width()) == row,
        grid.col_of((k / 4) % grid.total_width()) == col,
{
    lemma_cell_of_byte(grid, k);
    lemma_cell_index(grid, row, col);
    lemma_rows_positive(grid);
    let w = grid.total_width();
    let mw = grid.main_width();
    let mh = grid.main_height();
    let i = row * grid.columns + col;
    let tile = grid.tiles[i];
    assert(grid.tile_matches(i));
    let tw = tile.width as int;
    let th = tile.height as int;
    lemma_band_inside(mw, grid.last_width(), grid.columns, col);
    lemma_band_inside(mh, grid.last_height(), grid.rows(), row);
    let d = k - grid.origin(row, col);
    let stride = w * 4;
    let q = d / stride;
    let rem = d % stride;
    lemma_fundamental_div_mod(d, stride);
    assert(q >= 0) by (nonlinear_arith)
        requires
            d == stride * q + rem,
            d >= 0,
            0 <= rem < stride,
            stride > 0,
    ;
    lemma_fundamental_div_mod(rem, 4);
    let xk = rem / 4;
    let ch = rem % 4;
    assert(0 <= xk < tw);
    let x = col * mw + xk;
    let y = row * mh + q;
    assert(k == (y * w + x) * 4 + ch) by (nonlinear_arith)
        requires
            k - ((row * mh) * w + col * mw) * 4 == (w * 4) * q + rem,
            rem == 4 * xk + ch,
            x == col * mw + xk,
            y == row * mh + q,
    ;
    assert(0 <= row * mh) by (nonlinear_arith)
        requires
            0 <= row,
            0 <= mh,
    ;
    lemma_byte_of_texel(x, y, ch, w);
    lemma_band_unique(x, mw, grid.last_width(), grid.columns, col);
    lemma_band_unique(y, mh, grid.last_height(), grid.rows(), row);
}

/// Copying the tile in row `row`, column `col` to its place extends what the
/// buffer holds of the atlas by the texels of that tile.
pub(crate) proof fn lemma_tile_placed(grid: Grid, buf: Seq<u8>, row: int, col: int)
    requires
        grid.has_shape(),
        grid.consistent(),
        0 <= row < grid.rows(),
        0 <= col < grid.columns,
        buf.len() == grid.total_len(),
        covered(grid, buf, row * grid.columns + col),
    ensures
        covered(grid, grid.with_tile(buf, row, col), row * grid.columns + col + 1),
{
    let i = row * grid.columns + col;
    let tile = grid.tile(row, col);
    let w = grid.total_width();
    let after = grid.with_tile(buf, row, col);
    assert forall|k: int| 0 <= k < after.len() && grid.tile_of_byte(k) < i + 1 implies #[trigger] after[k]
        == grid.atlas_byte(k) by {
        lemma_cell_of_byte(grid, k);
        let rk = grid.row_of((k / 4) / w);
        let ck = grid.col_of((k / 4) % w);
        if rk == row && ck == col {
            lemma_cell_byte_in_block(grid, buf, row, col, k);
        } else {
            lemma_cell_index(grid, row, col);
            lemma_cell_index(grid, rk, ck);
            assert(grid.tile_of_byte(k) != i);
            assert(buf[k] == grid.atlas_byte(k));
            let d = k - grid.origin(row, col);
            if d >= 0 && d / (w * 4) < tile.height && 0 <= d % (w * 4) < tile.width * 4 {
                lemma_block_byte_in_cell(grid, row, col, k);
            }
        }
    }
}

} // verus!
