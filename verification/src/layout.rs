//! The geometry of a grid of tiles, as mathematics: which tile covers which
//! texel of the atlas, and what the atlas holds there.

use vstd::prelude::*;
use crate::blit::with_block;
use crate::raster::ImageView;

verus! {

/// Index of the band (a column or a row of the grid) that position `pos`
/// along one axis falls into. All bands but the last are `main` wide; the
/// last takes what is left.
pub open spec fn band_of(pos: int, main: int, count: int) -> int {
    if pos < main * (count - 1) {
        pos / main
    } else {
        count - 1
    }
}

/// Extent of band `index` along one axis: `last` for the final band, `main`
/// for every other.
pub open spec fn band_extent(index: int, main: int, last: int, count: int) -> int {
    if index == count - 1 {
        last
    } else {
        main
    }
}

/// An ordered sequence of tiles together with the number of columns they are
/// laid out in. Tile `i` sits in row `i / columns`, column `i % columns`.
pub struct Grid {
    pub tiles: Seq<ImageView>,
    pub columns: int,
}

impl Grid {
    /// There is at least one tile, and the tiles fill whole rows.
    pub open spec fn has_shape(self) -> bool {
        &&& self.tiles.len() > 0
        &&& self.columns > 0
        &&& self.tiles.len() as int % self.columns == 0
    }

    /// Number of rows that the tiles fill.
    pub open spec fn rows(self) -> int {
        self.tiles.len() as int / self.columns
    }

    /// Width of the first tile: the width of every column but the last.
    pub open spec fn main_width(self) -> int {
        self.tiles[0].width as int
    }

    /// Height of the first tile: the height of every row but the last.
    pub open spec fn main_height(self) -> int {
        self.tiles[0].height as int
    }

    /// Width of the final tile: the width of the last column.
    pub open spec fn last_width(self) -> int {
        self.tiles[self.tiles.len() - 1].width as int
    }

    /// Height of the final tile: the height of the last row.
    pub open spec fn last_height(self) -> int {
        self.tiles[self.tiles.len() - 1].height as int
    }

    /// Width of the atlas: every column but the last is as wide as the first
    /// tile, the last as wide as the final one.
    pub open spec fn total_width(self) -> int {
        self.main_width() * (self.columns - 1) + self.last_width()
    }

    /// Height of the atlas: every row but the last is as high as the first
    /// tile, the last as high as the final one.
    pub open spec fn total_height(self) -> int {
        self.main_height() * (self.rows() - 1) + self.last_height()
    }

    /// Number of bytes in the atlas.
    pub open spec fn total_len(self) -> int {
        self.total_width() * self.total_height() * 4
    }

    /// The atlas and its dimensions can be held with lengths up to `limit`.
    pub open spec fn fits(self, limit: int) -> bool {
        &&& self.total_width() <= limit
        &&& self.total_height() <= limit
        &&& self.total_len() <= limit
    }

    /// Width that the tile in column `col` must have.
    pub open spec fn expected_width(self, col: int) -> int {
        band_extent(col, self.main_width(), self.last_width(), self.columns)
    }

    /// Height that the tile in row `row` must have.
    pub open spec fn expected_height(self, row: int) -> int {
        band_extent(row, self.main_height(), self.last_height(), self.rows())
    }

    /// The tile in row `row`, column `col`.
    pub open spec fn tile(self, row: int, col: int) -> ImageView {
        self.tiles[row * self.columns + col]
    }

    /// Tile `i` has the size that its cell asks for.
    pub open spec fn tile_matches(self, i: int) -> bool {
        &&& self.tiles[i].width == self.expected_width(i % self.columns)
        &&& self.tiles[i].height == self.expected_height(i / self.columns)
    }

    /// Every tile has the size that its cell asks for.
    pub open spec fn consistent(self) -> bool {
        forall|i: int| 0 <= i < self.tiles.len() ==> #[trigger] self.tile_matches(i)
    }

    /// Index of the first tile at or after `from`, in row-major order, whose
    /// size is not what its cell asks for; the number of tiles if there is none.
    pub open spec fn first_mismatch(self, from: int) -> int
        decreases self.tiles.len() - from,
    {
        if from < 0 || from >= self.tiles.len() {
            self.tiles.len() as int
        } else if !self.tile_matches(from) {
            from
        } else {
            self.first_mismatch(from + 1)
        }
    }

    /// Column of the grid that atlas column `x` belongs to.
    pub open spec fn col_of(self, x: int) -> int {
        band_of(x, self.main_width(), self.columns)
    }

    /// Row of the grid that atlas row `y` belongs to.
    pub open spec fn row_of(self, y: int) -> int {
        band_of(y, self.main_height(), self.rows())
    }

    /// The byte that the atlas holds for channel `ch` of the texel in column
    /// `x` of row `y`: the byte of the tile that covers that texel, taken at
    /// the texel's position inside the tile.
    pub open spec fn texel_byte(self, x: int, y: int, ch: int) -> u8 {
        let row = self.row_of(y);
        let col = self.col_of(x);
        let tile = self.tile(row, col);
        tile.pixels[tile.offset(x - col * self.main_width(), y - row * self.main_height(), ch)]
    }

    /// Index in the atlas buffer of the first byte of the tile in row `row`,
    /// column `col`.
    pub open spec fn origin(self, row: int, col: int) -> int {
        ((row * self.main_height()) * self.total_width() + col * self.main_width()) * 4
    }

    /// `buf` after the pixel rows of the tile in row `row`, column `col` have
    /// been copied to their place in it.
    pub open spec fn with_tile(self, buf: Seq<u8>, row: int, col: int) -> Seq<u8> {
        let tile = self.tile(row, col);
        with_block(
            buf,
            self.origin(row, col),
            self.total_width() * 4,
            tile.pixels,
            tile.width as int * 4,
            tile.height as int,
        )
    }

    /// Row-major index of the tile that covers byte `k` of the atlas buffer.
    pub open spec fn tile_of_byte(self, k: int) -> int {
        let texel = k / 4;
        self.row_of(texel / self.total_width()) * self.columns + self.col_of(
            texel % self.total_width(),
        )
    }

    /// The byte at index `k` of the atlas buffer.
    pub open spec fn atlas_byte(self, k: int) -> u8 {
        let texel = k / 4;
        self.texel_byte(texel % self.total_width(), texel / self.total_width(), k % 4)
    }

    /// The composited image: every tile placed at its cell.
    pub open spec fn atlas(self) -> ImageView {
        ImageView {
            pixels: Seq::new(self.total_len() as nat, |k: int| self.atlas_byte(k)),
            width: self.total_width() as nat,
            height: self.total_height() as nat,
        }
    }
}

/// `buf` holds the atlas bytes of every texel that one of the first `upto`
/// tiles covers.
pub open spec fn covered(grid: Grid, buf: Seq<u8>, upto: int) -> bool {
    forall|k: int|
        0 <= k < buf.len() && grid.tile_of_byte(k) < upto ==> #[trigger] buf[k]
            == grid.atlas_byte(k)
}

} // verus!
