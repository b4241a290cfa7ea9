//! Glyph cells and the grid of them that stands for an image: one cell for
//! each pixel, row by row from the top, each row from the left.

use vstd::prelude::*;
use crate::ramp::{channel_sum, ramp_position, Ramp};
use crate::raster::{lemma_scanned_rows, Raster, RasterView, Rgba};

verus! {

/// One pixel as it is shown: its colour, its opacity where the image
/// carries one, and the glyph chosen for its brightness.
#[derive(Clone, Copy, Debug, PartialEq, Eq, Structural)]
pub struct Cell {
    pub r: u8,
    pub g: u8,
    pub b: u8,
    pub alpha: Option<u8>,
    pub glyph: char,
}

/// Rows of cells, top to bottom; the cells of a row run left to right.
#[derive(Debug, PartialEq, Eq)]
pub struct GlyphGrid {
    pub rows: Vec<Vec<Cell>>,
}

impl View for GlyphGrid {
    type V = Seq<Seq<Cell>>;

    open spec fn view(&self) -> Seq<Seq<Cell>> {
        Seq::new(self.rows@.len(), |y: int| self.rows@[y]@)
    }
}

/// The cell for one pixel under a ramp: the pixel's own colour, its alpha
/// if transparency is honoured, and the glyph at the ramp position that
/// the pixel's brightness selects.
pub open spec fn cell_of(px: Rgba, ramp: Seq<char>, transparency: bool) -> Cell {
    Cell {
        r: px.r,
        g: px.g,
        b: px.b,
        alpha: if transparency {
            Some(px.a)
        } else {
            None
        },
        glyph: ramp[ramp_position(channel_sum(px.r, px.g, px.b), ramp.len() as int)],
    }
}

/// The cells of row `y` of an image.
pub open spec fn row_of(img: RasterView, ramp: Seq<char>, transparency: bool, y: int) -> Seq<Cell> {
    Seq::new(img.width as nat, |x: int| cell_of(img.pixel(x, y), ramp, transparency))
}

/// Number of rows in the grid of an image: one for each row that holds a
/// pixel.
pub open spec fn grid_rows(img: RasterView) -> nat {
    if img.width == 0 {
        0
    } else {
        img.height as nat
    }
}

/// The grid of an image: cell `x` of row `y` is the cell of the pixel in
/// column `x` of row `y`.
pub open spec fn grid_of(img: RasterView, ramp: Seq<char>, transparency: bool) -> Seq<Seq<Cell>> {
    Seq::new(grid_rows(img), |y: int| row_of(img, ramp, transparency, y))
}

/// A grid has as many rows as the scan of its image meets distinct row
/// coordinates, and it is empty exactly when the image has no pixel.
pub proof fn lemma_grid_rows_are_scanned_rows(img: RasterView, ramp: Seq<char>, transparency: bool)
    ensures
        img.scanned_rows().finite(),
        grid_of(img, ramp, transparency).len() == img.scanned_rows().len(),
        grid_of(img, ramp, transparency).len() == 0 <==> img.is_empty(),
{
    lemma_scanned_rows(img);
}

/// Computes [`cell_of`].
pub fn cell_for(px: Rgba, ramp: &Ramp, transparency: bool) -> (cell: Cell)
    ensures
        cell == cell_of(px, ramp@, transparency),
{
    let glyph = ramp.glyph_for(px.r, px.g, px.b);
    let alpha = if transparency {
        Some(px.a)
    } else {
        None
    };
    Cell { r: px.r, g: px.g, b: px.b, alpha, glyph }
}

/// Turns an image into its grid of cells.
///
/// The pixels are scanned row by row. A change of the row coordinate
/// closes the row in progress, and the last row is added once the scan is
/// over, provided it holds a cell.
pub fn convert(img: &Raster, ramp: &Ramp, transparency: bool) -> (grid: GlyphGrid)
    ensures
        grid@ == grid_of(img@, ramp@, transparency),
{
    let width = img.width();
    let height = img.height();
    let mut rows: Vec<Vec<Cell>> = Vec::new();
    let mut row: Vec<Cell> = Vec::new();
    let mut last_y: u32 = 0;
    let mut y: u32 = 0;
    while y < height
        invariant
            y <= height,
            width == img@.width,
            height == img@.height,
            width == 0 || y == 0 ==> rows@.len() == 0 && row@.len() == 0 && last_y == 0,
            width > 0 && y > 0 ==> rows@.len() == y - 1 && last_y == y - 1 && row@ == row_of(
                img@,
                ramp@,
                transparency,
                y - 1,
            ),
            forall|j: int|
                0 <= j < rows@.len() ==> (#[trigger] rows@[j])@ == row_of(
                    img@,
                    ramp@,
                    transparency,
                    j,
                ),
        decreases height - y,
    {
        let mut x: u32 = 0;
        while x < width
            invariant
                x <= width,
                y < height,
                width == img@.width,
                height == img@.height,
                width == 0 || (x == 0 && y == 0) ==> rows@.len() == 0 && row@.len() == 0 && last_y
                    == 0,
                width > 0 && x == 0 && y > 0 ==> rows@.len() == y - 1 && last_y == y - 1 && row@ == row_of(
                    img@,
                    ramp@,
                    transparency,
                    y - 1,
                ),
                x > 0 ==> rows@.len() == y && last_y == y && row@ == row_of(
                    img@,
                    ramp@,
                    transparency,
                    y as int,
                ).subrange(0, x as int),
                forall|j: int|
                    0 <= j < rows@.len() ==> (#[trigger] rows@[j])@ == row_of(
                        img@,
                        ramp@,
                        transparency,
                        j,
                    ),
            decreases width - x,
        {
            if y != last_y {
                rows.push(row);
                row = Vec::new();
                last_y = y;
            }
            let cell = cell_for(img.pixel(x, y), ramp, transparency);
            row.push(cell);
            x += 1;
        }
        y += 1;
    }
    if row.len() > 0 {
        rows.push(row);
    }
    GlyphGrid { rows }
}

} // verus!
