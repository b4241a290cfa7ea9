//! The frame renderer: turns a grid of cells into the operations that draw
//! it, one terminal line for each row.

use vstd::prelude::*;
use vstd::string::StringExecFns;
use crate::glyph::{cell_of, Cell, GlyphGrid};
use crate::raster::Rgba;
use crate::terminal::{ops_view, TermOp, TermOpView};
use crate::text::decimal;

verus! {

/// Calls `console::colors_enabled`, which tells whether text written to
/// the standard output should be coloured. The answer depends on the
/// environment of the process, so nothing is claimed of it.
#[verifier::external_body]
fn colors_enabled() -> bool {
    console::colors_enabled()
}

/// Formats `console::style(text).true_color(r, g, b)` with styling forced
/// on or off.
///
/// Trusted: with styling off the result is the text itself; with styling
/// on it is the text between the escape sequence that selects the
/// foreground colour, with each channel in decimal, and the sequence that
/// resets all attributes.
#[verifier::external_body]
fn paint(text: &str, r: u8, g: u8, b: u8, colored: bool) -> (painted: String)
    ensures
        painted@ == styled(text@, r, g, b, colored),
{
    format!("{}", console::style(text).true_color(r, g, b).force_styling(colored))
}

/// Text with a true-colour foreground, or the bare text where colours are
/// off.
pub open spec fn styled(text: Seq<char>, r: u8, g: u8, b: u8, colored: bool) -> Seq<char> {
    if colored {
        seq!['\x1b', '[', '3', '8', ';', '2', ';'] + decimal(r as nat) + seq![';'] + decimal(
            g as nat,
        ) + seq![';'] + decimal(b as nat) + seq!['m'] + text + seq!['\x1b', '[', '0', 'm']
    } else {
        text
    }
}

/// How a frame is begun.
#[derive(Clone, Copy, Debug, PartialEq, Eq, Structural)]
pub enum DrawMode {
    /// Clear the screen first: for a single image.
    Clear,
    /// Put the cursor back at the origin and draw over what is there: for
    /// the frames of a playback, which then do not flicker.
    Reposition,
}

/// A cell whose alpha is present and zero shows nothing of its colour.
pub open spec fn is_transparent(cell: Cell) -> bool {
    cell.alpha == Some(0u8)
}

/// What a transparent cell is drawn as: two spaces.
pub open spec fn blank() -> Seq<char> {
    seq![' ', ' ']
}

/// The text of one cell: its glyph twice, side by side, in the cell's
/// colour; or [`blank`] for a transparent cell.
pub open spec fn cell_text(cell: Cell, colored: bool) -> Seq<char> {
    if is_transparent(cell) {
        blank()
    } else {
        styled(seq![cell.glyph, cell.glyph], cell.r, cell.g, cell.b, colored)
    }
}

/// The text of one row: the texts of its cells, left to right.
pub open spec fn line_text(row: Seq<Cell>, colored: bool) -> Seq<char>
    decreases row.len(),
{
    if row.len() == 0 {
        Seq::empty()
    } else {
        line_text(row.drop_last(), colored) + cell_text(row.last(), colored)
    }
}

/// The operation that begins a frame.
pub open spec fn prelude(mode: DrawMode) -> TermOpView {
    match mode {
        DrawMode::Clear => TermOpView::ClearScreen,
        DrawMode::Reposition => TermOpView::MoveCursorTo { x: 0, y: 0 },
    }
}

/// The operations that draw a grid: the prelude of the mode, one line for
/// each row from the top, and a flush once all rows are written.
pub open spec fn frame_ops(grid: Seq<Seq<Cell>>, mode: DrawMode, colored: bool) -> Seq<TermOpView> {
    seq![prelude(mode)] + Seq::new(
        grid.len(),
        |y: int| TermOpView::WriteLine(line_text(grid[y], colored)),
    ) + seq![TermOpView::Flush]
}

/// A transparent cell is drawn blank whatever its colour and glyph.
pub proof fn lemma_transparent_cell_is_blank(cell: Cell, colored: bool)
    requires
        is_transparent(cell),
    ensures
        cell_text(cell, colored) == blank(),
{
}

/// A pixel with alpha zero is drawn blank whatever its colour, under any
/// ramp, once the image is converted with its transparency honoured.
pub proof fn lemma_transparent_pixel_is_blank(px: Rgba, ramp: Seq<char>, colored: bool)
    requires
        px.a == 0,
    ensures
        cell_text(cell_of(px, ramp, true), colored) == blank(),
{
}

/// Computes [`cell_text`].
pub fn render_cell(cell: &Cell, colored: bool) -> (text: String)
    ensures
        text@ == cell_text(*cell, colored),
        is_transparent(*cell) ==> text@ == blank(),
{
    let mut text = String::new();
    match cell.alpha {
        Some(0) => {
            text.push(' ');
            text.push(' ');
            text
        },
        _ => {
            text.push(cell.glyph);
            text.push(cell.glyph);
            paint(text.as_str(), cell.r, cell.g, cell.b, colored)
        },
    }
}

/// Computes [`line_text`].
pub fn render_line(row: &Vec<Cell>, colored: bool) -> (line: String)
    ensures
        line@ == line_text(row@, colored),
{
    let mut line = String::new();
    let mut x: usize = 0;
    while x < row.len()
        invariant
            x <= row@.len(),
            line@ == line_text(row@.subrange(0, x as int), colored),
        decreases row@.len() - x,
    {
        let text = render_cell(&row[x], colored);
        line.append(text.as_str());
        assert(row@.subrange(0, x + 1).drop_last() == row@.subrange(0, x as int));
        x += 1;
    }
    assert(row@.subrange(0, x as int) == row@);
    line
}

/// Draws a grid, with colours on or off: computes [`frame_ops`].
pub fn render(grid: &GlyphGrid, mode: DrawMode, colored: bool) -> (ops: Vec<TermOp>)
    ensures
        ops_view(ops@) == frame_ops(grid@, mode, colored),
{
    let mut ops: Vec<TermOp> = Vec::new();
    match mode {
        DrawMode::Clear => ops.push(TermOp::ClearScreen),
        DrawMode::Reposition => ops.push(TermOp::MoveCursorTo { x: 0, y: 0 }),
    }
    let mut y: usize = 0;
    while y < grid.rows.len()
        invariant
            y <= grid.rows@.len(),
            ops@.len() == y + 1,
            ops@[0]@ == prelude(mode),
            forall|j: int|
                0 <= j < y ==> (#[trigger] ops@[j + 1])@ == TermOpView::WriteLine(
                    line_text(grid@[j], colored),
                ),
        decreases grid.rows@.len() - y,
    {
        let line = render_line(&grid.rows[y], colored);
        ops.push(TermOp::WriteLine(line));
        y += 1;
    }
    ops.push(TermOp::Flush);
    proof {
        let drawn = ops_view(ops@);
        let wanted = frame_ops(grid@, mode, colored);
        assert forall|i: int| 0 <= i < drawn.len() implies drawn[i] == wanted[i] by {
            if 1 <= i <= y {
                assert(ops@[(i - 1) + 1]@ == TermOpView::WriteLine(
                    line_text(grid@[i - 1], colored),
                ));
            }
        }
    }
    ops
}

/// Draws a grid in colour where the terminal takes colours, as the
/// process's environment tells, and without where it does not.
pub fn render_frame(grid: &GlyphGrid, mode: DrawMode) -> (ops: Vec<TermOp>)
    ensures
        ops_view(ops@) == frame_ops(grid@, mode, true) || ops_view(ops@) == frame_ops(
            grid@,
            mode,
            false,
        ),
{
    render(grid, mode, colors_enabled())
}

} // verus!
