//! Rendering a screen snapshot into drawing commands: every cell's
//! background first, then glyphs, underlines and the block cursor on top.
use vstd::prelude::*;
use crate::palette::{terminal_color, terminal_color_value};
use crate::screen::{CellModel, CellView, ScreenSnapshot, SnapshotModel};
use crate::wide::{encode_utf16, extend_utf16};

verus! {

/// Colour of the block cursor (light grey).
pub const CURSOR_COLOR: u32 = 0x00E6E6E6;
/// Colour of the text drawn over the block cursor (black).
pub const CURSOR_TEXT_COLOR: u32 = 0x00000000;
/// Height in pixels of an underline, drawn at the bottom of its cell.
pub const UNDERLINE_HEIGHT: i32 = 2;

/// A drawing command for the window system.
#[derive(Debug)]
pub enum DrawOp {
    /// Fill the rectangle [left, right) x [top, bottom) with a colour.
    Fill { left: i32, top: i32, right: i32, bottom: i32, color: u32 },
    /// Draw UTF-16 text in a colour with its top-left corner at (x, y).
    Text { x: i32, y: i32, color: u32, text: Vec<u16> },
}

/// A drawing command with mathematical coordinates.
pub ghost enum DrawOpModel {
    Fill { left: int, top: int, right: int, bottom: int, color: u32 },
    Text { x: int, y: int, color: u32, text: Seq<u16> },
}

impl View for DrawOp {
    type V = DrawOpModel;

    open spec fn view(&self) -> DrawOpModel {
        match self {
            DrawOp::Fill { left, top, right, bottom, color } => DrawOpModel::Fill {
                left: *left as int,
                top: *top as int,
                right: *right as int,
                bottom: *bottom as int,
                color: *color,
            },
            DrawOp::Text { x, y, color, text } => DrawOpModel::Text {
                x: *x as int,
                y: *y as int,
                color: *color,
                text: text@,
            },
        }
    }
}

/// The models of a sequence of drawing commands.
pub open spec fn ops_model(ops: Seq<DrawOp>) -> Seq<DrawOpModel> {
    ops.map_values(|op: DrawOp| op@)
}

/// Background colour of a cell: its background, or its text colour when it
/// is shown in reverse video.
pub open spec fn cell_background(c: CellModel) -> u32 {
    if c.inverse {
        terminal_color_value(c.fg, true)
    } else {
        terminal_color_value(c.bg, false)
    }
}

/// Text colour of a cell: its foreground, or its background colour when it
/// is shown in reverse video.
pub open spec fn cell_foreground(c: CellModel) -> u32 {
    if c.inverse {
        terminal_color_value(c.bg, false)
    } else {
        terminal_color_value(c.fg, true)
    }
}

/// Filling the whole cell at (row, col).
pub open spec fn fill_cell(row: int, col: int, cw: int, ch: int, color: u32) -> DrawOpModel {
    DrawOpModel::Fill {
        left: col * cw,
        top: row * ch,
        right: col * cw + cw,
        bottom: row * ch + ch,
        color,
    }
}

/// The glyph of a cell (unless it is empty or the right half of a wide
/// character) in its text colour, followed by its underline.
pub open spec fn glyph_ops(c: CellModel, row: int, col: int, cw: int, ch: int) -> Seq<DrawOpModel> {
    if c.text.len() > 0 && !c.wide_continuation {
        let color = cell_foreground(c);
        seq![DrawOpModel::Text { x: col * cw, y: row * ch, color, text: encode_utf16(c.text) }]
            + if c.underline {
            seq![
                DrawOpModel::Fill {
                    left: col * cw,
                    top: row * ch + ch - UNDERLINE_HEIGHT,
                    right: col * cw + cw,
                    bottom: row * ch + ch,
                    color,
                },
            ]
        } else {
            seq![]
        }
    } else {
        seq![]
    }
}

/// Whether the block cursor is drawn at (row, col).
pub open spec fn cursor_at(s: SnapshotModel, cursor_visible: bool, row: int, col: int) -> bool {
    cursor_visible && !s.hide_cursor && row == s.cursor_row && col == s.cursor_col
}

/// The block cursor over a cell, with the cell's text redrawn in black.
pub open spec fn cursor_ops(c: CellModel, row: int, col: int, cw: int, ch: int) -> Seq<DrawOpModel> {
    seq![fill_cell(row, col, cw, ch, CURSOR_COLOR)] + if c.text.len() > 0 {
        seq![
            DrawOpModel::Text {
                x: col * cw,
                y: row * ch,
                color: CURSOR_TEXT_COLOR,
                text: encode_utf16(c.text),
            },
        ]
    } else {
        seq![]
    }
}

/// The commands for the cell at (row, col) in the background pass
/// (`glyphs` false) or in the glyph pass (`glyphs` true). A position
/// without a cell draws nothing.
pub open spec fn cell_ops(
    s: SnapshotModel,
    cw: int,
    ch: int,
    cursor_visible: bool,
    glyphs: bool,
    row: int,
    col: int,
) -> Seq<DrawOpModel> {
    match s.cells[row * s.cols + col] {
        None => seq![],
        Some(c) => if !glyphs {
            seq![fill_cell(row, col, cw, ch, cell_background(c))]
        } else {
            glyph_ops(c, row, col, cw, ch) + if cursor_at(s, cursor_visible, row, col) {
                cursor_ops(c, row, col, cw, ch)
            } else {
                seq![]
            }
        },
    }
}

/// One pass over the first `n` cells of a row, left to right.
pub open spec fn row_ops(
    s: SnapshotModel,
    cw: int,
    ch: int,
    cursor_visible: bool,
    glyphs: bool,
    row: int,
    n: int,
) -> Seq<DrawOpModel>
    decreases n,
{
    if n <= 0 {
        seq![]
    } else {
        row_ops(s, cw, ch, cursor_visible, glyphs, row, n - 1) + cell_ops(
            s,
            cw,
            ch,
            cursor_visible,
            glyphs,
            row,
            n - 1,
        )
    }
}

/// One pass over the first `n` rows, top to bottom.
pub open spec fn grid_ops(
    s: SnapshotModel,
    cw: int,
    ch: int,
    cursor_visible: bool,
    glyphs: bool,
    n: int,
) -> Seq<DrawOpModel>
    decreases n,
{
    if n <= 0 {
        seq![]
    } else {
        grid_ops(s, cw, ch, cursor_visible, glyphs, n - 1) + row_ops(
            s,
            cw,
            ch,
            cursor_visible,
            glyphs,
            n - 1,
            s.cols as int,
        )
    }
}

/// The whole screen: all backgrounds first (so that a double-width glyph is
/// not cut in half by its neighbour's background), then all glyphs,
/// underlines and the cursor.
pub open spec fn screen_ops(s: SnapshotModel, cw: int, ch: int, cursor_visible: bool) -> Seq<
    DrawOpModel,
> {
    grid_ops(s, cw, ch, cursor_visible, false, s.rows as int) + grid_ops(
        s,
        cw,
        ch,
        cursor_visible,
        true,
        s.rows as int,
    )
}

proof fn background_row_only_fills(s: SnapshotModel, cw: int, ch: int, cv: bool, row: int, n: int)
    ensures
        forall|k: int|
            0 <= k < row_ops(s, cw, ch, cv, false, row, n).len() ==> #[trigger] row_ops(
                s,
                cw,
                ch,
                cv,
                false,
                row,
                n,
            )[k] is Fill,
    decreases n,
{
    if n > 0 {
        background_row_only_fills(s, cw, ch, cv, row, n - 1);
        let a = row_ops(s, cw, ch, cv, false, row, n - 1);
        let b = cell_ops(s, cw, ch, cv, false, row, n - 1);
        assert forall|k: int| 0 <= k < (a + b).len() implies #[trigger] (a + b)[k] is Fill by {
            if k >= a.len() {
                assert((a + b)[k] == b[k - a.len()]);
            } else {
                assert((a + b)[k] == a[k]);
            }
        }
    }
}

proof fn background_grid_only_fills(s: SnapshotModel, cw: int, ch: int, cv: bool, n: int)
    ensures
        forall|k: int|
            0 <= k < grid_ops(s, cw, ch, cv, false, n).len() ==> #[trigger] grid_ops(
                s,
                cw,
                ch,
                cv,
                false,
                n,
            )[k] is Fill,
    decreases n,
{
    if n > 0 {
        background_grid_only_fills(s, cw, ch, cv, n - 1);
        background_row_only_fills(s, cw, ch, cv, n - 1, s.cols as int);
        let a = grid_ops(s, cw, ch, cv, false, n - 1);
        let b = row_ops(s, cw, ch, cv, false, n - 1, s.cols as int);
        assert forall|k: int| 0 <= k < (a + b).len() implies #[trigger] (a + b)[k] is Fill by {
            if k >= a.len() {
                assert((a + b)[k] == b[k - a.len()]);
            } else {
                assert((a + b)[k] == a[k]);
            }
        }
    }
}

/// Backgrounds are painted before any glyph: the painted screen starts with
/// the background pass, which holds only rectangle fills, and every text
/// command comes after it.
pub proof fn backgrounds_before_glyphs(s: SnapshotModel, cw: int, ch: int, cursor_visible: bool)
    ensures
        ({
            let bg = grid_ops(s, cw, ch, cursor_visible, false, s.rows as int);
            let all = screen_ops(s, cw, ch, cursor_visible);
            &&& all.take(bg.len() as int) == bg
            &&& forall|k: int| 0 <= k < bg.len() ==> #[trigger] all[k] is Fill
        }),
{
    let bg = grid_ops(s, cw, ch, cursor_visible, false, s.rows as int);
    let all = screen_ops(s, cw, ch, cursor_visible);
    background_grid_only_fills(s, cw, ch, cursor_visible, s.rows as int);
    assert(all.take(bg.len() as int) == bg);
    assert forall|k: int| 0 <= k < bg.len() implies #[trigger] all[k] is Fill by {
        assert(all[k] == bg[k]);
    }
}

/// Pixel coordinates of a grid of the given size fit in `i32`.
pub open spec fn fits_pixels(rows: int, cols: int, cw: int, ch: int) -> bool {
    0 <= cw && 0 <= ch && cols * cw <= i32::MAX && rows * ch <= i32::MAX
}

fn cell_pass(
    c: &CellView,
    s: Ghost<SnapshotModel>,
    row: u16,
    col: u16,
    x: i32,
    y: i32,
    cw: i32,
    ch: i32,
    cursor: bool,
    glyphs: bool,
    ops: &mut Vec<DrawOp>,
)
    requires
        x == col * cw,
        y == row * ch,
        0 <= cw,
        0 <= ch,
        x + cw <= i32::MAX,
        y + ch <= i32::MAX,
    ensures
        ops_model(final(ops)@) == ops_model(old(ops)@) + if !glyphs {
            seq![fill_cell(row as int, col as int, cw as int, ch as int, cell_background(c@))]
        } else {
            glyph_ops(c@, row as int, col as int, cw as int, ch as int) + if cursor {
                cursor_ops(c@, row as int, col as int, cw as int, ch as int)
            } else {
                seq![]
            }
        },
{
    let ghost start = ops@;
    if !glyphs {
        let color = if c.inverse {
            terminal_color(c.fg, true)
        } else {
            terminal_color(c.bg, false)
        };
        ops.push(DrawOp::Fill { left: x, top: y, right: x + cw, bottom: y + ch, color });
        assert(ops_model(ops@) == ops_model(start).push(ops@.last()@));
        return ;
    }
    let ghost mid_model = ops_model(start);
    let color = if c.inverse {
        terminal_color(c.bg, false)
    } else {
        terminal_color(c.fg, true)
    };
    let empty = c.text.as_str().is_empty();
    if !empty && !c.wide_continuation {
        let mut text: Vec<u16> = Vec::new();
        extend_utf16(&mut text, c.text.as_str());
        ops.push(DrawOp::Text { x, y, color, text });
        assert(ops_model(ops@) == ops_model(start).push(ops@.last()@));
        if c.underline {
            let ghost before = ops@;
            ops.push(
                DrawOp::Fill { left: x, top: y + ch - UNDERLINE_HEIGHT, right: x + cw, bottom: y + ch, color },
            );
            assert(ops_model(ops@) == ops_model(before).push(ops@.last()@));
        }
    }
    assert(ops_model(ops@) == ops_model(start) + glyph_ops(c@, row as int, col as int, cw as int, ch as int));
    if cursor {
        let ghost before = ops@;
        ops.push(DrawOp::Fill { left: x, top: y, right: x + cw, bottom: y + ch, color: CURSOR_COLOR });
        assert(ops_model(ops@) == ops_model(before).push(ops@.last()@));
        if !empty {
            let ghost before2 = ops@;
            let mut text: Vec<u16> = Vec::new();
            extend_utf16(&mut text, c.text.as_str());
            ops.push(DrawOp::Text { x, y, color: CURSOR_TEXT_COLOR, text });
            assert(ops_model(ops@) == ops_model(before2).push(ops@.last()@));
        }
        assert(ops_model(ops@) == ops_model(before) + cursor_ops(c@, row as int, col as int, cw as int, ch as int));
    }
}

fn screen_pass(snap: &ScreenSnapshot, cw: i32, ch: i32, cursor_visible: bool, glyphs: bool, ops: &mut Vec<DrawOp>)
    requires
        snap@.wf(),
        fits_pixels(snap.rows as int, snap.cols as int, cw as int, ch as int),
    ensures
        ops_model(final(ops)@) == ops_model(old(ops)@) + grid_ops(
            snap@,
            cw as int,
            ch as int,
            cursor_visible,
            glyphs,
            snap.rows as int,
        ),
{
    let ghost s = snap@;
    let ghost start = ops_model(ops@);
    let rows = snap.rows;
    let cols = snap.cols;
    let total = snap.cells.len();
    let mut row: u16 = 0;
    let mut idx: usize = 0;
    while row < rows
        invariant
            s == snap@,
            s.wf(),
            rows == snap.rows,
            cols == snap.cols,
            total == snap.cells@.len(),
            fits_pixels(rows as int, cols as int, cw as int, ch as int),
            row <= rows,
            idx == row as int * cols as int,
            ops_model(ops@) == start + grid_ops(s, cw as int, ch as int, cursor_visible, glyphs, row as int),
        decreases rows - row,
    {
        let ghost row_start = ops_model(ops@);
        assert(row as int * ch as int + ch as int <= rows as int * ch as int) by (nonlinear_arith)
            requires row < rows, 0 <= ch;
        let y: i32 = row as i32 * ch;
        let mut col: u16 = 0;
        while col < cols
            invariant
                s == snap@,
                s.wf(),
                rows == snap.rows,
                cols == snap.cols,
                total == snap.cells@.len(),
                fits_pixels(rows as int, cols as int, cw as int, ch as int),
                row < rows,
                col <= cols,
                y == row * ch,
                y + ch <= i32::MAX,
                idx == row as int * cols as int + col as int,
                ops_model(ops@) == row_start + row_ops(s, cw as int, ch as int, cursor_visible, glyphs, row as int, col as int),
            decreases cols - col,
        {
            assert(col as int * cw as int + cw as int <= cols as int * cw as int) by (nonlinear_arith)
                requires col < cols, 0 <= cw;
            assert(idx < rows as int * cols as int) by (nonlinear_arith)
                requires idx == row as int * cols as int + col as int, row < rows, col < cols;
            let x: i32 = col as i32 * cw;
            let ghost before = ops_model(ops@);
            match &snap.cells[idx] {
                Some(c) => {
                    let cursor = cursor_visible && !snap.hide_cursor && row == snap.cursor_row
                        && col == snap.cursor_col;
                    cell_pass(c, Ghost(s), row, col, x, y, cw, ch, cursor, glyphs, ops);
                },
                None => {},
            }
            assert(s.cells[idx as int] == crate::screen::cell_model(snap.cells@[idx as int]));
            assert(ops_model(ops@) == before + cell_ops(s, cw as int, ch as int, cursor_visible, glyphs, row as int, col as int));
            col = col + 1;
            idx = idx + 1;
        }
        assert(idx == (row as int + 1) * cols as int) by (nonlinear_arith)
            requires idx == row as int * cols as int + cols as int;
        row = row + 1;
    }
}

/// The drawing commands that paint the snapshot with cells of `cw` x `ch`
/// pixels: the backgrounds of all cells, row by row, then the glyphs,
/// underlines and (when `cursor_visible` and the terminal does not hide it)
/// the block cursor.
pub fn draw_terminal_screen(snap: &ScreenSnapshot, cw: i32, ch: i32, cursor_visible: bool) -> (ops: Vec<DrawOp>)
    requires
        snap@.wf(),
        fits_pixels(snap.rows as int, snap.cols as int, cw as int, ch as int),
    ensures
        ops_model(ops@) == screen_ops(snap@, cw as int, ch as int, cursor_visible),
{
    let mut ops: Vec<DrawOp> = Vec::new();
    screen_pass(snap, cw, ch, cursor_visible, false, &mut ops);
    screen_pass(snap, cw, ch, cursor_visible, true, &mut ops);
    ops
}

} // verus!
