//! The terminal emulator (the `vt100` crate) and a plain-value snapshot of
//! its visible screen.
use vstd::prelude::*;
use crate::palette::TermColor;

verus! {

/// The terminal emulator: a `vt100` parser without callbacks, held opaque
/// (the parser type is generic over a callbacks trait of its crate, so it
/// is carried here rather than named in signatures).
#[verifier::external_body]
pub struct Emulator {
    parser: vt100::Parser,
}

/// The visible state of a `vt100` terminal.
#[verifier::external_type_specification]
#[verifier::external_body]
pub struct ExScreen(vt100::Screen);

/// One character cell of a `vt100` screen.
#[verifier::external_type_specification]
#[verifier::external_body]
pub struct ExCell(vt100::Cell);

/// The size (rows, columns) of the emulator's cell grid, the limit it was
/// made with: what `vt100::Screen::size` reports.
pub uninterp spec fn terminal_size(emulator: Emulator) -> (u16, u16);

/// The emulator `vt100::Parser::new` makes for a `rows` x `cols` grid with
/// `scrollback_len` lines of scrollback.
pub uninterp spec fn fresh_emulator(rows: u16, cols: u16, scrollback_len: usize) -> Emulator;

/// The emulator after `vt100::Parser::process` has consumed `bytes`.
pub uninterp spec fn processed(emulator: Emulator, bytes: Seq<u8>) -> Emulator;

/// The emulator after `vt100::Parser::set_size` to `rows` x `cols`.
pub uninterp spec fn resized(emulator: Emulator, rows: u16, cols: u16) -> Emulator;

/// The screen `vt100::Parser::screen` shows for the emulator.
pub uninterp spec fn screen_of(emulator: Emulator) -> vt100::Screen;

/// `vt100::Screen::cursor_position` of a screen: (row, column).
pub uninterp spec fn cursor_of(screen: vt100::Screen) -> (u16, u16);

/// `vt100::Screen::hide_cursor` of a screen.
pub uninterp spec fn cursor_hidden(screen: vt100::Screen) -> bool;

/// `vt100::Screen::cell` of a screen at (row, col).
pub uninterp spec fn cell_at(screen: vt100::Screen, row: u16, col: u16) -> Option<vt100::Cell>;

/// `vt100::Cell::contents` of a cell, as characters.
pub uninterp spec fn cell_text(cell: vt100::Cell) -> Seq<char>;

/// `vt100::Cell::fgcolor` of a cell.
pub uninterp spec fn cell_fg(cell: vt100::Cell) -> TermColor;

/// `vt100::Cell::bgcolor` of a cell.
pub uninterp spec fn cell_bg(cell: vt100::Cell) -> TermColor;

/// `vt100::Cell::inverse` of a cell.
pub uninterp spec fn cell_is_inverse(cell: vt100::Cell) -> bool;

/// `vt100::Cell::underline` of a cell.
pub uninterp spec fn cell_is_underlined(cell: vt100::Cell) -> bool;

/// `vt100::Cell::is_wide_continuation` of a cell.
pub uninterp spec fn cell_is_continuation(cell: vt100::Cell) -> bool;

/// `vt100::Parser::new`: an emulator of `rows` x `cols` cells keeping
/// `scrollback_len` lines of scrollback. The crate takes the sizes as
/// non-zero numbers, so both must be positive. Claimed: the result is the
/// emulator these arguments make (named `fresh_emulator`), and its grid has
/// the size asked for (both of its grids are made with it). What the new
/// cells, cursor and modes are is left to that name.
#[verifier::external_body]
pub(crate) fn new_emulator(rows: u16, cols: u16, scrollback_len: usize) -> (emulator: Emulator)
    requires
        rows > 0,
        cols > 0,
    ensures
        emulator == fresh_emulator(rows, cols, scrollback_len),
        terminal_size(emulator) == (rows, cols),
{
    let rows = std::num::NonZeroU16::new(rows).unwrap();
    let cols = std::num::NonZeroU16::new(cols).unwrap();
    Emulator { parser: vt100::Parser::new(rows, cols, scrollback_len) }
}

/// `vt100::Parser::process`: feeds terminal output bytes to the emulator.
/// Claimed: the result is what processing these bytes gives (named
/// `processed`), and the grid size does not change (only `set_size` changes
/// it; a terminal reset rebuilds the screen with the same size). The crate
/// takes any byte string.
#[verifier::external_body]
pub(crate) fn emulator_process(emulator: &mut Emulator, bytes: &[u8])
    ensures
        *final(emulator) == processed(*old(emulator), bytes@),
        terminal_size(*final(emulator)) == terminal_size(*old(emulator)),
{
    emulator.parser.process(bytes)
}

/// `vt100::Parser::set_size`: resizes the terminal. The crate takes the
/// sizes as non-zero numbers, so both must be positive. Claimed: the result
/// is what this resize gives (named `resized`), and the grid has the new
/// size.
#[verifier::external_body]
pub(crate) fn emulator_set_size(emulator: &mut Emulator, rows: u16, cols: u16)
    requires
        rows > 0,
        cols > 0,
    ensures
        *final(emulator) == resized(*old(emulator), rows, cols),
        terminal_size(*final(emulator)) == (rows, cols),
{
    let rows = std::num::NonZeroU16::new(rows).unwrap();
    let cols = std::num::NonZeroU16::new(cols).unwrap();
    emulator.parser.set_size(rows, cols)
}

/// `vt100::Parser::screen`: the emulator's current screen (named
/// `screen_of`).
#[verifier::external_body]
pub(crate) fn emulator_screen(emulator: &Emulator) -> (screen: &vt100::Screen)
    ensures
        *screen == screen_of(*emulator),
{
    emulator.parser.screen()
}

/// `vt100::Screen::cursor_position`: the cursor as (row, column), named
/// `cursor_of`.
#[verifier::external_body]
pub(crate) fn screen_cursor_position(screen: &vt100::Screen) -> (pos: (u16, u16))
    ensures
        pos == cursor_of(*screen),
{
    screen.cursor_position()
}

/// `vt100::Screen::hide_cursor`: whether the program asked to hide the
/// cursor, named `cursor_hidden`.
#[verifier::external_body]
pub(crate) fn screen_hide_cursor(screen: &vt100::Screen) -> (hidden: bool)
    ensures
        hidden == cursor_hidden(*screen),
{
    screen.hide_cursor()
}

/// `vt100::Screen::cell`: the visible cell at (row, col), if it exists,
/// named `cell_at`.
#[verifier::external_body]
pub(crate) fn screen_cell(screen: &vt100::Screen, row: u16, col: u16) -> (cell: Option<&vt100::Cell>)
    ensures
        match cell_at(*screen, row, col) {
            Some(c) => cell matches Some(r) && *r == c,
            None => cell is None,
        },
{
    screen.cell(row, col)
}

/// `vt100::Cell::contents`: the cell's text (a character and any combining
/// characters), named `cell_text`.
#[verifier::external_body]
pub(crate) fn cell_contents(cell: &vt100::Cell) -> (text: String)
    ensures
        text@ == cell_text(*cell),
{
    cell.contents().to_string()
}

/// `vt100::Cell::fgcolor`, with the crate's colour enum moved variant by
/// variant into `TermColor`; named `cell_fg`.
#[verifier::external_body]
pub(crate) fn cell_fgcolor(cell: &vt100::Cell) -> (color: TermColor)
    ensures
        color == cell_fg(*cell),
{
    match cell.fgcolor() {
        vt100::Color::Default => TermColor::Default,
        vt100::Color::Idx(index) => TermColor::Idx(index),
        vt100::Color::Rgb(r, g, b) => TermColor::Rgb(r, g, b),
    }
}

/// `vt100::Cell::bgcolor`, with the crate's colour enum moved variant by
/// variant into `TermColor`; named `cell_bg`.
#[verifier::external_body]
pub(crate) fn cell_bgcolor(cell: &vt100::Cell) -> (color: TermColor)
    ensures
        color == cell_bg(*cell),
{
    match cell.bgcolor() {
        vt100::Color::Default => TermColor::Default,
        vt100::Color::Idx(index) => TermColor::Idx(index),
        vt100::Color::Rgb(r, g, b) => TermColor::Rgb(r, g, b),
    }
}

/// `vt100::Cell::inverse`: whether the cell is drawn in reverse video,
/// named `cell_is_inverse`.
#[verifier::external_body]
pub(crate) fn cell_inverse(cell: &vt100::Cell) -> (inverse: bool)
    ensures
        inverse == cell_is_inverse(*cell),
{
    cell.inverse()
}

/// `vt100::Cell::underline`: whether the cell is underlined, named
/// `cell_is_underlined`.
#[verifier::external_body]
pub(crate) fn cell_underline(cell: &vt100::Cell) -> (underline: bool)
    ensures
        underline == cell_is_underlined(*cell),
{
    cell.underline()
}

/// `vt100::Cell::is_wide_continuation`: whether the cell holds the right
/// half of a double-width character, named `cell_is_continuation`.
#[verifier::external_body]
pub(crate) fn cell_is_wide_continuation(cell: &vt100::Cell) -> (continuation: bool)
    ensures
        continuation == cell_is_continuation(*cell),
{
    cell.is_wide_continuation()
}

/// The drawing-relevant content of one cell.
pub ghost struct CellModel {
    pub text: Seq<char>,
    pub fg: TermColor,
    pub bg: TermColor,
    pub inverse: bool,
    pub underline: bool,
    pub wide_continuation: bool,
}

/// The drawing-relevant content of one cell, as plain values.
#[derive(Debug)]
pub struct CellView {
    pub text: String,
    pub fg: TermColor,
    pub bg: TermColor,
    pub inverse: bool,
    pub underline: bool,
    pub wide_continuation: bool,
}

impl View for CellView {
    type V = CellModel;

    open spec fn view(&self) -> CellModel {
        CellModel {
            text: self.text@,
            fg: self.fg,
            bg: self.bg,
            inverse: self.inverse,
            underline: self.underline,
            wide_continuation: self.wide_continuation,
        }
    }
}

/// A screen snapshot: the grid in row-major order (`None` where the
/// terminal has no cell), the cursor and whether it is hidden.
pub ghost struct SnapshotModel {
    pub rows: nat,
    pub cols: nat,
    pub cells: Seq<Option<CellModel>>,
    pub cursor_row: u16,
    pub cursor_col: u16,
    pub hide_cursor: bool,
}

/// The view of an optional cell.
pub open spec fn cell_model(cell: Option<CellView>) -> Option<CellModel> {
    match cell {
        Some(c) => Some(c@),
        None => None,
    }
}

/// The visible screen of the terminal as plain values.
#[derive(Debug)]
pub struct ScreenSnapshot {
    pub rows: u16,
    pub cols: u16,
    pub cells: Vec<Option<CellView>>,
    pub cursor_row: u16,
    pub cursor_col: u16,
    pub hide_cursor: bool,
}

impl View for ScreenSnapshot {
    type V = SnapshotModel;

    open spec fn view(&self) -> SnapshotModel {
        SnapshotModel {
            rows: self.rows as nat,
            cols: self.cols as nat,
            cells: self.cells@.map_values(|c: Option<CellView>| cell_model(c)),
            cursor_row: self.cursor_row,
            cursor_col: self.cursor_col,
            hide_cursor: self.hide_cursor,
        }
    }
}

impl SnapshotModel {
    /// A snapshot holds exactly one entry per grid position.
    pub open spec fn wf(self) -> bool {
        self.cells.len() == self.rows * self.cols
    }
}

/// The drawing-relevant content of an emulator cell.
pub open spec fn cell_model_of(c: vt100::Cell) -> CellModel {
    CellModel {
        text: cell_text(c),
        fg: cell_fg(c),
        bg: cell_bg(c),
        inverse: cell_is_inverse(c),
        underline: cell_is_underlined(c),
        wide_continuation: cell_is_continuation(c),
    }
}

/// What the screen shows at (row, col): its cell, if there is one.
pub open spec fn screen_cell_model(screen: vt100::Screen, row: u16, col: u16) -> Option<CellModel> {
    match cell_at(screen, row, col) {
        Some(c) => Some(cell_model_of(c)),
        None => None,
    }
}

/// The emulator's visible screen as a `rows` x `cols` snapshot: its cells in
/// row-major order, its cursor and whether the cursor is hidden.
pub open spec fn visible(emulator: Emulator, rows: u16, cols: u16) -> SnapshotModel {
    let screen = screen_of(emulator);
    SnapshotModel {
        rows: rows as nat,
        cols: cols as nat,
        cells: Seq::new(
            (rows * cols) as nat,
            |k: int| screen_cell_model(screen, (k / cols as int) as u16, (k % cols as int) as u16),
        ),
        cursor_row: cursor_of(screen).0,
        cursor_col: cursor_of(screen).1,
        hide_cursor: cursor_hidden(screen),
    }
}

fn capture_cell(screen: &vt100::Screen, row: u16, col: u16) -> (cell: Option<CellView>)
    ensures
        cell_model(cell) == screen_cell_model(*screen, row, col),
{
    match screen_cell(screen, row, col) {
        Some(c) => Some(CellView {
            text: cell_contents(c),
            fg: cell_fgcolor(c),
            bg: cell_bgcolor(c),
            inverse: cell_inverse(c),
            underline: cell_underline(c),
            wide_continuation: cell_is_wide_continuation(c),
        }),
        None => None,
    }
}

/// Reads the `rows` x `cols` visible grid of the emulator, with its cursor,
/// into a snapshot.
pub fn capture_screen(emulator: &Emulator, rows: u16, cols: u16) -> (snapshot: ScreenSnapshot)
    ensures
        snapshot.rows == rows,
        snapshot.cols == cols,
        snapshot@.wf(),
        snapshot@ == visible(*emulator, rows, cols),
{
    let screen = emulator_screen(emulator);
    let (cursor_row, cursor_col) = screen_cursor_position(screen);
    let hide_cursor = screen_hide_cursor(screen);
    let ghost target = visible(*emulator, rows, cols);
    let mut cells: Vec<Option<CellView>> = Vec::new();
    let mut row: u16 = 0;
    while row < rows
        invariant
            row <= rows,
            *screen == screen_of(*emulator),
            target == visible(*emulator, rows, cols),
            cells@.len() == row as int * cols as int,
            forall|k: int| 0 <= k < cells@.len() ==> #[trigger] cell_model(cells@[k]) == target.cells[k],
        decreases rows - row,
    {
        let mut col: u16 = 0;
        while col < cols
            invariant
                row < rows,
                col <= cols,
                *screen == screen_of(*emulator),
                target == visible(*emulator, rows, cols),
                cells@.len() == row as int * cols as int + col as int,
                forall|k: int| 0 <= k < cells@.len() ==> #[trigger] cell_model(cells@[k]) == target.cells[k],
            decreases cols - col,
        {
            let ghost k = row as int * cols as int + col as int;
            proof {
                vstd::arithmetic::div_mod::lemma_fundamental_div_mod_converse(k, cols as int, row as int, col as int);
                assert(k < rows as int * cols as int) by (nonlinear_arith)
                    requires k == row as int * cols as int + col as int, row < rows, col < cols;
            }
            let c = capture_cell(screen, row, col);
            cells.push(c);
            assert(target.cells[k] == screen_cell_model(*screen, row, col));
            col = col + 1;
        }
        assert(row as int * cols as int + cols as int == (row as int + 1) * cols as int)
            by (nonlinear_arith);
        row = row + 1;
    }
    let snapshot = ScreenSnapshot { rows, cols, cells, cursor_row, cursor_col, hide_cursor };
    assert(snapshot@.cells =~= target.cells);
    snapshot
}

} // verus!
