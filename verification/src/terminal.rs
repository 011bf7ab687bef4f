//! The terminal host window: its message codes, the decoding of window
//! messages into events, and the decisions it makes on each event.
use vstd::prelude::*;
use crate::keys::{key_sequence, key_sequence_bytes, CTRL_C, VK_C};
use crate::render::{draw_terminal_screen, fits_pixels, ops_model, screen_ops, DrawOp};
use crate::screen::{
    capture_screen, emulator_process, emulator_set_size, fresh_emulator, new_emulator, processed,
    resized,
    terminal_size, visible, Emulator,
};
use crate::wide::{lossy_unit_utf8, unit_to_utf8};

verus! {

/// `WM_NCCREATE`: the window is being created.
pub const WM_NCCREATE: u32 = 0x0081;
/// `WM_NCDESTROY`: the window is gone.
pub const WM_NCDESTROY: u32 = 0x0082;
/// `WM_SIZE`: the client area was resized; its size is in `lparam`.
pub const WM_SIZE: u32 = 0x0005;
/// `WM_PAINT`: the window must be repainted.
pub const WM_PAINT: u32 = 0x000F;
/// `WM_CLOSE`: the window is asked to close.
pub const WM_CLOSE: u32 = 0x0010;
/// `WM_ERASEBKGND`: the background should be erased.
pub const WM_ERASEBKGND: u32 = 0x0014;
/// `WM_SETCURSOR`: the mouse cursor shape should be set.
pub const WM_SETCURSOR: u32 = 0x0020;
/// `WM_MOUSEACTIVATE`: a click would activate the window.
pub const WM_MOUSEACTIVATE: u32 = 0x0021;
/// `WM_KEYDOWN`: a key went down; its virtual-key code is in `wparam`.
pub const WM_KEYDOWN: u32 = 0x0100;
/// `WM_CHAR`: a UTF-16 code unit was typed; it is in `wparam`.
pub const WM_CHAR: u32 = 0x0102;
/// `WM_TIMER`: a timer fired; its identifier is in `wparam`.
pub const WM_TIMER: u32 = 0x0113;
/// `WM_MOUSEMOVE`: the mouse moved.
pub const WM_MOUSEMOVE: u32 = 0x0200;
/// First mouse-button or wheel message (`WM_LBUTTONDOWN`).
pub const WM_MOUSE_FIRST_BUTTON: u32 = 0x0201;
/// Last mouse-button or wheel message (`WM_MOUSEHWHEEL`).
pub const WM_MOUSE_LAST_BUTTON: u32 = 0x020E;
/// `WM_DPICHANGED`: the window's DPI changed; the new DPI is in the low
/// word of `wparam`.
pub const WM_DPICHANGED: u32 = 0x02E0;
/// `WM_APP`: the first message number free for applications.
pub const WM_APP: u32 = 0x8000;
/// Posted by the output reader when console output is waiting.
pub const WM_OUTPUT: u32 = 0x8001;
/// Posted by the controller to bring the terminal window to the front.
pub const WM_ACTIVATE_HOST: u32 = 0x8002;

/// Identifier of the cursor blink timer.
pub const CURSOR_TIMER: usize = 1;
/// Cursor blink period in milliseconds.
pub const CURSOR_BLINK_MS: u32 = 500;

/// Rows of a new terminal (and of its pseudo console).
pub const INITIAL_ROWS: u16 = 40;
/// Columns of a new terminal (and of its pseudo console).
pub const INITIAL_COLS: u16 = 120;
/// Lines of scrollback the terminal keeps.
pub const SCROLLBACK_LINES: usize = 10000;
/// DPI assumed before the window reports its own; also the lowest DPI used.
pub const BASE_DPI: u32 = 96;
/// Cell width in pixels before the first DPI update.
pub const INITIAL_CELL_WIDTH: i32 = 10;
/// Cell height in pixels before the first DPI update.
pub const INITIAL_CELL_HEIGHT: i32 = 20;
/// Height of the font created with the window, before the first DPI update.
pub const INITIAL_FONT_HEIGHT: i32 = 20;
/// Fewest rows a resized terminal has.
pub const MIN_ROWS: u16 = 5;
/// Most rows a resized terminal has.
pub const MAX_ROWS: u16 = 120;
/// Fewest columns a resized terminal has.
pub const MIN_COLS: u16 = 20;
/// Most columns a resized terminal has.
pub const MAX_COLS: u16 = 300;

/// What a window message means to the terminal window.
#[derive(Clone, Copy, Debug, PartialEq, Eq, Structural)]
pub enum TerminalEvent {
    /// The window is being created.
    Create,
    /// Console output is waiting in the shared buffer.
    Output,
    /// The controller asks the window to come to the front.
    Activate,
    /// A UTF-16 code unit was typed.
    Char(u16),
    /// A key went down.
    KeyDown(u16),
    /// The client area is now `width` x `height` pixels.
    Size { width: u32, height: u32 },
    /// The window's DPI changed.
    DpiChanged(u32),
    /// The cursor blink timer fired.
    CursorBlink,
    /// The background should be erased.
    EraseBackground,
    /// The mouse cursor shape should be set.
    SetCursor,
    /// A mouse message, which the terminal swallows.
    Mouse,
    /// The window must be repainted.
    Paint,
    /// The window is asked to close.
    Close,
    /// The window has been destroyed.
    Destroyed,
    /// Any other message, left to the default window procedure.
    Other,
}

/// The meaning of a window message for the terminal window.
pub open spec fn terminal_event(message: u32, wparam: usize, lparam: isize) -> TerminalEvent {
    if message == WM_NCCREATE {
        TerminalEvent::Create
    } else if message == WM_OUTPUT {
        TerminalEvent::Output
    } else if message == WM_ACTIVATE_HOST {
        TerminalEvent::Activate
    } else if message == WM_CHAR {
        TerminalEvent::Char(wparam as u16)
    } else if message == WM_KEYDOWN {
        TerminalEvent::KeyDown(wparam as u16)
    } else if message == WM_SIZE {
        TerminalEvent::Size {
            width: ((lparam as u32) % 0x10000) as u32,
            height: ((lparam as u32) / 0x10000) as u32,
        }
    } else if message == WM_DPICHANGED {
        TerminalEvent::DpiChanged((wparam % 0x10000) as u32)
    } else if message == WM_TIMER && wparam == CURSOR_TIMER {
        TerminalEvent::CursorBlink
    } else if message == WM_ERASEBKGND {
        TerminalEvent::EraseBackground
    } else if message == WM_SETCURSOR {
        TerminalEvent::SetCursor
    } else if message == WM_MOUSEACTIVATE || message == WM_MOUSEMOVE || (WM_MOUSE_FIRST_BUTTON
        <= message <= WM_MOUSE_LAST_BUTTON) {
        TerminalEvent::Mouse
    } else if message == WM_PAINT {
        TerminalEvent::Paint
    } else if message == WM_CLOSE {
        TerminalEvent::Close
    } else if message == WM_NCDESTROY {
        TerminalEvent::Destroyed
    } else {
        TerminalEvent::Other
    }
}

/// Decodes a window message sent to the terminal window.
pub fn decode_terminal_message(message: u32, wparam: usize, lparam: isize) -> (event: TerminalEvent)
    ensures
        event == terminal_event(message, wparam, lparam),
        event_in_range(event),
{
    if message == WM_NCCREATE {
        TerminalEvent::Create
    } else if message == WM_OUTPUT {
        TerminalEvent::Output
    } else if message == WM_ACTIVATE_HOST {
        TerminalEvent::Activate
    } else if message == WM_CHAR {
        TerminalEvent::Char(wparam as u16)
    } else if message == WM_KEYDOWN {
        TerminalEvent::KeyDown(wparam as u16)
    } else if message == WM_SIZE {
        let l = lparam as u32;
        TerminalEvent::Size { width: l % 0x10000, height: l / 0x10000 }
    } else if message == WM_DPICHANGED {
        TerminalEvent::DpiChanged((wparam % 0x10000) as u32)
    } else if message == WM_TIMER && wparam == CURSOR_TIMER {
        TerminalEvent::CursorBlink
    } else if message == WM_ERASEBKGND {
        TerminalEvent::EraseBackground
    } else if message == WM_SETCURSOR {
        TerminalEvent::SetCursor
    } else if message == WM_MOUSEACTIVATE || message == WM_MOUSEMOVE || (WM_MOUSE_FIRST_BUTTON
        <= message && message <= WM_MOUSE_LAST_BUTTON) {
        TerminalEvent::Mouse
    } else if message == WM_PAINT {
        TerminalEvent::Paint
    } else if message == WM_CLOSE {
        TerminalEvent::Close
    } else if message == WM_NCDESTROY {
        TerminalEvent::Destroyed
    } else {
        TerminalEvent::Other
    }
}

/// A typed character or a key code arrives whole: the event carries the
/// low 16 bits of `wparam`, whatever `lparam` is.
pub proof fn char_and_key_carry_low_word(wparam: usize, lparam: isize)
    ensures
        terminal_event(0x0102, wparam, lparam) == TerminalEvent::Char((wparam % 0x10000) as u16),
        terminal_event(0x0100, wparam, lparam) == TerminalEvent::KeyDown((wparam % 0x10000) as u16),
{
    assert(wparam as u16 == (wparam % 0x10000) as u16) by (bit_vector);
}

/// A resize carries the client width in the low word of `lparam` and the
/// height in the next word; a DPI change carries the new DPI in the low
/// word of `wparam`.
pub proof fn size_and_dpi_words(wparam: usize, lparam: isize)
    ensures
        terminal_event(0x0005, wparam, lparam) matches TerminalEvent::Size { width, height } && width
            < 0x10000 && width + 0x10000 * height == lparam as u32,
        terminal_event(0x02E0, wparam, lparam) matches TerminalEvent::DpiChanged(dpi) && dpi
            < 0x10000 && (wparam - dpi) % 0x10000 == 0,
{
    let l = lparam as u32;
    assert(l % 0x10000 + 0x10000 * (l / 0x10000) == l) by (nonlinear_arith);
    let d = wparam % 0x10000;
    assert((wparam - d) % 0x10000 == 0) by (nonlinear_arith)
        requires
            d == wparam % 0x10000,
    ;
}

/// The messages that carry no data are decoded by their number alone,
/// whatever their parameters: creation, console output, activation,
/// paint, close, destruction, background erase and cursor shape; the
/// timer message is the cursor blink only for the blink timer.
pub proof fn message_table(wparam: usize, lparam: isize)
    ensures
        terminal_event(0x0081, wparam, lparam) == TerminalEvent::Create,
        terminal_event(0x8001, wparam, lparam) == TerminalEvent::Output,
        terminal_event(0x8002, wparam, lparam) == TerminalEvent::Activate,
        terminal_event(0x000F, wparam, lparam) == TerminalEvent::Paint,
        terminal_event(0x0010, wparam, lparam) == TerminalEvent::Close,
        terminal_event(0x0082, wparam, lparam) == TerminalEvent::Destroyed,
        terminal_event(0x0014, wparam, lparam) == TerminalEvent::EraseBackground,
        terminal_event(0x0020, wparam, lparam) == TerminalEvent::SetCursor,
        terminal_event(0x0113, wparam, lparam) == (if wparam == 1 {
            TerminalEvent::CursorBlink
        } else {
            TerminalEvent::Other
        }),
{
}

/// The terminal window swallows the mouse: activation clicks, moves, and
/// every button and wheel message are decoded as `Mouse`, whatever their
/// parameters.
pub proof fn mouse_messages_swallowed(message: u32, wparam: usize, lparam: isize)
    requires
        message == WM_MOUSEACTIVATE || WM_MOUSEMOVE <= message <= WM_MOUSE_LAST_BUTTON,
    ensures
        terminal_event(message, wparam, lparam) == TerminalEvent::Mouse,
{
}

/// Console output read from the pseudo console and not yet shown.
pub struct OutputBuffer {
    bytes: Vec<u8>,
}

impl View for OutputBuffer {
    type V = Seq<u8>;

    closed spec fn view(&self) -> Seq<u8> {
        self.bytes@
    }
}

impl OutputBuffer {
    /// An empty buffer.
    pub fn new() -> (buffer: OutputBuffer)
        ensures
            buffer@ == Seq::<u8>::empty(),
    {
        OutputBuffer { bytes: Vec::new() }
    }

    /// Appends a chunk read from the console after what is already waiting.
    pub fn append(&mut self, chunk: &[u8])
        ensures
            final(self)@ == old(self)@ + chunk@,
    {
        let mut i: usize = 0;
        let ghost start = self.bytes@;
        while i < chunk.len()
            invariant
                i <= chunk@.len(),
                self.bytes@ == start + chunk@.take(i as int),
            decreases chunk@.len() - i,
        {
            self.bytes.push(chunk[i]);
            assert(chunk@.take(i + 1) == chunk@.take(i as int).push(chunk@[i as int]));
            i = i + 1;
        }
        assert(chunk@.take(chunk@.len() as int) == chunk@);
    }

    /// Takes everything waiting, in the order it arrived, leaving the buffer
    /// empty.
    pub fn take(&mut self) -> (chunk: Vec<u8>)
        ensures
            chunk@ == old(self)@,
            final(self)@ == Seq::<u8>::empty(),
    {
        let mut chunk: Vec<u8> = Vec::new();
        std::mem::swap(&mut chunk, &mut self.bytes);
        chunk
    }

    /// Whether nothing is waiting.
    pub fn is_empty(&self) -> (empty: bool)
        ensures
            empty == (self@.len() == 0),
    {
        self.bytes.len() == 0
    }
}

/// What the terminal window does in answer to an event.
#[derive(Debug)]
pub enum TerminalAction {
    /// Invalidate the client area (erasing it first if `erase`); answer 0.
    Redraw { erase: bool },
    /// Recreate the font with this height, resize the pseudo console to
    /// `cols` x `rows`, invalidate and erase; answer 0.
    Refont { height: i32, cols: i16, rows: i16 },
    /// Show the window, bring it to the foreground, focus it; answer 0.
    Activate,
    /// Write these bytes to the console input; answer 0.
    Send(Vec<u8>),
    /// Resize the pseudo console to `cols` x `rows`; answer 0.
    Resize { cols: i16, rows: i16 },
    /// Nothing to do; answer 0.
    Handled,
    /// Nothing to do; answer 1 (the background counts as erased).
    Erased,
    /// Hide the mouse cursor; answer 1.
    HideCursor,
    /// Paint these commands into an off-screen surface cleared to black,
    /// then copy it to the window; answer 0.
    Paint(Vec<DrawOp>),
    /// Destroy the window; answer 0.
    Destroy,
    /// Detach and free the terminal state and end the host thread's message
    /// loop; answer 0.
    Release,
    /// Leave the message to the default window procedure.
    DefaultProc,
}

/// `v` clamped into `[lo, hi]`.
pub open spec fn clamp(v: int, lo: int, hi: int) -> int {
    if v < lo {
        lo
    } else if v > hi {
        hi
    } else {
        v
    }
}

/// Columns that fit a client area `width` pixels wide with cells `cw`
/// pixels wide, within the allowed range.
pub open spec fn fitted_cols(width: int, cw: int) -> int {
    clamp(width / if cw < 1 { 1 } else { cw }, MIN_COLS as int, MAX_COLS as int)
}

/// Rows that fit a client area `height` pixels high with cells `ch` pixels
/// high, within the allowed range.
pub open spec fn fitted_rows(height: int, ch: int) -> int {
    clamp(height / if ch < 1 { 1 } else { ch }, MIN_ROWS as int, MAX_ROWS as int)
}

/// The DPI actually used for a reported DPI: never below the base DPI.
pub open spec fn effective_dpi(dpi: u32) -> int {
    if dpi < BASE_DPI { BASE_DPI as int } else { dpi as int }
}

/// Cell width at a reported DPI: 11 pixels at 96 DPI, scaled.
pub open spec fn cell_width_at(dpi: u32) -> int {
    11 * effective_dpi(dpi) / 96
}

/// Cell height at a reported DPI: 24 pixels at 96 DPI, scaled.
pub open spec fn cell_height_at(dpi: u32) -> int {
    24 * effective_dpi(dpi) / 96
}

/// Font height at a reported DPI: negative, so that it gives the character
/// height (18 pixels at 96 DPI, scaled).
pub open spec fn font_height_at(dpi: u32) -> int {
    -(18 * effective_dpi(dpi) / 96)
}

/// Whether a reported DPI can be adopted: at it (never below 96) the cell
/// and font arithmetic, `24 * dpi`, fits in `i32`.
pub open spec fn dpi_in_range(dpi: u32) -> bool {
    24 * effective_dpi(dpi) <= i32::MAX
}

/// Whether a reported DPI can be adopted (see `dpi_in_range`).
pub fn dpi_supported(dpi: u32) -> (ok: bool)
    ensures
        ok == dpi_in_range(dpi),
{
    let d: u64 = if dpi < BASE_DPI { BASE_DPI as u64 } else { dpi as u64 };
    24 * d <= 0x7FFF_FFFF
}

/// The terminal window's state apart from its window-system handles: the
/// emulator, the DPI, the cell size, the grid size, the client area
/// (width, height) last reported, if any, and the blink phase of the cursor.
pub struct TerminalModel {
    pub emulator: Emulator,
    pub dpi: u32,
    pub cell_width: i32,
    pub cell_height: i32,
    pub rows: u16,
    pub cols: u16,
    pub client: Option<(u32, u32)>,
    pub cursor_visible: bool,
}

/// The drawing commands that show a terminal state: its emulator's visible
/// screen of the state's grid size, with the state's cell size and cursor
/// phase.
pub open spec fn shown(m: TerminalModel) -> Seq<crate::render::DrawOpModel> {
    screen_ops(visible(m.emulator, m.rows, m.cols), m.cell_width as int, m.cell_height as int, m.cursor_visible)
}

impl TerminalModel {
    /// The state's invariant: DPI at least the base DPI and small enough for
    /// the cell arithmetic, positive cells, grid size within its range, the
    /// emulator's grid of exactly that size, and a client area a window
    /// message can report.
    pub open spec fn wf(&self) -> bool {
        &&& terminal_size(self.emulator) == (self.rows, self.cols)
        &&& self.dpi >= BASE_DPI
        &&& 24 * self.dpi <= i32::MAX
        &&& 1 <= self.cell_width
        &&& 1 <= self.cell_height
        &&& MIN_ROWS <= self.rows <= MAX_ROWS
        &&& MIN_COLS <= self.cols <= MAX_COLS
        &&& self.client matches Some((w, h)) ==> w <= 0xFFFF && h <= 0xFFFF
    }

    /// Whether the pixel coordinates of the current grid fit in `i32`.
    pub open spec fn pixels_fit(&self) -> bool {
        fits_pixels(self.rows as int, self.cols as int, self.cell_width as int, self.cell_height as int)
    }

    /// A terminal of 40 rows and 120 columns with 10000 lines of
    /// scrollback, 10 x 20 pixel cells at 96 DPI, no client area reported
    /// yet, cursor shown; its emulator is a new one of that size and
    /// scrollback.
    pub fn new() -> (model: TerminalModel)
        ensures
            model.wf(),
            model.dpi == BASE_DPI,
            model.cell_width == INITIAL_CELL_WIDTH,
            model.cell_height == INITIAL_CELL_HEIGHT,
            model.rows == INITIAL_ROWS,
            model.cols == INITIAL_COLS,
            model.client is None,
            model.emulator == fresh_emulator(INITIAL_ROWS, INITIAL_COLS, SCROLLBACK_LINES),
            model.cursor_visible,
    {
        TerminalModel {
            emulator: new_emulator(INITIAL_ROWS, INITIAL_COLS, SCROLLBACK_LINES),
            dpi: BASE_DPI,
            cell_width: INITIAL_CELL_WIDTH,
            cell_height: INITIAL_CELL_HEIGHT,
            rows: INITIAL_ROWS,
            cols: INITIAL_COLS,
            client: None,
            cursor_visible: true,
        }
    }

    /// Whether the pixel coordinates of the current grid fit in `i32`.
    pub fn paint_fits(&self) -> (ok: bool)
        requires
            self.wf(),
        ensures
            ok == self.pixels_fit(),
    {
        let cw = self.cell_width as u64;
        let ch = self.cell_height as u64;
        let cols = self.cols as u64;
        let rows = self.rows as u64;
        assert(cols * cw <= 0x7FFF_FFFF <==> cw <= 0x7FFF_FFFFu64 / cols) by (nonlinear_arith)
            requires cols > 0;
        assert(rows * ch <= 0x7FFF_FFFF <==> ch <= 0x7FFF_FFFFu64 / rows) by (nonlinear_arith)
            requires rows > 0;
        cw <= 0x7FFF_FFFF / cols && ch <= 0x7FFF_FFFF / rows
    }

    /// Adopts a reported DPI: the DPI (at least 96) and the cell size scale
    /// with it. Returns the height of the font to create in place of the
    /// current one. The grid, the emulator and the client area stay.
    pub fn update_font(&mut self, dpi: u32) -> (font_height: i32)
        requires
            old(self).wf(),
            dpi_in_range(dpi),
        ensures
            final(self).wf(),
            font_height == font_height_at(dpi),
            *final(self) == (TerminalModel {
                dpi: effective_dpi(dpi) as u32,
                cell_width: cell_width_at(dpi) as i32,
                cell_height: cell_height_at(dpi) as i32,
                ..*old(self)
            }),
    {
        let dpi = if dpi < BASE_DPI { BASE_DPI } else { dpi };
        let d = dpi as i32;
        self.dpi = dpi;
        self.cell_width = 11 * d / 96;
        self.cell_height = 24 * d / 96;
        -(18 * d / 96)
    }

    /// Fits the grid to a client area of `width` x `height` pixels with the
    /// current cells, remembers the area and resizes the emulator to match.
    pub fn resize(&mut self, width: u32, height: u32) -> (size: (u16, u16))
        requires
            old(self).wf(),
            width <= 0xFFFF,
            height <= 0xFFFF,
        ensures
            final(self).wf(),
            size == (final(self).cols, final(self).rows),
            final(self).cols == fitted_cols(width as int, old(self).cell_width as int),
            final(self).rows == fitted_rows(height as int, old(self).cell_height as int),
            *final(self) == (TerminalModel {
                emulator: resized(old(self).emulator, final(self).rows, final(self).cols),
                rows: final(self).rows,
                cols: final(self).cols,
                client: Some((width, height)),
                ..*old(self)
            }),
    {
        let w = width as i32;
        let h = height as i32;
        let cw = if self.cell_width < 1 { 1 } else { self.cell_width };
        let ch = if self.cell_height < 1 { 1 } else { self.cell_height };
        let c = w / cw;
        let r = h / ch;
        let cols: u16 = if c < MIN_COLS as i32 { MIN_COLS } else if c > MAX_COLS as i32 { MAX_COLS } else { c as u16 };
        let rows: u16 = if r < MIN_ROWS as i32 { MIN_ROWS } else if r > MAX_ROWS as i32 { MAX_ROWS } else { r as u16 };
        self.cols = cols;
        self.rows = rows;
        self.client = Some((width, height));
        emulator_set_size(&mut self.emulator, rows, cols);
        (cols, rows)
    }

    /// Feeds console output to the emulator.
    pub fn feed(&mut self, bytes: &[u8])
        requires
            old(self).wf(),
        ensures
            final(self).wf(),
            *final(self) == (TerminalModel { emulator: processed(old(self).emulator, bytes@), ..*old(self) }),
    {
        emulator_process(&mut self.emulator, bytes);
    }

    /// The drawing commands for the emulator's current screen, of the
    /// model's grid size, painted with the model's cell size and cursor
    /// phase.
    pub fn paint(&self) -> (ops: Vec<DrawOp>)
        requires
            self.wf(),
            self.pixels_fit(),
        ensures
            ops_model(ops@) == shown(*self),
    {
        let snap = capture_screen(&self.emulator, self.rows, self.cols);
        draw_terminal_screen(&snap, self.cell_width, self.cell_height, self.cursor_visible)
    }

    /// Answers an event of the terminal window. Console output waiting in
    /// `pending` is taken and fed to the emulator on `Output`; `ctrl_down`
    /// tells whether Ctrl is held, which turns the C key into Ctrl+C.
    /// `Create` is answered by `update_font` before the window has a state,
    /// so it is not handled here. Painting needs the grid's pixel
    /// coordinates to fit in `i32`.
    pub fn handle(&mut self, event: TerminalEvent, ctrl_down: bool, pending: &mut OutputBuffer) -> (action:
        TerminalAction)
        requires
            old(self).wf(),
            event_in_range(event),
            event != TerminalEvent::Create,
            event == TerminalEvent::Paint ==> old(self).pixels_fit(),
        ensures
            final(self).wf(),
            event != TerminalEvent::Output ==> final(pending)@ == old(pending)@,
            match event {
                TerminalEvent::Output => {
                    &&& final(pending)@ == Seq::<u8>::empty()
                    &&& *final(self) == (TerminalModel {
                        emulator: processed(old(self).emulator, old(pending)@),
                        ..*old(self)
                    })
                    &&& action == (TerminalAction::Redraw { erase: false })
                },
                TerminalEvent::Activate => *final(self) == *old(self) && action == TerminalAction::Activate,
                TerminalEvent::Char(unit) => {
                    &&& *final(self) == *old(self)
                    &&& if unit == CTRL_C as u16 {
                        action == TerminalAction::Handled
                    } else {
                        action matches TerminalAction::Send(bytes) && bytes@ == lossy_unit_utf8(unit)
                    }
                },
                TerminalEvent::KeyDown(key) => {
                    &&& *final(self) == *old(self)
                    &&& if key == VK_C && ctrl_down {
                        action matches TerminalAction::Send(bytes) && bytes@ == seq![CTRL_C]
                    } else {
                        match key_sequence_bytes(key) {
                            Some(seq) => action matches TerminalAction::Send(bytes) && bytes@ == seq,
                            None => action == TerminalAction::Handled,
                        }
                    }
                },
                TerminalEvent::Size { width, height } => {
                    &&& final(self).cols == fitted_cols(width as int, old(self).cell_width as int)
                    &&& final(self).rows == fitted_rows(height as int, old(self).cell_height as int)
                    &&& *final(self) == (TerminalModel {
                        emulator: resized(old(self).emulator, final(self).rows, final(self).cols),
                        rows: final(self).rows,
                        cols: final(self).cols,
                        client: Some((width, height)),
                        ..*old(self)
                    })
                    &&& action == (TerminalAction::Resize {
                        cols: final(self).cols as i16,
                        rows: final(self).rows as i16,
                    })
                },
                TerminalEvent::DpiChanged(dpi) => {
                    &&& final(self).dpi == effective_dpi(dpi)
                    &&& final(self).cell_width == cell_width_at(dpi)
                    &&& final(self).cell_height == cell_height_at(dpi)
                    &&& match old(self).client {
                        Some((width, height)) => {
                            &&& final(self).cols == fitted_cols(width as int, cell_width_at(dpi))
                            &&& final(self).rows == fitted_rows(height as int, cell_height_at(dpi))
                            &&& final(self).emulator == resized(
                                old(self).emulator,
                                final(self).rows,
                                final(self).cols,
                            )
                        },
                        None => {
                            &&& final(self).cols == old(self).cols
                            &&& final(self).rows == old(self).rows
                            &&& final(self).emulator == old(self).emulator
                        },
                    }
                    &&& *final(self) == (TerminalModel {
                        emulator: final(self).emulator,
                        dpi: final(self).dpi,
                        cell_width: final(self).cell_width,
                        cell_height: final(self).cell_height,
                        rows: final(self).rows,
                        cols: final(self).cols,
                        ..*old(self)
                    })
                    &&& action == (TerminalAction::Refont {
                        height: font_height_at(dpi) as i32,
                        cols: final(self).cols as i16,
                        rows: final(self).rows as i16,
                    })
                },
                TerminalEvent::CursorBlink => {
                    &&& *final(self) == (TerminalModel {
                        cursor_visible: !old(self).cursor_visible,
                        ..*old(self)
                    })
                    &&& action == (TerminalAction::Redraw { erase: false })
                },
                TerminalEvent::EraseBackground => *final(self) == *old(self) && action
                    == TerminalAction::Erased,
                TerminalEvent::SetCursor => *final(self) == *old(self) && action
                    == TerminalAction::HideCursor,
                TerminalEvent::Mouse => *final(self) == *old(self) && action == TerminalAction::Handled,
                TerminalEvent::Paint => {
                    &&& *final(self) == *old(self)
                    &&& action matches TerminalAction::Paint(ops) && ops_model(ops@) == shown(*old(self))
                },
                TerminalEvent::Close => *final(self) == *old(self) && action == TerminalAction::Destroy,
                TerminalEvent::Destroyed => *final(self) == *old(self) && action == TerminalAction::Release,
                TerminalEvent::Create => true,
                TerminalEvent::Other => *final(self) == *old(self) && action == TerminalAction::DefaultProc,
            },
    {
        match event {
            TerminalEvent::Output => {
                let chunk = pending.take();
                self.feed(&chunk);
                TerminalAction::Redraw { erase: false }
            },
            TerminalEvent::Activate => TerminalAction::Activate,
            TerminalEvent::Char(unit) => {
                if unit != CTRL_C as u16 {
                    TerminalAction::Send(unit_to_utf8(unit))
                } else {
                    TerminalAction::Handled
                }
            },
            TerminalEvent::KeyDown(key) => {
                if key == VK_C && ctrl_down {
                    TerminalAction::Send(vec![CTRL_C])
                } else {
                    match key_sequence(key) {
                        Some(bytes) => TerminalAction::Send(bytes),
                        None => TerminalAction::Handled,
                    }
                }
            },
            TerminalEvent::Size { width, height } => {
                let (cols, rows) = self.resize(width, height);
                TerminalAction::Resize { cols: cols as i16, rows: rows as i16 }
            },
            TerminalEvent::DpiChanged(dpi) => {
                let height = self.update_font(dpi);
                match self.client {
                    Some((width, client_height)) => {
                        let (cols, rows) = self.resize(width, client_height);
                        TerminalAction::Refont { height, cols: cols as i16, rows: rows as i16 }
                    },
                    None => TerminalAction::Refont {
                        height,
                        cols: self.cols as i16,
                        rows: self.rows as i16,
                    },
                }
            },
            TerminalEvent::CursorBlink => {
                self.cursor_visible = !self.cursor_visible;
                TerminalAction::Redraw { erase: false }
            },
            TerminalEvent::EraseBackground => TerminalAction::Erased,
            TerminalEvent::SetCursor => TerminalAction::HideCursor,
            TerminalEvent::Mouse => TerminalAction::Handled,
            TerminalEvent::Paint => TerminalAction::Paint(self.paint()),
            TerminalEvent::Close => TerminalAction::Destroy,
            TerminalEvent::Destroyed => TerminalAction::Release,
            TerminalEvent::Create => TerminalAction::DefaultProc,
            TerminalEvent::Other => TerminalAction::DefaultProc,
        }
    }
}

/// The numbers an event carries are those a window message can carry: the
/// client size and the DPI are 16-bit words.
pub open spec fn event_in_range(event: TerminalEvent) -> bool {
    match event {
        TerminalEvent::Size { width, height } => width <= 0xFFFF && height <= 0xFFFF,
        TerminalEvent::DpiChanged(dpi) => dpi <= 0xFFFF,
        _ => true,
    }
}

/// Whatever the window size, the grid stays within 20..=300 columns and
/// 5..=120 rows, and a larger window never gives a smaller grid.
pub proof fn fitted_grid_bounds(w1: int, w2: int, h1: int, h2: int, cw: int, ch: int)
    requires
        0 <= w1 <= w2,
        0 <= h1 <= h2,
    ensures
        MIN_COLS <= fitted_cols(w1, cw) <= MAX_COLS,
        MIN_ROWS <= fitted_rows(h1, ch) <= MAX_ROWS,
        fitted_cols(w1, cw) <= fitted_cols(w2, cw),
        fitted_rows(h1, ch) <= fitted_rows(h2, ch),
{
    let c = if cw < 1 { 1 } else { cw };
    let r = if ch < 1 { 1 } else { ch };
    assert(w1 / c <= w2 / c) by (nonlinear_arith) requires 0 <= w1 <= w2, c >= 1;
    assert(h1 / r <= h2 / r) by (nonlinear_arith) requires 0 <= h1 <= h2, r >= 1;
}

/// At 96 DPI (and at any lower reported DPI) cells are 11 x 24 pixels and
/// the font is 18 pixels high; a higher DPI never gives smaller cells or a
/// smaller font.
pub proof fn font_scales_with_dpi(d1: u32, d2: u32)
    requires
        d1 <= d2,
    ensures
        d1 <= BASE_DPI ==> cell_width_at(d1) == 11 && cell_height_at(d1) == 24 && font_height_at(d1) == -18,
        cell_width_at(d1) <= cell_width_at(d2),
        cell_height_at(d1) <= cell_height_at(d2),
        font_height_at(d2) <= font_height_at(d1),
{
    let e1 = effective_dpi(d1);
    let e2 = effective_dpi(d2);
    assert(11 * e1 / 96 <= 11 * e2 / 96 && 24 * e1 / 96 <= 24 * e2 / 96 && 18 * e1 / 96 <= 18 * e2 / 96)
        by (nonlinear_arith) requires 0 <= e1 <= e2;
}

} // verus!
