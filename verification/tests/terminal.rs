use virtual_desktop_terminal::keys::{VK_C, VK_UP};
use virtual_desktop_terminal::render::{DrawOp, CURSOR_COLOR};
use virtual_desktop_terminal::terminal::{
    decode_terminal_message, OutputBuffer, TerminalAction, TerminalEvent, TerminalModel, WM_CHAR,
    WM_CLOSE, WM_DPICHANGED, WM_ERASEBKGND, WM_KEYDOWN, WM_MOUSEACTIVATE, WM_MOUSEMOVE, WM_NCCREATE,
    WM_NCDESTROY, WM_OUTPUT, WM_ACTIVATE_HOST, WM_PAINT, WM_SETCURSOR, WM_SIZE, WM_TIMER,
};

fn handle(model: &mut TerminalModel, event: TerminalEvent) -> TerminalAction {
    let mut pending = OutputBuffer::new();
    model.handle(event, false, &mut pending)
}

#[test]
fn decode_messages() {
    assert_eq!(decode_terminal_message(WM_NCCREATE, 0, 0), TerminalEvent::Create);
    assert_eq!(decode_terminal_message(WM_OUTPUT, 0, 0), TerminalEvent::Output);
    assert_eq!(decode_terminal_message(WM_ACTIVATE_HOST, 0, 0), TerminalEvent::Activate);
    assert_eq!(decode_terminal_message(WM_CHAR, 0x1_0041, 0), TerminalEvent::Char(0x41));
    assert_eq!(decode_terminal_message(WM_KEYDOWN, 0x26, 0), TerminalEvent::KeyDown(0x26));
    assert_eq!(
        decode_terminal_message(WM_SIZE, 0, (600 << 16) | 1100),
        TerminalEvent::Size { width: 1100, height: 600 }
    );
    assert_eq!(
        decode_terminal_message(WM_SIZE, 0, -1),
        TerminalEvent::Size { width: 0xFFFF, height: 0xFFFF }
    );
    assert_eq!(decode_terminal_message(WM_DPICHANGED, 0x0078_0078, 0), TerminalEvent::DpiChanged(120));
    assert_eq!(decode_terminal_message(WM_TIMER, 1, 0), TerminalEvent::CursorBlink);
    assert_eq!(decode_terminal_message(WM_TIMER, 2, 0), TerminalEvent::Other);
    assert_eq!(decode_terminal_message(WM_ERASEBKGND, 0, 0), TerminalEvent::EraseBackground);
    assert_eq!(decode_terminal_message(WM_SETCURSOR, 0, 0), TerminalEvent::SetCursor);
    assert_eq!(decode_terminal_message(WM_MOUSEACTIVATE, 0, 0), TerminalEvent::Mouse);
    assert_eq!(decode_terminal_message(WM_MOUSEMOVE, 0, 0), TerminalEvent::Mouse);
    assert_eq!(decode_terminal_message(0x0201, 0, 0), TerminalEvent::Mouse);
    assert_eq!(decode_terminal_message(0x020E, 0, 0), TerminalEvent::Mouse);
    assert_eq!(decode_terminal_message(0x020F, 0, 0), TerminalEvent::Other);
    assert_eq!(decode_terminal_message(WM_PAINT, 0, 0), TerminalEvent::Paint);
    assert_eq!(decode_terminal_message(WM_CLOSE, 0, 0), TerminalEvent::Close);
    assert_eq!(decode_terminal_message(WM_NCDESTROY, 0, 0), TerminalEvent::Destroyed);
    assert_eq!(decode_terminal_message(0x0001, 0, 0), TerminalEvent::Other);
}

#[test]
fn new_terminal_metrics() {
    let model = TerminalModel::new();
    assert_eq!(model.dpi, 96);
    assert_eq!((model.cell_width, model.cell_height), (10, 20));
    assert_eq!((model.rows, model.cols), (40, 120));
    assert!(model.cursor_visible);
}

#[test]
fn resize_fits_grid_to_window() {
    let mut model = TerminalModel::new();
    match handle(&mut model, TerminalEvent::Size { width: 1100, height: 600 }) {
        TerminalAction::Resize { cols, rows } => assert_eq!((cols, rows), (110, 30)),
        other => panic!("{:?}", other),
    }
    assert_eq!((model.cols, model.rows), (110, 30));
}

#[test]
fn resize_clamps_grid() {
    let mut model = TerminalModel::new();
    assert!(matches!(handle(&mut model, TerminalEvent::Size { width: 0, height: 0 }), TerminalAction::Resize { cols: 20, rows: 5 }));
    assert!(matches!(
        handle(&mut model, TerminalEvent::Size { width: 0xFFFF, height: 0xFFFF }),
        TerminalAction::Resize { cols: 300, rows: 120 }
    ));
    assert_eq!((model.cols, model.rows), (300, 120));
}

#[test]
fn larger_window_never_gives_smaller_grid() {
    let mut last = (0u16, 0u16);
    for w in (0..=0xFFFFu32).step_by(97) {
        let mut model = TerminalModel::new();
        handle(&mut model, TerminalEvent::Size { width: w, height: w });
        assert!(model.cols >= last.0 && model.rows >= last.1);
        assert!((20..=300).contains(&model.cols) && (5..=120).contains(&model.rows));
        last = (model.cols, model.rows);
    }
}

#[test]
fn dpi_change_scales_cells_font_and_refits_grid() {
    let mut model = TerminalModel::new();
    handle(&mut model, TerminalEvent::Size { width: 1200, height: 800 });
    assert_eq!((model.cols, model.rows), (120, 40));
    assert!(matches!(
        handle(&mut model, TerminalEvent::DpiChanged(144)),
        TerminalAction::Refont { height: -27, cols: 75, rows: 22 }
    ));
    assert_eq!((model.dpi, model.cell_width, model.cell_height), (144, 16, 36));
    assert_eq!((model.cols, model.rows), (75, 22));
    assert!(matches!(
        handle(&mut model, TerminalEvent::DpiChanged(72)),
        TerminalAction::Refont { height: -18, cols: 109, rows: 33 }
    ));
    assert_eq!((model.dpi, model.cell_width, model.cell_height), (96, 11, 24));
    handle(&mut model, TerminalEvent::Size { width: 2560, height: 1440 });
    assert_eq!((model.cols, model.rows), (232, 60));
    assert!(matches!(
        handle(&mut model, TerminalEvent::DpiChanged(192)),
        TerminalAction::Refont { height: -36, cols: 116, rows: 30 }
    ));
    assert_eq!((model.cell_width, model.cell_height), (22, 48));
    assert_eq!(model.client, Some((2560, 1440)));
}

#[test]
fn dpi_change_before_any_size_keeps_grid() {
    let mut model = TerminalModel::new();
    assert_eq!(model.client, None);
    assert!(matches!(
        handle(&mut model, TerminalEvent::DpiChanged(144)),
        TerminalAction::Refont { height: -27, cols: 120, rows: 40 }
    ));
    assert_eq!((model.cell_width, model.cell_height, model.cols, model.rows), (16, 36, 120, 40));
}

#[test]
fn painted_grid_follows_dpi_change() {
    let mut model = TerminalModel::new();
    handle(&mut model, TerminalEvent::DpiChanged(192));
    let ops = paint(&mut model);
    let backgrounds = ops.iter().take_while(|op| matches!(op, DrawOp::Fill { .. })).count();
    assert!(backgrounds >= (model.cols as usize) * (model.rows as usize));
    assert!(matches!(ops[1], DrawOp::Fill { left: 22, top: 0, right: 44, bottom: 48, .. }));
}

#[test]
fn update_font_at_creation() {
    let mut model = TerminalModel::new();
    assert_eq!(model.update_font(120), -22);
    assert_eq!((model.dpi, model.cell_width, model.cell_height), (120, 13, 30));
    assert_eq!((model.rows, model.cols), (40, 120));
}

#[test]
fn cursor_blinks() {
    let mut model = TerminalModel::new();
    assert!(matches!(handle(&mut model, TerminalEvent::CursorBlink), TerminalAction::Redraw { erase: false }));
    assert!(!model.cursor_visible);
    handle(&mut model, TerminalEvent::CursorBlink);
    assert!(model.cursor_visible);
}

#[test]
fn typed_characters_are_sent() {
    let mut model = TerminalModel::new();
    match handle(&mut model, TerminalEvent::Char(0x61)) {
        TerminalAction::Send(bytes) => assert_eq!(bytes, vec![0x61]),
        other => panic!("{:?}", other),
    }
    match handle(&mut model, TerminalEvent::Char(0x4E2D)) {
        TerminalAction::Send(bytes) => assert_eq!(bytes, "中".as_bytes().to_vec()),
        other => panic!("{:?}", other),
    }
    assert!(matches!(handle(&mut model, TerminalEvent::Char(3)), TerminalAction::Handled));
}

#[test]
fn key_down_sends_sequences_and_ctrl_c() {
    let mut model = TerminalModel::new();
    let mut pending = OutputBuffer::new();
    match model.handle(TerminalEvent::KeyDown(VK_C), true, &mut pending) {
        TerminalAction::Send(bytes) => assert_eq!(bytes, vec![3]),
        other => panic!("{:?}", other),
    }
    assert!(matches!(model.handle(TerminalEvent::KeyDown(VK_C), false, &mut pending), TerminalAction::Handled));
    match model.handle(TerminalEvent::KeyDown(VK_UP), true, &mut pending) {
        TerminalAction::Send(bytes) => assert_eq!(bytes, b"\x1b[A".to_vec()),
        other => panic!("{:?}", other),
    }
    assert!(matches!(model.handle(TerminalEvent::KeyDown(0x41), false, &mut pending), TerminalAction::Handled));
}

#[test]
fn simple_answers() {
    let mut model = TerminalModel::new();
    assert!(matches!(handle(&mut model, TerminalEvent::Activate), TerminalAction::Activate));
    assert!(matches!(handle(&mut model, TerminalEvent::EraseBackground), TerminalAction::Erased));
    assert!(matches!(handle(&mut model, TerminalEvent::SetCursor), TerminalAction::HideCursor));
    assert!(matches!(handle(&mut model, TerminalEvent::Mouse), TerminalAction::Handled));
    assert!(matches!(handle(&mut model, TerminalEvent::Close), TerminalAction::Destroy));
    assert!(matches!(handle(&mut model, TerminalEvent::Destroyed), TerminalAction::Release));
    assert!(matches!(handle(&mut model, TerminalEvent::Other), TerminalAction::DefaultProc));
}

#[test]
fn output_buffer_keeps_order() {
    let mut buffer = OutputBuffer::new();
    assert!(buffer.is_empty());
    buffer.append(b"he");
    buffer.append(b"");
    buffer.append(b"llo");
    assert_eq!(buffer.take(), b"hello".to_vec());
    assert!(buffer.is_empty());
    assert_eq!(buffer.take(), Vec::<u8>::new());
}

fn texts(ops: &[DrawOp]) -> Vec<(i32, i32, u32, String)> {
    ops.iter()
        .filter_map(|op| match op {
            DrawOp::Text { x, y, color, text } => Some((*x, *y, *color, String::from_utf16(text).unwrap())),
            _ => None,
        })
        .collect()
}

fn paint(model: &mut TerminalModel) -> Vec<DrawOp> {
    match handle(model, TerminalEvent::Paint) {
        TerminalAction::Paint(ops) => ops,
        other => panic!("{:?}", other),
    }
}

#[test]
fn output_is_fed_and_painted() {
    // what the terminal shows after output is what the emulator shows
    let mut model = TerminalModel::new();
    let mut pending = OutputBuffer::new();
    pending.append(b"hi");
    assert!(matches!(model.handle(TerminalEvent::Output, false, &mut pending), TerminalAction::Redraw { erase: false }));
    assert!(pending.is_empty());
    let ops = paint(&mut model);
    let cells = 40 * 120;
    assert!(ops[..cells].iter().all(|op| matches!(op, DrawOp::Fill { .. })));
    match &ops[1] {
        DrawOp::Fill { left, top, right, bottom, color } => assert_eq!((*left, *top, *right, *bottom, *color), (10, 0, 20, 20, 0)),
        other => panic!("{:?}", other),
    }
    let glyphs = texts(&ops);
    assert_eq!(glyphs, vec![(0, 0, 0xE6E6E6, "h".to_string()), (10, 0, 0xE6E6E6, "i".to_string())]);
    let cursor: Vec<&DrawOp> = ops[cells..]
        .iter()
        .filter(|op| matches!(op, DrawOp::Fill { color, .. } if *color == CURSOR_COLOR))
        .collect();
    assert_eq!(cursor.len(), 1);
    assert!(matches!(cursor[0], DrawOp::Fill { left: 20, top: 0, right: 30, bottom: 20, .. }));
}

#[test]
fn cursor_blink_and_hide_remove_cursor() {
    let mut model = TerminalModel::new();
    handle(&mut model, TerminalEvent::CursorBlink);
    let ops = paint(&mut model);
    assert!(!ops.iter().any(|op| matches!(op, DrawOp::Fill { color, .. } if *color == CURSOR_COLOR)));
    handle(&mut model, TerminalEvent::CursorBlink);
    model.feed(b"\x1b[?25l");
    let ops = paint(&mut model);
    assert!(!ops.iter().any(|op| matches!(op, DrawOp::Fill { color, .. } if *color == CURSOR_COLOR)));
}

#[test]
fn cursor_over_text_redraws_it_in_black() {
    let mut model = TerminalModel::new();
    model.feed(b"ab\x1b[1;2H");
    let ops = paint(&mut model);
    let glyphs = texts(&ops);
    assert_eq!(
        glyphs,
        vec![(0, 0, 0xE6E6E6, "a".to_string()), (10, 0, 0xE6E6E6, "b".to_string()), (10, 0, 0, "b".to_string())]
    );
}

#[test]
fn inverse_underline_and_colours() {
    let mut model = TerminalModel::new();
    model.feed(b"\x1b[7mX\x1b[0m\x1b[4;31mU");
    let ops = paint(&mut model);
    match &ops[0] {
        DrawOp::Fill { color, .. } => assert_eq!(*color, 0xE6E6E6),
        other => panic!("{:?}", other),
    }
    let glyphs = texts(&ops);
    assert_eq!(glyphs[0], (0, 0, 0x000000, "X".to_string()));
    assert_eq!(glyphs[1], (10, 0, 0x3131CD, "U".to_string()));
    assert!(ops.iter().any(|op| matches!(op, DrawOp::Fill { left: 10, top: 18, right: 20, bottom: 20, color: 0x3131CD })));
}

#[test]
fn wide_character_drawn_once() {
    let mut model = TerminalModel::new();
    model.feed("中x".as_bytes());
    let ops = paint(&mut model);
    let glyphs = texts(&ops);
    assert_eq!(glyphs, vec![(0, 0, 0xE6E6E6, "中".to_string()), (20, 0, 0xE6E6E6, "x".to_string())]);
}

#[test]
fn resize_reaches_emulator() {
    let mut model = TerminalModel::new();
    handle(&mut model, TerminalEvent::Size { width: 250, height: 120 });
    assert_eq!((model.cols, model.rows), (25, 6));
    let ops = paint(&mut model);
    let fills_before_glyphs = ops.iter().take_while(|op| matches!(op, DrawOp::Fill { .. })).count();
    assert!(fills_before_glyphs >= 25 * 6);
}

#[test]
fn narrowing_past_a_wide_character_then_output() {
    let mut model = TerminalModel::new();
    handle(&mut model, TerminalEvent::Size { width: 210, height: 600 });
    assert_eq!(model.cols, 21);
    model.feed("\x1b[1;20H中".as_bytes());
    handle(&mut model, TerminalEvent::Size { width: 200, height: 600 });
    assert_eq!(model.cols, 20);
    model.feed(b"\x1b[1;20Hxy");
    let ops = paint(&mut model);
    assert!(texts(&ops).iter().any(|t| t.3 == "x"));
}

#[test]
fn foreground_and_background_colours_reach_the_screen() {
    let mut model = TerminalModel::new();
    model.feed(b"\x1b[31;42mA");
    let ops = paint(&mut model);
    match &ops[0] {
        DrawOp::Fill { color, .. } => assert_eq!(*color, 0x0079BC0D),
        other => panic!("{:?}", other),
    }
    assert_eq!(texts(&ops)[0], (0, 0, 0x003131CD, "A".to_string()));
}

#[test]
fn output_split_across_chunks_is_shown_whole() {
    let mut model = TerminalModel::new();
    let bytes = "中".as_bytes();
    let mut pending = OutputBuffer::new();
    pending.append(&bytes[..1]);
    model.handle(TerminalEvent::Output, false, &mut pending);
    pending.append(&bytes[1..]);
    model.handle(TerminalEvent::Output, false, &mut pending);
    let ops = paint(&mut model);
    assert_eq!(texts(&ops)[0], (0, 0, 0xE6E6E6, "中".to_string()));
}
