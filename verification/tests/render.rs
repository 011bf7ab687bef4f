use virtual_desktop_terminal::palette::TermColor;
use virtual_desktop_terminal::render::{draw_terminal_screen, DrawOp};
use virtual_desktop_terminal::screen::{CellView, ScreenSnapshot};

fn cell(text: &str) -> Option<CellView> {
    Some(CellView {
        text: text.to_string(),
        fg: TermColor::Default,
        bg: TermColor::Default,
        inverse: false,
        underline: false,
        wide_continuation: false,
    })
}

#[test]
fn two_by_two_screen() {
    let mut blue = cell("b").unwrap();
    blue.bg = TermColor::Idx(4);
    blue.underline = true;
    let mut cont = cell("").unwrap();
    cont.wide_continuation = true;
    let snap = ScreenSnapshot {
        rows: 2,
        cols: 2,
        cells: vec![cell("a"), None, Some(blue), Some(cont)],
        cursor_row: 1,
        cursor_col: 1,
        hide_cursor: false,
    };
    let ops = draw_terminal_screen(&snap, 8, 16, true);
    let expected = vec![
        DrawOp::Fill { left: 0, top: 0, right: 8, bottom: 16, color: 0 },
        DrawOp::Fill { left: 0, top: 16, right: 8, bottom: 32, color: 0x00C87224 },
        DrawOp::Fill { left: 8, top: 16, right: 16, bottom: 32, color: 0 },
        DrawOp::Text { x: 0, y: 0, color: 0x00E6E6E6, text: vec![0x61] },
        DrawOp::Text { x: 0, y: 16, color: 0x00E6E6E6, text: vec![0x62] },
        DrawOp::Fill { left: 0, top: 30, right: 8, bottom: 32, color: 0x00E6E6E6 },
        DrawOp::Fill { left: 8, top: 16, right: 16, bottom: 32, color: 0x00E6E6E6 },
    ];
    assert_eq!(format!("{:?}", ops), format!("{:?}", expected));
}

#[test]
fn hidden_or_blinked_cursor_is_not_drawn() {
    let snap = ScreenSnapshot { rows: 1, cols: 1, cells: vec![cell("z")], cursor_row: 0, cursor_col: 0, hide_cursor: true };
    assert_eq!(draw_terminal_screen(&snap, 10, 20, true).len(), 2);
    let snap = ScreenSnapshot { rows: 1, cols: 1, cells: vec![cell("z")], cursor_row: 0, cursor_col: 0, hide_cursor: false };
    assert_eq!(draw_terminal_screen(&snap, 10, 20, false).len(), 2);
    let ops = draw_terminal_screen(&snap, 10, 20, true);
    assert_eq!(ops.len(), 4);
    assert!(matches!(&ops[3], DrawOp::Text { color: 0, .. }));
}

#[test]
fn empty_screen_draws_nothing() {
    let snap = ScreenSnapshot { rows: 0, cols: 0, cells: vec![], cursor_row: 0, cursor_col: 0, hide_cursor: false };
    assert!(draw_terminal_screen(&snap, 10, 20, true).is_empty());
}
