use virtual_desktop_terminal::keys::{
    key_sequence, VK_C, VK_DOWN, VK_END, VK_F1, VK_F2, VK_F3, VK_F4, VK_F5, VK_F6, VK_HOME, VK_LEFT,
    VK_NEXT, VK_PRIOR, VK_RIGHT, VK_UP,
};
use virtual_desktop_terminal::palette::{ansi_palette, terminal_color, TermColor};

#[test]
fn basic_palette_entries() {
    assert_eq!(ansi_palette(0), (0, 0, 0));
    assert_eq!(ansi_palette(1), (205, 49, 49));
    assert_eq!(ansi_palette(7), (229, 229, 229));
    assert_eq!(ansi_palette(8), (102, 102, 102));
    assert_eq!(ansi_palette(12), (59, 142, 234));
    assert_eq!(ansi_palette(15), (255, 255, 255));
}

#[test]
fn cube_palette_entries() {
    assert_eq!(ansi_palette(16), (0, 0, 0));
    assert_eq!(ansi_palette(21), (0, 0, 255));
    assert_eq!(ansi_palette(196), (255, 0, 0));
    assert_eq!(ansi_palette(59), (95, 95, 95));
    assert_eq!(ansi_palette(231), (255, 255, 255));
}

#[test]
fn palette_cube_law() {
    let level = |v: u8| if v == 0 { 0 } else { 55 + v * 40 };
    for r in 0..6u8 {
        for g in 0..6u8 {
            for b in 0..6u8 {
                assert_eq!(ansi_palette(16 + 36 * r + 6 * g + b), (level(r), level(g), level(b)));
            }
        }
    }
}

#[test]
fn grey_ramp_entries_and_order() {
    assert_eq!(ansi_palette(232), (8, 8, 8));
    assert_eq!(ansi_palette(255), (238, 238, 238));
    for i in 232..255u8 {
        let (a, b, c) = ansi_palette(i);
        assert!(a == b && b == c);
        assert!(a < ansi_palette(i + 1).0);
    }
}

#[test]
fn colour_values() {
    assert_eq!(terminal_color(TermColor::Default, true), 0x00E6E6E6);
    assert_eq!(terminal_color(TermColor::Default, false), 0x00000000);
    assert_eq!(terminal_color(TermColor::Rgb(1, 2, 3), false), 0x00030201);
    assert_eq!(terminal_color(TermColor::Idx(1), true), 0x003131CD);
    assert_eq!(terminal_color(TermColor::Idx(255), false), 0x00EEEEEE);
}

#[test]
fn key_sequences() {
    let expect: [(u16, &[u8]); 14] = [
        (VK_UP, b"\x1b[A"),
        (VK_DOWN, b"\x1b[B"),
        (VK_RIGHT, b"\x1b[C"),
        (VK_LEFT, b"\x1b[D"),
        (VK_HOME, b"\x1b[H"),
        (VK_END, b"\x1b[F"),
        (VK_PRIOR, b"\x1b[5~"),
        (VK_NEXT, b"\x1b[6~"),
        (VK_F1, b"\x1bOP"),
        (VK_F2, b"\x1bOQ"),
        (VK_F3, b"\x1bOR"),
        (VK_F4, b"\x1bOS"),
        (VK_F5, b"\x1b[15~"),
        (VK_F6, b"\x1b[17~"),
    ];
    for (key, bytes) in expect {
        assert_eq!(key_sequence(key), Some(bytes.to_vec()));
    }
}

#[test]
fn keys_without_sequence() {
    assert_eq!(key_sequence(VK_C), None);
    assert_eq!(key_sequence(0x41), None);
    assert_eq!(key_sequence(0x76), None);
    assert_eq!(key_sequence(0), None);
}

#[test]
fn key_sequences_are_distinct() {
    let keys = [VK_UP, VK_DOWN, VK_RIGHT, VK_LEFT, VK_HOME, VK_END, VK_PRIOR, VK_NEXT, VK_F1, VK_F2, VK_F3, VK_F4, VK_F5, VK_F6];
    for (i, a) in keys.iter().enumerate() {
        let sa = key_sequence(*a).unwrap();
        assert_eq!(sa[0], 0x1b);
        for b in &keys[i + 1..] {
            assert_ne!(sa, key_sequence(*b).unwrap());
        }
    }
}
