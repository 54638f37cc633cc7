use nu_discord_bot::render::{
    background_pixel, cell_color, has_wide_char, pad_lines, single_row_takes, push_padded_line, render_spans, rgb, terminal_size, terminal_spans,
    visible_columns, Bounds, CellColor, Palette, ScreenCell, MARGIN, MAX_ROWS,
};
use nu_discord_bot::nu_command::took_content;
use nu_discord_bot::text::{chars_of, decimal_string, find_first, split_lines, strip_backtrace};

#[test]
fn decimal_rendering() {
    assert_eq!(decimal_string(0), "0");
    assert_eq!(decimal_string(7), "7");
    assert_eq!(decimal_string(10), "10");
    assert_eq!(decimal_string(1234567890123), "1234567890123");
    assert_eq!(decimal_string(u64::MAX), u64::MAX.to_string());
}

#[test]
fn backtrace_is_cut_off() {
    let s = "boom\n\nCaused by:\n    inner\n\nStack backtrace:\n   0: main";
    assert_eq!(strip_backtrace(s), "boom\n\nCaused by:\n    inner\n\n");
    assert_eq!(strip_backtrace("no trace here"), "no trace here");
    assert_eq!(strip_backtrace("Stack backtrace"), "");
    let once = strip_backtrace(s);
    assert_eq!(strip_backtrace(&once), once);
}

#[test]
fn first_occurrence() {
    let s = chars_of("abcabc");
    assert_eq!(find_first(&s, &chars_of("ca")), 2);
    assert_eq!(find_first(&s, &chars_of("x")), 6);
    assert_eq!(find_first(&s, &chars_of("")), 0);
    assert_eq!(find_first(&s, &chars_of("abcabcd")), 6);
}

fn lines_of(s: &str) -> Vec<String> {
    split_lines(&chars_of(s)).iter().map(|l| l.iter().collect()).collect()
}

#[test]
fn lines_match_std() {
    for s in ["", "a", "a\n", "\n", "a\n\nb", "a\r\nb\r\n", "x\ry", "end\r", "\r\n\r\n", "é\nü"] {
        let expected: Vec<String> = s.lines().map(str::to_string).collect();
        assert_eq!(lines_of(s), expected, "input {s:?}");
    }
}

#[test]
fn terminal_size_counts_lines_and_visible_columns() {
    let input = "\u{1b}[31mred\u{1b}[0m text\nab\n";
    assert_eq!(terminal_size(input), (2, 8));
    assert_eq!(terminal_size(""), (0, 0));
    let many = "x\n".repeat(100);
    assert_eq!(terminal_size(&many), (MAX_ROWS, 1));
    assert_eq!(MAX_ROWS, 64);
}

#[test]
fn lines_are_padded_to_visible_width() {
    let input = "\u{1b}[31mab\u{1b}[0m\nabcd";
    let padded = pad_lines(input, 4);
    assert_eq!(padded, "\u{1b}[31mab\u{1b}[0m  abcd");
    assert_eq!(pad_lines("abcdef", 3), "abcdef");
    assert_eq!(pad_lines("a\r\nb", 2), "a b ");
}

fn palette() -> Palette {
    Palette {
        normal: [0x0d1017, 0xd95757, 0x7fd962, 0xe6b673, 0x59c2ff, 0xd2a6ff, 0x95e6cb, 0xbfbdb6],
        bright: [0x11151c, 0xf07178, 0xaad94c, 0xffb454, 0x73b8ff, 0xdfbfff, 0x95e6cb, 0xffffff],
        foreground: 0xbfbdb6,
        background: 0x0b0e14,
    }
}

#[test]
fn cell_colours() {
    let p = palette();
    assert_eq!(cell_color(CellColor::Idx(1), &p), 0xd95757);
    assert_eq!(cell_color(CellColor::Idx(9), &p), 0xf07178);
    assert_eq!(cell_color(CellColor::Idx(16), &p), 0xbfbdb6);
    assert_eq!(cell_color(CellColor::Default, &p), 0xbfbdb6);
    assert_eq!(cell_color(CellColor::Rgb(1, 2, 3), &p), 0xff010203);
    assert_eq!(rgb(255, 255, 255), 0xffffffff);
}

#[test]
fn background_is_opaque_theme_colour() {
    assert_eq!(background_pixel(0x0b0e14), [0x0b, 0x0e, 0x14, 0xff]);
    assert_eq!(background_pixel(0xff0b0e14), [0x0b, 0x0e, 0x14, 0xff]);
}

#[test]
fn bounds_and_image_geometry() {
    let mut b = Bounds::new();
    assert_eq!(b.min_x, i32::MAX);
    b.cover(5, 3, 10, 20);
    b.cover(2, 8, 1, 1);
    assert_eq!(b, Bounds { min_x: 2, min_y: 3, max_x: 15, max_y: 23 });
    assert_eq!(b.image_size(), Some((13 + 2 * MARGIN as u32, 20 + 2 * MARGIN as u32)));
    assert_eq!(Bounds::new().image_size(), None);
    assert_eq!(b.image_position(2, 3), (10, 10));
}

#[test]
fn visible_columns_and_padded_lines() {
    assert_eq!(visible_columns("ab\nabcde\n"), 5);
    assert_eq!(visible_columns(""), 0);
    let mut out = String::from(">");
    push_padded_line(&mut out, &chars_of("\u{1b}[1mab"), 2, 4);
    assert_eq!(out, ">\u{1b}[1mab  ");
    assert_eq!(took_content("3s"), "-# took 3s");
}

#[test]
fn spans_of_a_screen() {
    let p = palette();
    let cells = vec![
        vec![
            ScreenCell { contents: "a".into(), color: CellColor::Idx(2) },
            ScreenCell { contents: "".into(), color: CellColor::Default },
        ],
        vec![ScreenCell { contents: "b".into(), color: CellColor::Default }, ScreenCell { contents: "c".into(), color: CellColor::Rgb(0, 0, 1) }],
    ];
    let spans: Vec<(String, Option<u32>)> = render_spans(&cells, &p).into_iter().map(|s| (s.text, s.color)).collect();
    assert_eq!(
        spans,
        vec![
            ("a".to_string(), Some(0x7fd962)),
            ("\n".to_string(), None),
            ("b".to_string(), Some(0xbfbdb6)),
            ("c".to_string(), Some(0xff000001)),
            ("\n".to_string(), None),
        ]
    );
}

#[test]
fn terminal_layout_of_coloured_output() {
    let p = palette();
    let (rows, cols, spans) = terminal_spans("\u{1b}[31mhi\u{1b}[0m\nyou\n", &p).unwrap();
    assert_eq!((rows, cols), (2, 3));
    let text: Vec<(String, Option<u32>)> = spans.into_iter().map(|s| (s.text, s.color)).collect();
    assert_eq!(
        text,
        vec![
            ("h".to_string(), Some(0xd95757)),
            ("i".to_string(), Some(0xd95757)),
            (" ".to_string(), Some(0xbfbdb6)),
            ("\n".to_string(), None),
            ("y".to_string(), Some(0xbfbdb6)),
            ("o".to_string(), Some(0xbfbdb6)),
            ("u".to_string(), Some(0xbfbdb6)),
            ("\n".to_string(), None),
        ]
    );
}

#[test]
fn terminal_that_cannot_take_the_text() {
    let p = palette();
    assert!(terminal_spans("", &p).is_none());
    assert!(terminal_spans("\n\n", &p).is_none());
    assert!(terminal_spans("\u{4e2d}", &p).is_none());
    assert!(has_wide_char("a\u{4e2d}"));
    assert!(!has_wide_char("ab"));
    assert!(terminal_spans("\u{4e2d}\u{6587}", &p).is_none());
    let (rows, cols, _) = terminal_spans("a\tb", &p).unwrap();
    assert_eq!((rows, cols), (1, 3));
    assert!(terminal_spans("\tab", &p).is_none());
    assert!(terminal_spans("ab\rc\u{7}", &p).is_some());
    let (rows, cols, _) = terminal_spans("\u{4e2d}\u{6587}\nab", &p).unwrap();
    assert_eq!((rows, cols), (2, 2));
    let (rows, cols, spans) = terminal_spans("\u{1b}[31mhi\u{1b}[0m", &p).unwrap();
    assert_eq!((rows, cols), (1, 2));
    assert_eq!(spans.len(), 3);
    assert!(single_row_takes("\u{1b}[1;31mab\u{1b}[0m", 2));
    assert!(!single_row_takes("\u{1b}[?25l", 5));
    assert!(single_row_takes("abc\rxy", 3));
    assert!(!single_row_takes("abcd", 3));
    assert!(single_row_takes("ab\u{8}c", 2));
    assert!(single_row_takes("\u{4e2d}", 2));
    assert!(!single_row_takes("a\u{4e2d}", 2));
    let (rows, cols, _) = terminal_spans("a", &p).unwrap();
    assert_eq!((rows, cols), (1, 1));
}

#[test]
fn trailing_newline_and_crlf_keep_the_layout() {
    let p = palette();
    let plain = terminal_spans("ab\ncd", &p).unwrap();
    let newline = terminal_spans("ab\ncd\n", &p).unwrap();
    let crlf = terminal_spans("ab\r\ncd", &p).unwrap();
    let view = |r: (u16, u16, Vec<nu_discord_bot::render::Span>)| {
        (r.0, r.1, r.2.into_iter().map(|s| (s.text, s.color)).collect::<Vec<_>>())
    };
    let plain = view(plain);
    assert_eq!(view(newline), plain);
    assert_eq!(view(crlf), plain);
}
