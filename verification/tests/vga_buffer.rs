use astra_os::vga_buffer::{
    Color, ColorCode, ScreenChar, Writer, BUFFER_HEIGHT, BUFFER_WIDTH, UNRECOGNIZED_CHAR,
};

fn green_on_black() -> ColorCode {
    ColorCode::new(Color::Green, Color::Black)
}

fn row_text(writer: &Writer, row: usize) -> Vec<u8> {
    (0..BUFFER_WIDTH).map(|col| writer.read(row, col).ascii_character).collect()
}

#[test]
fn color_values_follow_the_palette() {
    assert_eq!(Color::Black.as_u8(), 0);
    assert_eq!(Color::Blue.as_u8(), 1);
    assert_eq!(Color::Green.as_u8(), 2);
    assert_eq!(Color::Cyan.as_u8(), 3);
    assert_eq!(Color::Red.as_u8(), 4);
    assert_eq!(Color::Magenta.as_u8(), 5);
    assert_eq!(Color::Brown.as_u8(), 6);
    assert_eq!(Color::LightGray.as_u8(), 7);
    assert_eq!(Color::DarkGray.as_u8(), 8);
    assert_eq!(Color::LightBlue.as_u8(), 9);
    assert_eq!(Color::LightGreen.as_u8(), 10);
    assert_eq!(Color::LightCyan.as_u8(), 11);
    assert_eq!(Color::LightRed.as_u8(), 12);
    assert_eq!(Color::Pink.as_u8(), 13);
    assert_eq!(Color::Yellow.as_u8(), 14);
    assert_eq!(Color::White.as_u8(), 15);
}

#[test]
fn color_code_packs_background_above_foreground() {
    assert_eq!(ColorCode::new(Color::Green, Color::Black), ColorCode(0x02));
    assert_eq!(ColorCode::new(Color::Yellow, Color::Blue), ColorCode(0x1e));
    assert_eq!(ColorCode::new(Color::White, Color::White), ColorCode(0xff));
    assert_eq!(ColorCode::new(Color::Black, Color::LightRed), ColorCode(0xc0));
}

#[test]
fn new_writer_shows_spaces() {
    let writer = Writer::new(green_on_black());
    assert_eq!(writer.column_position(), 0);
    assert_eq!(writer.color_code(), ColorCode(0x02));
    for row in 0..BUFFER_HEIGHT {
        for col in 0..BUFFER_WIDTH {
            assert_eq!(
                writer.read(row, col),
                ScreenChar { ascii_character: b' ', color_code: ColorCode(0x02) }
            );
        }
    }
}

#[test]
fn test_println_simple_no_panic() {
    let mut writer = Writer::new(green_on_black());
    writer.write_string("test_println_simple_no_panic\n");
    assert_eq!(writer.column_position(), 0);
}

#[test]
fn test_println_many_no_panic() {
    let mut writer = Writer::new(green_on_black());
    for _ in 0..200 {
        writer.write_string("test_println_many_no_panic\n");
    }
    let text = b"test_println_many_no_panic";
    for row in 0..BUFFER_HEIGHT - 1 {
        assert_eq!(&row_text(&writer, row)[..text.len()], &text[..]);
    }
    assert_eq!(row_text(&writer, BUFFER_HEIGHT - 1), vec![b' '; BUFFER_WIDTH]);
}

#[test]
fn test_println_output() {
    let mut writer = Writer::new(green_on_black());
    let s = "Lorem ipsum dolor sit amet";
    writer.write_string(s);
    writer.write_string("\n");
    for (i, c) in s.chars().enumerate() {
        let screen_char = writer.read(BUFFER_HEIGHT - 2, i);
        assert_eq!(char::from(screen_char.ascii_character), c);
        assert_eq!(screen_char.color_code, ColorCode(0x02));
    }
    assert_eq!(writer.read(BUFFER_HEIGHT - 2, s.len()).ascii_character, b' ');
}

#[test]
fn test_print_line_wrap() {
    let mut writer = Writer::new(green_on_black());
    for _ in 0..BUFFER_WIDTH {
        writer.write_string("X");
    }
    assert_eq!(writer.column_position(), BUFFER_WIDTH);
    writer.write_string("Y");
    for i in 0..BUFFER_WIDTH {
        let screen_char = writer.read(BUFFER_HEIGHT - 2, i);
        assert_eq!(char::from(screen_char.ascii_character), 'X');
    }
    let screen_char = writer.read(BUFFER_HEIGHT - 1, 0);
    assert_eq!(char::from(screen_char.ascii_character), 'Y');
    assert_eq!(writer.column_position(), 1);
}

#[test]
fn test_non_printable_char() {
    let mut writer = Writer::new(green_on_black());
    let s = "\u{f0}\u{178}\u{2019}\u{2013}";
    writer.write_string(s);
    writer.write_string("\n");
    let screen_char1 = writer.read(BUFFER_HEIGHT - 2, 0);
    let screen_char2 = writer.read(BUFFER_HEIGHT - 2, 1);
    assert_eq!(screen_char1.ascii_character, UNRECOGNIZED_CHAR);
    assert_eq!(screen_char2.ascii_character, UNRECOGNIZED_CHAR);
    // One placeholder for every byte of the encoded text.
    assert_eq!(s.len(), 10);
    for col in 0..10 {
        assert_eq!(writer.read(BUFFER_HEIGHT - 2, col).ascii_character, 0xfe);
    }
    assert_eq!(writer.read(BUFFER_HEIGHT - 2, 10).ascii_character, b' ');
}

#[test]
fn two_byte_character_takes_two_cells() {
    let mut writer = Writer::new(green_on_black());
    writer.write_string("a\u{f6}b");
    let shown = row_text(&writer, BUFFER_HEIGHT - 1);
    assert_eq!(&shown[..5], &[b'a', 0xfe, 0xfe, b'b', b' ']);
    assert_eq!(writer.column_position(), 4);
}

#[test]
fn control_bytes_are_replaced_but_tilde_and_space_are_kept() {
    let mut writer = Writer::new(green_on_black());
    writer.write_string("\u{1f} ~\u{7f}\t");
    let shown = row_text(&writer, BUFFER_HEIGHT - 1);
    assert_eq!(&shown[..5], &[0xfe, b' ', b'~', 0xfe, 0xfe]);
    assert_eq!(writer.column_position(), 5);
}

#[test]
fn write_byte_puts_the_byte_as_it_is() {
    let mut writer = Writer::new(ColorCode::new(Color::White, Color::Red));
    writer.write_byte(0x01);
    writer.write_byte(b'A');
    assert_eq!(
        writer.read(BUFFER_HEIGHT - 1, 0),
        ScreenChar { ascii_character: 0x01, color_code: ColorCode(0x4f) }
    );
    assert_eq!(
        writer.read(BUFFER_HEIGHT - 1, 1),
        ScreenChar { ascii_character: b'A', color_code: ColorCode(0x4f) }
    );
    assert_eq!(writer.column_position(), 2);
}

#[test]
fn newline_scrolls_every_row_up_by_one() {
    let mut writer = Writer::new(green_on_black());
    writer.write_string("first\nsecond\nthird");
    assert_eq!(&row_text(&writer, BUFFER_HEIGHT - 3)[..5], b"first");
    assert_eq!(&row_text(&writer, BUFFER_HEIGHT - 2)[..6], b"second");
    assert_eq!(&row_text(&writer, BUFFER_HEIGHT - 1)[..5], b"third");
    writer.new_line();
    assert_eq!(&row_text(&writer, BUFFER_HEIGHT - 4)[..5], b"first");
    assert_eq!(&row_text(&writer, BUFFER_HEIGHT - 3)[..6], b"second");
    assert_eq!(&row_text(&writer, BUFFER_HEIGHT - 2)[..5], b"third");
    assert_eq!(row_text(&writer, BUFFER_HEIGHT - 1), vec![b' '; BUFFER_WIDTH]);
    assert_eq!(writer.column_position(), 0);
}

#[test]
fn top_row_is_lost_when_the_screen_is_full() {
    let mut writer = Writer::new(green_on_black());
    for line in 0..BUFFER_HEIGHT + 1 {
        writer.write_byte(b'a' + line as u8);
        writer.write_byte(b'\n');
    }
    // Lines 'a' and 'b' have left the screen; 'c' is at the top.
    assert_eq!(writer.read(0, 0).ascii_character, b'c');
    assert_eq!(writer.read(BUFFER_HEIGHT - 2, 0).ascii_character, b'a' + BUFFER_HEIGHT as u8);
    assert_eq!(writer.read(BUFFER_HEIGHT - 1, 0).ascii_character, b' ');
}

#[test]
fn clear_row_leaves_the_other_rows() {
    let mut writer = Writer::new(green_on_black());
    writer.write_string("upper\nlower");
    writer.clear_row(BUFFER_HEIGHT - 2);
    assert_eq!(row_text(&writer, BUFFER_HEIGHT - 2), vec![b' '; BUFFER_WIDTH]);
    assert_eq!(&row_text(&writer, BUFFER_HEIGHT - 1)[..5], b"lower");
    assert_eq!(writer.column_position(), 5);
}

#[test]
fn empty_text_changes_nothing() {
    let mut writer = Writer::new(green_on_black());
    writer.write_string("abc");
    writer.write_string("");
    assert_eq!(&row_text(&writer, BUFFER_HEIGHT - 1)[..4], b"abc ");
    assert_eq!(writer.column_position(), 3);
}
