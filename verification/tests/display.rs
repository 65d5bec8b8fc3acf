//! The VGA writer, color codes and display configuration.
use asm_os::vga::color::Color;
use asm_os::vga::cursor::Style;
use asm_os::vga::{
    cursor_end_byte, cursor_start_byte, disable_cursor, enable_cursor, get_cursor_style,
    get_tab_width, is_cursor_enabled, last_param_value, reset_cursor_style, reset_tab_width,
    set_cursor_style, set_tab_width, ColorCode, GenericError, VgaConfig, Writer, HEIGHT, WIDTH,
};

#[test]
fn color_code_packs_nibbles() {
    let cc = ColorCode::new(Color::Yellow, Color::Blue);
    assert_eq!(cc.get_fg(), 0xE);
    assert_eq!(cc.get_bg(), 0x1);
    assert_eq!(cc.as_u8(), 0x1E);
}

#[test]
fn color_code_updates_one_nibble_at_a_time() {
    let mut cc = ColorCode::new(Color::LightGray, Color::Black);
    assert_eq!(cc.as_u8(), 0x07);
    cc.set_fg(Color::Red);
    assert_eq!(cc.as_u8(), 0x04);
    cc.set_bg(Color::White);
    assert_eq!(cc.as_u8(), 0xF4);
    assert_eq!(cc.get_fg(), 0x4);
    assert_eq!(cc.get_bg(), 0xF);
}

#[test]
fn writer_starts_blank_and_tracks_the_cursor() {
    let mut writer = Writer::new();
    assert_eq!(writer.width(), WIDTH);
    assert_eq!(writer.height(), HEIGHT);
    assert_eq!(writer.get_cursor_pos(), (0, 0));
    assert_eq!(writer.query_data_at(0, 0), Ok((0x20, 0x07)));

    writer.put_char(b'H');
    writer.put_char(b'i');
    assert_eq!(writer.get_cursor_pos(), (0, 2));
    assert_eq!(writer.query_data_at(0, 0), Ok((b'H', 0x07)));
    assert_eq!(writer.query_data_at(0, 1), Ok((b'i', 0x07)));
}

#[test]
fn query_off_the_grid_is_an_error() {
    let writer = Writer::new();
    assert_eq!(writer.query_data_at(HEIGHT, 0), Err(GenericError::IndexOutOfBounds));
    assert_eq!(writer.query_data_at(0, WIDTH), Err(GenericError::IndexOutOfBounds));
}

#[test]
fn control_bytes_move_the_cursor() {
    let mut writer = Writer::new();
    writer.write_byte(b'a', 8);
    writer.write_byte(b'\n', 8);
    assert_eq!(writer.get_cursor_pos(), (1, 0));
    writer.write_byte(b'b', 8);
    writer.write_byte(b'\r', 8);
    assert_eq!(writer.get_cursor_pos(), (1, 0));
    writer.write_byte(b'\t', 4);
    assert_eq!(writer.get_cursor_pos(), (1, 4));
}

#[test]
fn backspace_erases_the_previous_cell() {
    let mut writer = Writer::new();
    writer.put_char(b'x');
    writer.backspace();
    assert_eq!(writer.get_cursor_pos(), (0, 0));
    assert_eq!(writer.query_data_at(0, 0), Ok((0x20, 0x07)));
    // at the start of a row a backspace does nothing
    writer.backspace();
    assert_eq!(writer.get_cursor_pos(), (0, 0));
}

#[test]
fn newline_on_the_last_row_scrolls() {
    let mut writer = Writer::new();
    writer.set_cursor_pos(0, 0);
    writer.put_char(b'T');
    writer.set_cursor_pos(HEIGHT - 1, 0);
    writer.newline();
    // the top row scrolled away; the marker moved up and out
    assert_eq!(writer.get_cursor_pos(), (HEIGHT - 1, 0));
    assert_eq!(writer.query_data_at(0, 0), Ok((0x20, 0x07)));
}

#[test]
fn colors_follow_the_setters() {
    let mut writer = Writer::new();
    writer.set_foreground(Color::Green);
    writer.set_background(Color::Blue);
    assert_eq!(writer.get_foreground(), 0x2);
    assert_eq!(writer.get_background(), 0x1);
    assert_eq!(writer.get_color_code(), (0x2, 0x1));
    writer.put_char(b'c');
    assert_eq!(writer.query_data_at(0, 0), Ok((b'c', 0x12)));
    writer.reset_color_code();
    assert_eq!(writer.get_color_code(), (0x7, 0x0));
}

#[test]
fn clear_blanks_the_whole_grid() {
    let mut writer = Writer::new();
    writer.set_cursor_pos(3, 5);
    writer.put_char(b'z');
    writer.clear();
    assert_eq!(writer.get_cursor_pos(), (0, 0));
    assert_eq!(writer.query_data_at(3, 5), Ok((0x20, 0x07)));
}

#[test]
fn display_configuration_round_trips() {
    let mut config = VgaConfig::new();
    assert!(is_cursor_enabled(&config));
    assert_eq!(get_tab_width(&config), 8);
    assert_eq!(get_cursor_style(&config), Style::Block);

    disable_cursor(&mut config);
    assert!(!is_cursor_enabled(&config));
    enable_cursor(&mut config);
    assert!(is_cursor_enabled(&config));

    set_tab_width(&mut config, 4);
    assert_eq!(get_tab_width(&config), 4);
    set_tab_width(&mut config, 0);
    assert_eq!(get_tab_width(&config), 4);
    reset_tab_width(&mut config);
    assert_eq!(get_tab_width(&config), 8);

    set_cursor_style(&mut config, Style::Underscore);
    assert_eq!(get_cursor_style(&config), Style::Underscore);
    reset_cursor_style(&mut config);
    assert_eq!(get_cursor_style(&config), Style::Block);
}

#[test]
fn cursor_register_bytes_keep_reserved_bits() {
    assert_eq!(cursor_start_byte(0xC5, Style::Block), 0xC1);
    assert_eq!(cursor_end_byte(0xE5, Style::Block), 0xEE);
    assert_eq!(cursor_start_byte(0x00, Style::Underscore), 0x0D);
    assert_eq!(cursor_end_byte(0x00, Style::Underscore), 0x0E);
}

#[test]
fn color_tables_are_exact() {
    assert_eq!(Color::from_index(0x0), Ok(Color::Black));
    assert_eq!(Color::from_index(0xF), Ok(Color::White));
    assert_eq!(Color::from_index(0x10), Err(()));
    assert_eq!(Color::from_ansi(33), Ok(Color::Brown));
    assert_eq!(Color::from_ansi(97), Ok(Color::White));
    assert_eq!(Color::from_ansi(38), Err(()));
    assert_eq!(Color::Pink.as_u8(), 0xD);
    assert_eq!(Color::Pink.to_ansi(), 95);
    assert_eq!(Color::Pink.as_str(), "pink");
    assert_eq!(Color::Brown.associated_vga_register(), 0x14);
    assert_eq!(Color::LightGray.as_str(), "light-gray");
}

#[test]
fn cursor_style_tables_are_exact() {
    assert_eq!(Style::from_index(0), Ok(Style::Underscore));
    assert_eq!(Style::from_index(1), Ok(Style::Block));
    assert_eq!(Style::from_index(2), Err(()));
    assert_eq!(Style::Underscore.as_u8(), 0);
    assert_eq!(Style::Underscore.as_str(), "underscore");
    assert_eq!(Style::Underscore.scanline_bounds(), (0xD, 0xE));
    assert_eq!(Style::Block.scanline_bounds(), (0x1, 0xE));
}

#[test]
fn color_and_style_names_round_trip() {
    for idx in 0..16 {
        let color = Color::from_index(idx).unwrap();
        assert_eq!(Color::from_str(color.as_str()), Ok(color));
    }
    assert_eq!(Color::from_str("chartreuse"), Err(()));
    assert_eq!(Color::from_str(""), Err(()));
    for idx in 0..2 {
        let style = Style::from_index(idx).unwrap();
        assert_eq!(Style::from_str(style.as_str()), Ok(style));
    }
    assert_eq!(Style::from_str("beam"), Err(()));
}

#[test]
fn csi_colors_follow_the_parameters() {
    let mut writer = Writer::new();
    // bright green on blue, then write a cell
    writer.csi_dispatch(&[92, 44], 'm');
    assert_eq!(writer.get_color_code(), (0xA, 0x1));
    writer.put_char(b'x');
    assert_eq!(writer.query_data_at(0, 0), Ok((b'x', 0x1A)));
    // reset restores the boot colors
    writer.csi_dispatch(&[0], 'm');
    assert_eq!(writer.get_color_code(), (0x7, 0x0));
    // an empty parameter list also resets
    writer.csi_dispatch(&[31], 'm');
    writer.csi_dispatch(&[], 'm');
    assert_eq!(writer.get_color_code(), (0x7, 0x0));
}

#[test]
fn csi_cursor_moves_stay_on_the_grid() {
    let mut writer = Writer::new();
    writer.set_cursor_pos(10, 20);
    writer.csi_dispatch(&[3], 'A');
    assert_eq!(writer.get_cursor_pos(), (7, 20));
    writer.csi_dispatch(&[100], 'A');
    assert_eq!(writer.get_cursor_pos(), (0, 20));
    writer.csi_dispatch(&[100], 'B');
    assert_eq!(writer.get_cursor_pos(), (HEIGHT - 1, 20));
    writer.csi_dispatch(&[200], 'C');
    assert_eq!(writer.get_cursor_pos(), (HEIGHT - 1, WIDTH - 1));
    writer.csi_dispatch(&[5], 'D');
    assert_eq!(writer.get_cursor_pos(), (HEIGHT - 1, WIDTH - 6));
    writer.csi_dispatch(&[7], 'G');
    assert_eq!(writer.get_cursor_pos(), (HEIGHT - 1, 7));
    writer.csi_dispatch(&[4, 9], 'H');
    assert_eq!(writer.get_cursor_pos(), (4, 9));
    // only the last parameter counts where one number is expected
    writer.csi_dispatch(&[9, 2], 'B');
    assert_eq!(writer.get_cursor_pos(), (6, 9));
    assert_eq!(last_param_value(&[9, 2]), 2);
    assert_eq!(last_param_value(&[]), 0);
}

#[test]
fn csi_erase_actions_blank_the_right_cells() {
    let mut writer = Writer::new();
    writer.set_cursor_pos(1, 0);
    for byte in [b'a', b'b', b'c'] {
        writer.put_char(byte);
    }
    writer.set_cursor_pos(1, 1);
    // erase from the cursor to the end of the line
    writer.csi_dispatch(&[0], 'K');
    assert_eq!(writer.query_data_at(1, 0), Ok((b'a', 0x07)));
    assert_eq!(writer.query_data_at(1, 1), Ok((0x20, 0x07)));
    assert_eq!(writer.query_data_at(1, 2), Ok((0x20, 0x07)));

    let mut writer = Writer::new();
    writer.set_cursor_pos(1, 0);
    for byte in [b'a', b'b', b'c'] {
        writer.put_char(byte);
    }
    writer.set_cursor_pos(1, 1);
    // erase from the start of the line up to the cursor
    writer.csi_dispatch(&[1], 'K');
    assert_eq!(writer.query_data_at(1, 0), Ok((0x20, 0x07)));
    assert_eq!(writer.query_data_at(1, 1), Ok((b'b', 0x07)));
    // erase the whole line
    writer.csi_dispatch(&[2], 'K');
    assert_eq!(writer.query_data_at(1, 1), Ok((0x20, 0x07)));

    let mut writer = Writer::new();
    writer.put_char(b'q');
    writer.set_cursor_pos(2, 0);
    writer.put_char(b'r');
    writer.set_cursor_pos(1, 0);
    // erase from the cursor to the end of the display
    writer.csi_dispatch(&[0], 'J');
    assert_eq!(writer.query_data_at(0, 0), Ok((b'q', 0x07)));
    assert_eq!(writer.query_data_at(2, 0), Ok((0x20, 0x07)));
    // erase everything before the cursor
    writer.set_cursor_pos(1, 0);
    writer.csi_dispatch(&[1], 'J');
    assert_eq!(writer.query_data_at(0, 0), Ok((0x20, 0x07)));
    // erase the whole display without moving the cursor
    writer.put_char(b's');
    writer.csi_dispatch(&[2], 'J');
    assert_eq!(writer.get_cursor_pos(), (1, 1));
    assert_eq!(writer.query_data_at(1, 0), Ok((0x20, 0x07)));
    // an unknown action is ignored
    writer.csi_dispatch(&[9], 'Q');
    assert_eq!(writer.get_cursor_pos(), (1, 1));
}

#[test]
fn printable_bytes_wrap_at_the_row_end() {
    let mut writer = Writer::new();
    writer.set_cursor_pos(0, WIDTH - 1);
    writer.put_char(b'x');
    assert_eq!(writer.get_cursor_pos(), (0, WIDTH));
    // the next printable byte wraps onto the following row first
    writer.put_char(b'y');
    assert_eq!(writer.get_cursor_pos(), (1, 1));
    assert_eq!(writer.query_data_at(0, WIDTH - 1), Ok((b'x', 0x07)));
    assert_eq!(writer.query_data_at(1, 0), Ok((b'y', 0x07)));
}
