use rc8::display::{memory_to_flip_instructions, Chip8Display};

#[test]
fn test_flip_pixels_display() {
    let mut display = Chip8Display::new();
    display.flip_pixel(0, 0);
    assert!(display.get()[0][0]);
    display.flip_pixel(0, 0);
    assert!(!display.get()[0][0]);
}

#[test]
fn test_clear_display() {
    let mut display = Chip8Display::new();
    display.flip_pixel(0, 0);
    display.flip_pixel(0, 1);
    assert!(display.get()[0][0]);
    assert!(display.get()[0][1]);
    display.clear();
    assert!(!display.get()[0][0]);
    assert!(!display.get()[0][1]);
}

#[test]
fn test_new_display_is_blank() {
    let display = Chip8Display::new();
    assert_eq!(display.get().len(), 64);
    for column in display.get() {
        assert_eq!(column.len(), 32);
        for pixel in column {
            assert!(!*pixel);
        }
    }
    assert_eq!(Chip8Display::default(), display);
}

#[test]
fn test_flip_changes_one_pixel_only() {
    let mut display = Chip8Display::new();
    display.flip_pixel(63, 31);
    display.flip_pixel(5, 7);
    for x in 0..64usize {
        for y in 0..32usize {
            assert_eq!(display.get()[x][y], (x, y) == (63, 31) || (x, y) == (5, 7));
        }
    }
}

#[test]
fn test_two_flips_restore_every_pixel() {
    for x in 0..64u8 {
        for y in 0..32u8 {
            let mut display = Chip8Display::new();
            display.flip_pixel(1, 1);
            let before = display;
            display.flip_pixel(x, y);
            assert_ne!(display, before);
            display.flip_pixel(x, y);
            assert_eq!(display, before);
        }
    }
}

#[test]
fn test_clear_full_display() {
    let mut display = Chip8Display::new();
    for x in 0..64u8 {
        for y in 0..32u8 {
            display.flip_pixel(x, y);
        }
    }
    assert!(display.get().iter().all(|column| column.iter().all(|pixel| *pixel)));
    display.clear();
    assert_eq!(display, Chip8Display::new());
}

#[test]
fn test_text_of_blank_display() {
    let text = Chip8Display::new().to_text();
    let line = " ".repeat(32) + "\n";
    assert_eq!(text, line.repeat(64));
}

#[test]
fn test_text_has_one_line_per_column() {
    let mut display = Chip8Display::new();
    display.flip_pixel(0, 0);
    display.flip_pixel(2, 31);
    display.flip_pixel(63, 5);
    let text = display.to_text();
    let lines: Vec<&str> = text.lines().collect();
    assert_eq!(lines.len(), 64);
    assert!(text.ends_with('\n'));
    for (x, line) in lines.iter().enumerate() {
        let glyphs: Vec<char> = line.chars().collect();
        assert_eq!(glyphs.len(), 32);
        for (y, glyph) in glyphs.iter().enumerate() {
            let lit = (x, y) == (0, 0) || (x, y) == (2, 31) || (x, y) == (63, 5);
            assert_eq!(*glyph, if lit { '\u{2588}' } else { ' ' });
        }
    }
}

#[test]
fn test_sprite_rows_are_most_significant_bit_first() {
    let rows = memory_to_flip_instructions(&[0b1010_0000, 0x00, 0xFF, 0x01, 0x80]);
    assert_eq!(
        rows,
        vec![
            vec![true, false, true, false, false, false, false, false],
            vec![false; 8],
            vec![true; 8],
            vec![false, false, false, false, false, false, false, true],
            vec![true, false, false, false, false, false, false, false],
        ]
    );
}

#[test]
fn test_sprite_rows_of_no_bytes() {
    assert_eq!(memory_to_flip_instructions(&[]), Vec::<Vec<bool>>::new());
}

#[test]
fn test_sprite_rows_of_every_byte() {
    for byte in 0..=255u8 {
        let rows = memory_to_flip_instructions(&[byte]);
        assert_eq!(rows.len(), 1);
        assert_eq!(rows[0].len(), 8);
        for column in 0..8 {
            assert_eq!(rows[0][column], (byte >> (7 - column)) & 1 == 1);
        }
    }
}
