use chip8::display::{Display, HEIGHT, WIDTH};
use chip8::{Chip8, ExecError};

fn machine() -> Chip8 {
    Chip8::new(&[]).unwrap()
}

fn lit(c: &Chip8) -> Vec<(usize, usize)> {
    let mut out = Vec::new();
    for y in 0..HEIGHT {
        for x in 0..WIDTH {
            if c.display().pixel(x, y) {
                out.push((x, y));
            }
        }
    }
    out
}

fn with_sprite(sprite: &[u8]) -> Chip8 {
    let mut c = machine();
    c.load_image(sprite, 0x300).unwrap();
    c.ld_i_addr(0x300);
    c.jp_addr(0x200);
    c
}

#[test]
fn a_sprite_lights_the_pixels_under_its_bits() {
    let mut c = with_sprite(&[0b1000_0001, 0b0100_0000]);
    c.ld_vx_byte(1, 10);
    c.ld_vx_byte(2, 5);
    c.jp_addr(0x200);
    assert_eq!(c.drw_vx_vy_n(1, 2, 2), Ok(()));
    assert_eq!(lit(&c), vec![(10, 5), (17, 5), (11, 6)]);
    assert_eq!(c.registers().v[0xF], 0);
    assert_eq!(c.registers().pc, 0x202);
}

#[test]
fn drawing_twice_restores_the_display() {
    let mut c = with_sprite(&[0xF0, 0x90, 0x90, 0x90, 0xF0]);
    c.load_image(&[0xFF], 0x310).unwrap();
    c.ld_vx_byte(3, 2);
    c.ld_vx_byte(4, 1);
    c.ld_i_addr(0x310);
    c.drw_vx_vy_n(3, 4, 1).unwrap();
    let before = lit(&c);
    c.ld_vx_byte(1, 4);
    c.ld_vx_byte(2, 1);
    c.ld_i_addr(0x300);
    assert_eq!(c.drw_vx_vy_n(1, 2, 5), Ok(()));
    assert_eq!(c.registers().v[0xF], 1);
    assert_ne!(lit(&c), before);
    assert_eq!(c.drw_vx_vy_n(1, 2, 5), Ok(()));
    assert_eq!(c.registers().v[0xF], 1);
    assert_eq!(lit(&c), before);
}

#[test]
fn drawing_twice_on_a_dark_display_reports_the_erasure() {
    let mut c = with_sprite(&[0x3C, 0x42, 0x81]);
    c.ld_vx_byte(0, 20);
    c.ld_vx_byte(1, 20);
    assert_eq!(c.drw_vx_vy_n(0, 1, 3), Ok(()));
    assert_eq!(c.registers().v[0xF], 0);
    assert_eq!(lit(&c).len(), 8);
    assert_eq!(c.drw_vx_vy_n(0, 1, 3), Ok(()));
    assert_eq!(c.registers().v[0xF], 1);
    assert_eq!(lit(&c), vec![]);
}

#[test]
fn drawing_an_empty_sprite_twice_reports_nothing() {
    let mut c = with_sprite(&[0x00, 0x00]);
    c.ld_vx_byte(0, 3);
    c.ld_vx_byte(1, 3);
    assert_eq!(c.drw_vx_vy_n(0, 1, 2), Ok(()));
    assert_eq!(c.registers().v[0xF], 0);
    assert_eq!(c.drw_vx_vy_n(0, 1, 2), Ok(()));
    assert_eq!(c.registers().v[0xF], 0);
    assert_eq!(lit(&c), vec![]);
}

#[test]
fn only_a_lit_pixel_under_a_set_bit_is_an_erasure() {
    let mut c = with_sprite(&[0xF0, 0x0F]);
    c.ld_vx_byte(0, 0);
    c.ld_vx_byte(1, 0);
    assert_eq!(c.drw_vx_vy_n(0, 1, 1), Ok(()));
    c.ld_i_addr(0x301);
    assert_eq!(c.drw_vx_vy_n(0, 1, 1), Ok(()));
    assert_eq!(c.registers().v[0xF], 0);
    assert_eq!(lit(&c).len(), 8);
}

#[test]
fn the_flag_covers_the_whole_sprite() {
    let mut c = with_sprite(&[0x80, 0x00, 0x80]);
    c.ld_vx_byte(0, 0);
    c.ld_vx_byte(1, 0);
    assert_eq!(c.drw_vx_vy_n(0, 1, 1), Ok(()));
    assert_eq!(c.drw_vx_vy_n(0, 1, 3), Ok(()));
    assert_eq!(c.registers().v[0xF], 1);
    assert_eq!(lit(&c), vec![(0, 2)]);
}

#[test]
fn the_origin_wraps_and_the_sprite_does_not() {
    let mut c = with_sprite(&[0xFF]);
    c.ld_vx_byte(0, 64 + 56);
    c.ld_vx_byte(1, 32 + 31);
    assert_eq!(c.drw_vx_vy_n(0, 1, 1), Ok(()));
    assert_eq!(lit(&c), (56..64).map(|x| (x, 31)).collect::<Vec<_>>());

    let mut c = with_sprite(&[0xFF, 0xFF]);
    c.ld_vx_byte(0, 57);
    c.ld_vx_byte(1, 0);
    let before = c.registers();
    assert_eq!(c.drw_vx_vy_n(0, 1, 1), Err(ExecError::DisplayOutOfBounds));
    assert_eq!(c.registers(), before);
    assert_eq!(lit(&c), vec![]);
    c.ld_vx_byte(0, 0);
    c.ld_vx_byte(1, 31);
    c.jp_addr(0x200);
    let before = c.registers();
    assert_eq!(c.drw_vx_vy_n(0, 1, 2), Err(ExecError::DisplayOutOfBounds));
    assert_eq!(c.registers(), before);
    assert_eq!(lit(&c), vec![]);
    assert_eq!(c.drw_vx_vy_n(0, 1, 1), Ok(()));
    assert_eq!(lit(&c).len(), 8);
}

#[test]
fn a_sprite_of_zero_bytes_has_eight_columns_all_the_same() {
    let mut c = with_sprite(&[0x00]);
    c.ld_vx_byte(0, 60);
    c.ld_vx_byte(1, 0);
    assert_eq!(c.drw_vx_vy_n(0, 1, 1), Err(ExecError::DisplayOutOfBounds));
}

#[test]
fn a_sprite_without_rows_fits_anywhere() {
    let mut c = with_sprite(&[0xFF]);
    c.ld_vx_byte(0, 63);
    c.ld_vx_byte(1, 31);
    c.ld_vx_byte(0xF, 9);
    c.ld_i_addr(0xFFFF);
    c.jp_addr(0x200);
    assert!(c.sprite_fits(0, 1, 0));
    assert!(!c.sprite_fits(0, 1, 1));
    assert_eq!(c.drw_vx_vy_n(0, 1, 0), Ok(()));
    assert_eq!(c.registers().v[0xF], 0);
    assert_eq!(c.registers().pc, 0x202);
    assert_eq!(lit(&c), vec![]);
}

#[test]
fn clear_screen_darkens_every_pixel() {
    let mut c = with_sprite(&[0xFF, 0xFF, 0xFF]);
    c.ld_vx_byte(0, 8);
    c.ld_vx_byte(1, 8);
    c.drw_vx_vy_n(0, 1, 3).unwrap();
    assert_eq!(lit(&c).len(), 24);
    let pc = c.registers().pc;
    c.cls();
    assert_eq!(lit(&c), vec![]);
    assert_eq!(c.registers().pc, pc + 2);
}

#[test]
fn a_sprite_drawn_by_steps() {
    let image = [0xF0, 0x90, 0x90, 0x90, 0xF0, 0x20, 0x60, 0x20, 0x20, 0x70];
    let mut c = Chip8::new(&image).unwrap();
    c.load_rom(&[0x60, 0x01, 0xF0, 0x29, 0x61, 0x04, 0x62, 0x02, 0xD1, 0x25, 0x00, 0xE0])
        .unwrap();
    for _ in 0..5 {
        assert!(c.can_step());
        assert_eq!(c.step(), Ok(()));
    }
    assert_eq!(c.registers().i, 5);
    assert_eq!(
        lit(&c),
        vec![(6, 2), (5, 3), (6, 3), (6, 4), (6, 5), (5, 6), (6, 6), (7, 6)]
    );
    assert_eq!(c.step(), Ok(()));
    assert_eq!(lit(&c), vec![]);
}

#[test]
fn the_display_as_text() {
    let mut c = with_sprite(&[0b1010_0000]);
    c.ld_vx_byte(0, 0);
    c.ld_vx_byte(1, 1);
    c.drw_vx_vy_n(0, 1, 1).unwrap();
    let out = c.blit();
    assert_eq!(out.len(), 10 + 32 * 65);
    let text: String = out.into_iter().collect();
    let rows = text.strip_prefix("\x1B[2J\x1B[1;1H").unwrap();
    let lines: Vec<&str> = rows.split('\n').collect();
    assert_eq!(lines.len(), 33);
    assert_eq!(lines[32], "");
    assert_eq!(lines[0], " ".repeat(64));
    assert_eq!(lines[1], format!("\u{2588} \u{2588}{}", " ".repeat(61)));
    for line in &lines[2..32] {
        assert_eq!(*line, " ".repeat(64));
    }
    assert_eq!(c.display().blit(), c.blit());
}

#[test]
fn the_text_starts_by_clearing_the_terminal() {
    let dark: String = Display::new().blit().into_iter().collect();
    let mut expected = String::from("\x1B[2J\x1B[1;1H");
    for _ in 0..32 {
        expected.push_str(&" ".repeat(64));
        expected.push('\n');
    }
    assert_eq!(dark, expected);
    assert_eq!(dark.chars().count(), 2090);

    let mut d = Display::new();
    d.draw(56, 31, &[0x01]);
    let lit: Vec<char> = d.blit();
    assert_eq!(&lit[..10], &['\x1B', '[', '2', 'J', '\x1B', '[', '1', ';', '1', 'H']);
    assert_eq!(lit[10 + 31 * 65 + 63], '\u{2588}');
    assert_eq!(lit[10 + 31 * 65 + 62], ' ');
    assert_eq!(lit[10 + 31 * 65 + 64], '\n');
    assert_eq!(lit.iter().filter(|c| **c == '\u{2588}').count(), 1);
}

#[test]
fn a_display_on_its_own() {
    let mut d = Display::new();
    assert!(!d.draw(0, 0, &[0x81, 0x7E]));
    assert!(d.pixel(0, 0));
    assert!(d.pixel(7, 0));
    assert!(!d.pixel(1, 0));
    assert!(d.pixel(1, 1));
    assert!(!d.pixel(0, 1));
    assert!(d.draw(7, 0, &[0x80]));
    assert!(!d.pixel(7, 0));
    assert!(!d.draw(56, 31, &[0xFF]));
    assert!(d.pixel(63, 31));
    d.clear();
    assert!(!d.pixel(63, 31));
    assert!(!d.pixel(0, 0));
}
