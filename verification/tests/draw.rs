use chip8::{Chip8, Fault};

fn program(words: &[u16]) -> Chip8 {
    let mut rom = Vec::new();
    for w in words {
        rom.push((w >> 8) as u8);
        rom.push((w & 0xFF) as u8);
    }
    let mut m = Chip8::new();
    assert_eq!(m.load_rom(&rom), Ok(()));
    m
}

fn steps(m: &mut Chip8, count: usize) {
    for _ in 0..count {
        assert_eq!(m.step(0), Ok(()));
    }
}

fn lit(m: &Chip8) -> Vec<(usize, usize)> {
    let mut on = Vec::new();
    for y in 0..32 {
        for x in 0..64 {
            if m.pixel(x, y) {
                on.push((x, y));
            }
        }
    }
    on
}

#[test]
fn draw_full_sprite_twice_erases_it() {
    for n in 1..16u16 {
        // I = 0x300 holds n bytes of 0xFF; V0 = V1 = 0.
        let mut m = program(&[0xA300, 0xD010 | n, 0xD010 | n]);
        for k in 0..n {
            assert_eq!(m.write_byte(0x300 + k, 0xFF), Ok(()));
        }
        steps(&mut m, 2);
        assert_eq!(m.register(0xF), Some(0));
        assert_eq!(lit(&m).len(), 8 * n as usize);
        for y in 0..n as usize {
            for x in 0..8 {
                assert!(m.pixel(x, y));
            }
        }
        steps(&mut m, 1);
        assert_eq!(m.register(0xF), Some(1));
        assert!(lit(&m).is_empty());
        assert_eq!(m.pc(), 0x206);
    }
}

#[test]
fn draw_puts_the_high_bit_on_the_left() {
    // Sprite rows 0x80, 0x01, 0xA5 at (V0, V1) = (10, 4).
    let mut m = program(&[0x600A, 0x6104, 0xA300, 0xD013]);
    assert_eq!(m.write_byte(0x300, 0x80), Ok(()));
    assert_eq!(m.write_byte(0x301, 0x01), Ok(()));
    assert_eq!(m.write_byte(0x302, 0xA5), Ok(()));
    steps(&mut m, 4);
    assert_eq!(
        lit(&m),
        vec![(10, 4), (17, 5), (10, 6), (12, 6), (15, 6), (17, 6)]
    );
    assert_eq!(m.register(0xF), Some(0));
    assert_eq!(m.pc(), 0x208);
}

#[test]
fn draw_a_font_glyph() {
    // Glyph 1 (20 60 20 20 70) at (0, 0).
    let mut m = program(&[0x6A01, 0xFA29, 0xD005]);
    steps(&mut m, 3);
    assert_eq!(
        lit(&m),
        vec![(2, 0), (1, 1), (2, 1), (2, 2), (2, 3), (1, 4), (2, 4), (3, 4)]
    );
}

#[test]
fn draw_wraps_around_both_edges() {
    // A 3-row sprite of 0xFF at (62, 30): columns 62, 63, 0..=5, rows 30, 31, 0.
    let mut m = program(&[0x603E, 0x611E, 0xA300, 0xD013]);
    for k in 0..3 {
        assert_eq!(m.write_byte(0x300 + k, 0xFF), Ok(()));
    }
    steps(&mut m, 4);
    let mut expected = Vec::new();
    for y in [0usize, 30, 31] {
        for x in [0usize, 1, 2, 3, 4, 5, 62, 63] {
            expected.push((x, y));
        }
    }
    assert_eq!(lit(&m), expected);
}

#[test]
fn draw_takes_coordinates_modulo_the_display() {
    // (V0, V1) = (64 + 3, 32 + 2) is (3, 2); 255 is (63, 31).
    let mut m = program(&[0x6043, 0x6122, 0xA300, 0xD011]);
    assert_eq!(m.write_byte(0x300, 0xC0), Ok(()));
    steps(&mut m, 4);
    assert_eq!(lit(&m), vec![(3, 2), (4, 2)]);
    let mut m = program(&[0x60FF, 0x61FF, 0xA300, 0xD012]);
    assert_eq!(m.write_byte(0x300, 0xC0), Ok(()));
    assert_eq!(m.write_byte(0x301, 0x80), Ok(()));
    steps(&mut m, 4);
    assert_eq!(lit(&m), vec![(63, 0), (0, 31), (63, 31)]);
}

#[test]
fn draw_reports_a_collision_only_when_a_pixel_goes_off() {
    // 0xF0 at (0,0), then 0x0F at (0,0): no overlap; then 0x18: overlaps both.
    let mut m = program(&[0xA300, 0xD011, 0xA301, 0xD011, 0xA302, 0xD011]);
    assert_eq!(m.write_byte(0x300, 0xF0), Ok(()));
    assert_eq!(m.write_byte(0x301, 0x0F), Ok(()));
    assert_eq!(m.write_byte(0x302, 0x18), Ok(()));
    steps(&mut m, 2);
    assert_eq!(m.register(0xF), Some(0));
    steps(&mut m, 2);
    assert_eq!(m.register(0xF), Some(0));
    assert_eq!(lit(&m).len(), 8);
    steps(&mut m, 2);
    assert_eq!(m.register(0xF), Some(1));
    assert_eq!(
        lit(&m),
        vec![(0, 0), (1, 0), (2, 0), (5, 0), (6, 0), (7, 0)]
    );
}

#[test]
fn draw_clears_a_stale_flag() {
    let mut m = program(&[0x6F01, 0xA300, 0xD011]);
    assert_eq!(m.write_byte(0x300, 0xFF), Ok(()));
    steps(&mut m, 3);
    assert_eq!(m.register(0xF), Some(0));
}

#[test]
fn draw_of_no_rows_changes_nothing_but_the_flag() {
    let mut m = program(&[0x6F01, 0xA300, 0xD010]);
    m.set_pixel(0, 0, true);
    steps(&mut m, 3);
    assert_eq!(lit(&m), vec![(0, 0)]);
    assert_eq!(m.register(0xF), Some(0));
    assert_eq!(m.pc(), 0x206);
}

#[test]
fn draw_twice_restores_any_display() {
    let mut m = program(&[0x6005, 0x6107, 0xA300, 0xD014, 0xD014]);
    for (k, b) in [0x3Cu8, 0x42, 0x99, 0xE7].iter().enumerate() {
        assert_eq!(m.write_byte(0x300 + k as u16, *b), Ok(()));
    }
    m.set_pixel(7, 7, true);
    m.set_pixel(8, 9, true);
    m.set_pixel(40, 20, true);
    let before = *m.display();
    steps(&mut m, 4);
    assert_ne!(*m.display(), before);
    steps(&mut m, 1);
    assert_eq!(*m.display(), before);
}

#[test]
fn draw_source_past_the_end_is_an_address_violation() {
    let mut m = program(&[0xAFFF, 0xD012]);
    assert_eq!(m.write_byte(0xFFF, 0xFF), Ok(()));
    steps(&mut m, 1);
    assert_eq!(m.step(0), Err(Fault::AddressViolation));
    assert!(lit(&m).is_empty());
    assert_eq!(m.pc(), 0x202);
    let mut m = program(&[0xAFFF, 0xD011]);
    assert_eq!(m.write_byte(0xFFF, 0xFF), Ok(()));
    steps(&mut m, 2);
    assert_eq!(lit(&m).len(), 8);
}
