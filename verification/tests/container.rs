use chip8::{Chip8, Fault, FONT_SET};

#[test]
fn new_machine_is_cleared() {
    let m = Chip8::new();
    assert_eq!(m.pc(), 0x200);
    assert_eq!(m.sp(), 0);
    assert_eq!(m.index(), 0);
    assert_eq!(m.delay_timer(), 0);
    assert_eq!(m.sound_timer(), 0);
    assert!(!m.is_waiting_for_key());
    assert_eq!(m.pending_key(), None);
    for x in 0..16u8 {
        assert_eq!(m.register(x), Some(0));
        assert!(!m.is_key_down(x));
    }
    assert!(m.display().iter().all(|on| !*on));
    for addr in 80..4096u16 {
        assert_eq!(m.read_byte(addr), Ok(0));
    }
}

#[test]
fn new_machine_holds_the_font() {
    let m = Chip8::new();
    for k in 0..80usize {
        assert_eq!(m.read_byte(k as u16), Ok(FONT_SET[k]));
    }
    assert_eq!(&FONT_SET[0..5], &[0xF0, 0x90, 0x90, 0x90, 0xF0]);
    assert_eq!(&FONT_SET[5..10], &[0x20, 0x60, 0x20, 0x20, 0x70]);
    assert_eq!(&FONT_SET[75..80], &[0xF0, 0x80, 0xF0, 0x80, 0x80]);
}

#[test]
fn read_byte_is_bounds_checked() {
    let m = Chip8::new();
    assert_eq!(m.read_byte(0), Ok(0xF0));
    assert_eq!(m.read_byte(0xFFF), Ok(0));
    assert_eq!(m.read_byte(0x1000), Err(Fault::AddressViolation));
    assert_eq!(m.read_byte(0xFFFF), Err(Fault::AddressViolation));
}

#[test]
fn write_byte_is_bounds_checked() {
    let mut m = Chip8::new();
    assert_eq!(m.write_byte(0x300, 0xAB), Ok(()));
    assert_eq!(m.read_byte(0x300), Ok(0xAB));
    assert_eq!(m.write_byte(0xFFF, 0xCD), Ok(()));
    assert_eq!(m.read_byte(0xFFF), Ok(0xCD));
    assert_eq!(m.write_byte(80, 0x11), Ok(()));
    assert_eq!(m.read_byte(80), Ok(0x11));
    assert_eq!(m.write_byte(0x1000, 1), Err(Fault::AddressViolation));
}

#[test]
fn write_byte_protects_the_font() {
    let mut m = Chip8::new();
    assert_eq!(m.write_byte(0, 0), Err(Fault::AddressViolation));
    assert_eq!(m.write_byte(79, 0), Err(Fault::AddressViolation));
    for k in 0..80usize {
        assert_eq!(m.read_byte(k as u16), Ok(FONT_SET[k]));
    }
}

#[test]
fn registers_are_validated() {
    let mut m = Chip8::new();
    assert!(m.set_register(0, 7));
    assert!(m.set_register(15, 9));
    assert!(!m.set_register(16, 1));
    assert!(!m.set_register(255, 1));
    assert_eq!(m.register(0), Some(7));
    assert_eq!(m.register(15), Some(9));
    assert_eq!(m.register(1), Some(0));
    assert_eq!(m.register(16), None);
    assert_eq!(m.register(255), None);
}

#[test]
fn push_then_pop_returns_the_address() {
    let mut m = Chip8::new();
    assert_eq!(m.push(0x234), Ok(()));
    assert_eq!(m.sp(), 1);
    assert_eq!(m.push(0x456), Ok(()));
    assert_eq!(m.sp(), 2);
    assert_eq!(m.pop(), Ok(0x456));
    assert_eq!(m.pop(), Ok(0x234));
    assert_eq!(m.sp(), 0);
}

#[test]
fn pop_on_empty_stack_underflows() {
    let mut m = Chip8::new();
    assert_eq!(m.pop(), Err(Fault::StackUnderflow));
    assert_eq!(m.sp(), 0);
}

#[test]
fn push_on_full_stack_overflows() {
    let mut m = Chip8::new();
    for k in 0..15u16 {
        assert_eq!(m.push(0x200 + k), Ok(()));
    }
    assert_eq!(m.sp(), 15);
    assert_eq!(m.push(0x999), Err(Fault::StackOverflow));
    assert_eq!(m.sp(), 15);
    assert_eq!(m.pop(), Ok(0x20E));
}

#[test]
fn pixels_wrap_around() {
    let mut m = Chip8::new();
    m.set_pixel(3, 2, true);
    assert!(m.pixel(3, 2));
    assert!(m.pixel(3 + 64, 2 + 32));
    assert!(m.pixel(3 + 128, 2));
    assert!(m.display()[2 * 64 + 3]);
    assert_eq!(m.display().iter().filter(|on| **on).count(), 1);
    m.set_pixel(64 + 63, 32 + 31, true);
    assert!(m.pixel(63, 31));
    assert!(m.display()[2047]);
    m.set_pixel(67, 34, false);
    assert!(!m.pixel(3, 2));
}

#[test]
fn toggle_pixel_reports_the_old_value() {
    let mut m = Chip8::new();
    assert!(!m.toggle_pixel(10, 5));
    assert!(m.pixel(10, 5));
    assert!(m.toggle_pixel(10 + 64, 5 + 32));
    assert!(!m.pixel(10, 5));
}

#[test]
fn clear_display_turns_everything_off() {
    let mut m = Chip8::new();
    m.set_pixel(0, 0, true);
    m.set_pixel(63, 31, true);
    m.clear_display();
    assert!(m.display().iter().all(|on| !*on));
}

#[test]
fn load_rom_copies_to_program_start() {
    let mut m = Chip8::new();
    assert_eq!(m.load_rom(&[1, 2, 3]), Ok(()));
    assert_eq!(m.read_byte(0x1FF), Ok(0));
    assert_eq!(m.read_byte(0x200), Ok(1));
    assert_eq!(m.read_byte(0x201), Ok(2));
    assert_eq!(m.read_byte(0x202), Ok(3));
    assert_eq!(m.read_byte(0x203), Ok(0));
    assert_eq!(m.pc(), 0x200);
}

#[test]
fn load_rom_accepts_an_empty_program() {
    let mut m = Chip8::new();
    assert_eq!(m.load_rom(&[]), Ok(()));
    assert_eq!(m.read_byte(0x200), Ok(0));
}

#[test]
fn load_rom_fills_memory_to_the_end() {
    let mut m = Chip8::new();
    let rom = vec![0x5A; 4096 - 0x200];
    assert_eq!(m.load_rom(&rom), Ok(()));
    assert_eq!(m.read_byte(0x200), Ok(0x5A));
    assert_eq!(m.read_byte(0xFFF), Ok(0x5A));
}

#[test]
fn load_rom_rejects_a_program_that_does_not_fit() {
    let mut m = Chip8::new();
    let rom = vec![0x5A; 4096 - 0x200 + 1];
    assert_eq!(m.load_rom(&rom), Err(Fault::AddressViolation));
    assert_eq!(m.read_byte(0x200), Ok(0));
    assert_eq!(m.read_byte(0xFFF), Ok(0));
}

#[test]
fn keys_go_down_and_up() {
    let mut m = Chip8::new();
    assert!(m.press_key(0xA));
    assert!(m.is_key_down(0xA));
    assert!(!m.is_key_down(0xB));
    assert!(m.release_key(0xA));
    assert!(!m.is_key_down(0xA));
    assert!(!m.press_key(16));
    assert!(!m.release_key(16));
    assert!(!m.is_key_down(16));
    assert_eq!(m.pending_key(), None);
}

#[test]
fn clone_is_an_independent_copy() {
    let mut m = Chip8::new();
    assert_eq!(m.load_rom(&[0x6A, 0x12]), Ok(()));
    m.set_pixel(1, 1, true);
    assert!(m.press_key(3));
    let snapshot = m.clone();
    assert_eq!(m.step(0), Ok(()));
    m.clear_display();
    assert_eq!(m.register(0xA), Some(0x12));
    assert_eq!(snapshot.register(0xA), Some(0));
    assert_eq!(snapshot.pc(), 0x200);
    assert!(snapshot.pixel(1, 1));
    assert!(snapshot.is_key_down(3));
    assert_eq!(snapshot.read_byte(0x200), Ok(0x6A));
}
