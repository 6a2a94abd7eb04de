use chip8::Chip8;

fn program(words: &[u16]) -> Chip8 {
    let mut rom = Vec::new();
    for w in words {
        rom.push((w >> 8) as u8);
        rom.push((w & 0xFF) as u8);
    }
    let mut m = Chip8::new();
    assert_eq!(m.load_rom(&rom), Ok(()));
    m
}

#[test]
fn wait_key_suspends_until_a_key_is_pressed() {
    let mut m = program(&[0xF30A, 0x6A11]);
    assert_eq!(m.step(0), Ok(()));
    assert!(m.is_waiting_for_key());
    assert_eq!(m.pc(), 0x200);
    for _ in 0..25 {
        assert_eq!(m.step(0), Ok(()));
        assert!(m.is_waiting_for_key());
        assert_eq!(m.pc(), 0x200);
        assert_eq!(m.register(3), Some(0));
    }
    assert!(m.press_key(0xB));
    assert_eq!(m.pending_key(), Some(0xB));
    assert!(m.is_waiting_for_key());
    assert_eq!(m.pc(), 0x200);
    assert_eq!(m.step(0), Ok(()));
    assert!(!m.is_waiting_for_key());
    assert_eq!(m.pending_key(), None);
    assert_eq!(m.register(3), Some(0xB));
    assert_eq!(m.register(0xA), Some(0));
    assert_eq!(m.pc(), 0x202);
    assert_eq!(m.step(0), Ok(()));
    assert_eq!(m.register(0xA), Some(0x11));
    assert_eq!(m.pc(), 0x204);
}

#[test]
fn wait_key_keeps_the_first_press() {
    let mut m = program(&[0xF00A]);
    assert_eq!(m.step(0), Ok(()));
    assert!(m.press_key(4));
    assert!(m.press_key(9));
    assert_eq!(m.pending_key(), Some(4));
    assert_eq!(m.step(0), Ok(()));
    assert_eq!(m.register(0), Some(4));
    assert!(m.is_key_down(4));
    assert!(m.is_key_down(9));
}

#[test]
fn wait_key_ignores_keys_pressed_before_it() {
    let mut m = program(&[0xF00A]);
    assert!(m.press_key(4));
    assert_eq!(m.pending_key(), None);
    assert_eq!(m.step(0), Ok(()));
    assert!(m.is_waiting_for_key());
    assert_eq!(m.step(0), Ok(()));
    assert!(m.is_waiting_for_key());
    assert_eq!(m.pc(), 0x200);
}

#[test]
fn wait_key_ignores_releases_and_unknown_keys() {
    let mut m = program(&[0xF00A]);
    assert_eq!(m.step(0), Ok(()));
    assert!(m.release_key(4));
    assert!(!m.press_key(16));
    assert_eq!(m.pending_key(), None);
    assert_eq!(m.step(0), Ok(()));
    assert!(m.is_waiting_for_key());
    assert_eq!(m.pc(), 0x200);
}

#[test]
fn wait_key_does_not_stop_the_timers() {
    let mut m = program(&[0x6A03, 0xFA15, 0xF00A]);
    for _ in 0..3 {
        assert_eq!(m.step(0), Ok(()));
    }
    assert!(m.is_waiting_for_key());
    m.tick_timers();
    assert_eq!(m.delay_timer(), 2);
    assert_eq!(m.step(0), Ok(()));
    assert_eq!(m.delay_timer(), 2);
}

#[test]
fn process_instruction_waits_for_a_key_too() {
    let mut m = program(&[0xF50A, 0xC5FF]);
    assert_eq!(m.process_instruction(), Ok(()));
    assert!(m.is_waiting_for_key());
    assert!(!m.draws_random());
    assert_eq!(m.process_instruction(), Ok(()));
    assert_eq!(m.pc(), 0x200);
    assert!(m.press_key(0));
    assert_eq!(m.process_instruction(), Ok(()));
    assert_eq!(m.register(5), Some(0));
    assert_eq!(m.pc(), 0x202);
    assert!(m.draws_random());
}
