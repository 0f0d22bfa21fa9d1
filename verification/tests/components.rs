//! Keypad, memory, stack, timers and quirk flags on their own.

use bytecore::chip8::config::{Config, Quirks};
use bytecore::chip8::keypad::Keypad;
use bytecore::chip8::memory::{Memory, MemoryError};
use bytecore::chip8::stack::{Stack, StackError};
use bytecore::chip8::timers::Timers;

#[test]
fn test_keypad_set_then_read_back() {
    let mut keypad = Keypad::new();
    assert_eq!(keypad.get_key_pressed(), None);
    keypad.set_key_pressed(0xC, true);
    keypad.set_key_pressed(0x3, true);
    assert!(keypad.is_key_pressed(0xC));
    assert!(keypad.is_key_pressed(0x3));
    assert!(!keypad.is_key_pressed(0x4));
    assert_eq!(keypad.get_key_pressed(), Some(0x3), "the lowest pressed key comes first");
    keypad.set_key_pressed(0x3, false);
    assert_eq!(keypad.get_key_pressed(), Some(0xC));
}

#[test]
fn test_keypad_ignores_codes_past_f() {
    let mut keypad = Keypad::new();
    keypad.set_key_pressed(0x10, true);
    keypad.set_key_pressed(0xFF, true);
    assert!(!keypad.is_key_pressed(0x10));
    assert!(!keypad.is_key_pressed(0xFF));
    assert_eq!(keypad.get_key_pressed(), None);
}

#[test]
fn test_memory_holds_font_after_rom_load() {
    let mut mem = Memory::new();
    // Digit 0 of the font at 0x050, digit F ends at 0x09F.
    assert_eq!(mem.read_byte(0x050), Ok(0xF0));
    assert_eq!(mem.read_byte(0x051), Ok(0x90));
    assert_eq!(mem.read_byte(0x09F), Ok(0x80));
    assert_eq!(mem.read_byte(0x04F), Ok(0x00));
    mem.write_rom(&[0x12, 0x34, 0x56]).unwrap();
    assert_eq!(mem.read_word(0x200), Ok(0x1234), "words are big-endian");
    assert_eq!(mem.read_byte(0x202), Ok(0x56));
    assert_eq!(mem.read_byte(0x050), Ok(0xF0), "the font survives loading a program");
}

#[test]
fn test_memory_bounds() {
    let mut mem = Memory::new();
    assert_eq!(mem.read_byte(0x1000), Err(MemoryError::OutOfBounds(0x1000)));
    assert_eq!(mem.write_byte(0x1000, 1), Err(MemoryError::OutOfBounds(0x1000)));
    assert_eq!(mem.read_word(0xFFF), Err(MemoryError::OutOfBounds(0x1000)));
    assert_eq!(mem.read_word(0xFFFF), Err(MemoryError::OutOfBounds(0xFFFF)));
    assert_eq!(mem.write_byte(0xFFF, 7), Ok(()));
    assert_eq!(mem.read_byte(0xFFF), Ok(7));
    // The largest program fits exactly; one byte more does not.
    assert_eq!(mem.write_rom(&vec![1u8; 3584]), Ok(()));
    assert_eq!(mem.read_byte(0xFFF), Ok(1));
    assert_eq!(mem.write_rom(&vec![2u8; 3585]), Err(MemoryError::RomTooLarge(3585)));
    assert_eq!(mem.read_byte(0xFFF), Ok(1), "a refused program changes nothing");
}

#[test]
fn test_stack_is_last_in_first_out() {
    let mut stack = Stack::new();
    assert_eq!(stack.pop(), Err(StackError::Underflow));
    for v in 0..16u16 {
        assert_eq!(stack.push(0x200 + v), Ok(()));
    }
    assert_eq!(stack.depth(), 16);
    assert_eq!(stack.push(0x999), Err(StackError::Overflow));
    for v in (0..16u16).rev() {
        assert_eq!(stack.pop(), Ok(0x200 + v));
    }
    assert_eq!(stack.pop(), Err(StackError::Underflow));
    assert_eq!(StackError::Overflow.message(), "Stack overflow");
    assert_eq!(StackError::Underflow.message(), "Stack underflow");
}

#[test]
fn test_timers_count_down_independently() {
    let mut timers = Timers::new();
    timers.delay = 2;
    timers.sound = 1;
    timers.update();
    assert_eq!((timers.delay, timers.sound), (1, 0));
    timers.update();
    assert_eq!((timers.delay, timers.sound), (0, 0));
    timers.update();
    assert_eq!((timers.delay, timers.sound), (0, 0));
}

#[test]
fn test_quirk_presets() {
    assert_eq!(Quirks::modern(), Quirks::empty());
    assert_eq!(Quirks::default(), Quirks::modern());
    assert_eq!(Quirks::modern().names(), "empty");
    assert_eq!(Quirks::hp48().names(), "JUMP_VX");
    assert_eq!(Quirks::cosmac_vip().names(), "SHIFT_VY | I_INCREMENT | VF_RESET | WAIT_VBLANK");
    assert!(Quirks::cosmac_vip().contains(Quirks::shift_vy()));
    assert!(Quirks::cosmac_vip().contains(Quirks::i_increment()));
    assert!(Quirks::cosmac_vip().contains(Quirks::vf_reset()));
    assert!(!Quirks::cosmac_vip().contains(Quirks::jump_vx()));
    assert!(Quirks::modern().contains(Quirks::empty()));
    assert_eq!(Quirks::from_bits_truncate(0xFF).bits(), 0xFF);
    assert_eq!(
        Quirks::from_bits_truncate(0xE0).names(),
        "KEY_RELEASE | SPRITE_WRAP | I_OVERFLOW_VF"
    );
    let config = Config::new();
    assert_eq!(config.cpu_hz, 700);
    assert_eq!(config.quirks, Quirks::modern());
    assert_eq!(Config::default(), config);
}

use bytecore::chip8::cpu::{seed_from_nanos, Cpu};

#[test]
fn test_seed_from_clock_reading() {
    assert_eq!(seed_from_nanos(0), 1);
    assert_eq!(seed_from_nanos(41), 42);
    assert_eq!(seed_from_nanos(0xFFFF_FFFF), 0, "the low 32 bits wrap");
    assert_eq!(seed_from_nanos(0x1_0000_0005), 6, "only the low 32 bits count");
    assert_eq!(seed_from_nanos(1_700_000_000_123_456_789), (1_700_000_000_123_456_789u128 as u32).wrapping_add(1));
}

#[test]
fn test_cpu_seeded_from_clock_reading() {
    let cpu = Cpu::with_clock_reading(0x1_0000_0009);
    assert_eq!(cpu.rng_state, 10);
    assert_eq!(cpu.program_counter(), 0x200);
    assert_eq!(cpu.registers(), &[0u8; 16]);
}
