//! Construction and loading.

use chip8_core::error::Error;
use chip8_core::font::FONT;
use chip8_core::interpreter::Interpreter;

#[test]
fn new_machine_is_zeroed_with_the_font_installed() {
    let machine = Interpreter::new();
    let memory = machine.memory();
    assert_eq!(memory[..80], FONT[..]);
    assert!(memory[80..].iter().all(|cell| *cell == 0));
    assert_eq!(machine.registers(), [0; 16]);
    assert_eq!(machine.index(), 0);
    assert_eq!(machine.program_counter(), 0x200);
    assert_eq!(machine.stack_pointer(), 0);
    assert_eq!(machine.return_addresses(), Vec::<u16>::new());
    assert_eq!(machine.delay_timer(), 0);
    assert_eq!(machine.sound_timer(), 0);
    assert_eq!(machine.waiting_for_key(), None);
    assert_eq!(machine.last_fault(), None);
    assert_eq!(machine.clock_speed(), 700);
    assert!(machine.display().iter().all(|row| row.iter().all(|pixel| !pixel)));
    assert!(!machine.buzzer_active());
}

#[test]
fn font_starts_with_zero_and_ends_with_f() {
    assert_eq!(FONT[..5], [0xF0, 0x90, 0x90, 0x90, 0xF0]);
    assert_eq!(FONT[75..], [0xF0, 0x80, 0xF0, 0x80, 0x80]);
}

#[test]
fn load_places_program_at_entry_and_keeps_font() {
    let mut machine = Interpreter::new();
    let program: Vec<u8> = (0..100).map(|n| (n * 7 + 3) as u8).collect();
    assert_eq!(machine.load(program.clone()), Ok(()));
    let memory = machine.memory();
    assert_eq!(memory[..80], FONT[..]);
    assert!(memory[80..0x200].iter().all(|cell| *cell == 0));
    assert_eq!(memory[0x200..0x200 + 100], program[..]);
    assert!(memory[0x200 + 100..].iter().all(|cell| *cell == 0));
    assert_eq!(machine.program_counter(), 0x200);
}

#[test]
fn load_accepts_a_program_that_fills_memory() {
    let mut machine = Interpreter::new();
    let program = vec![0xAB; 4096 - 0x200];
    assert_eq!(machine.load(program), Ok(()));
    assert_eq!(machine.memory()[0x200], 0xAB);
    assert_eq!(machine.memory()[4095], 0xAB);
    assert_eq!(machine.memory()[0x1FF], 0);
}

#[test]
fn load_accepts_an_empty_program() {
    let mut machine = Interpreter::new();
    let before = *machine.memory();
    assert_eq!(machine.load(Vec::new()), Ok(()));
    assert_eq!(*machine.memory(), before);
}

#[test]
fn load_refuses_a_program_one_byte_too_large() {
    let mut machine = Interpreter::new();
    assert_eq!(machine.load(vec![1, 2, 3]), Ok(()));
    let before = *machine.memory();
    assert_eq!(machine.load(vec![0xAB; 4096 - 0x200 + 1]), Err(Error::ProgramTooLarge));
    assert_eq!(*machine.memory(), before);
}

#[test]
fn load_restores_an_overwritten_font() {
    // I = 0, store V0..V2 (all zero) over the first glyph, then load again.
    let mut machine = Interpreter::new();
    assert_eq!(machine.load(vec![0xA0, 0x00, 0xF2, 0x55]), Ok(()));
    machine.step(&[false; 16]);
    machine.step(&[false; 16]);
    assert_eq!(machine.memory()[..3], [0, 0, 0]);
    assert_eq!(machine.load(vec![0x00, 0xE0]), Ok(()));
    assert_eq!(machine.memory()[..80], FONT[..]);
    assert_eq!(machine.memory()[0x200..0x204], [0x00, 0xE0, 0xF2, 0x55]);
}

#[test]
fn load_fonts_writes_only_the_first_eighty_cells() {
    let mut machine = Interpreter::new();
    assert_eq!(machine.load(vec![0xA0, 0x4E, 0xF3, 0x55, 9, 9]), Ok(()));
    machine.step(&[false; 16]);
    machine.step(&[false; 16]);
    // Cells 78 to 81 now hold V0..V3, which are zero.
    assert_eq!(machine.memory()[78..82], [0, 0, 0, 0]);
    machine.load_fonts();
    assert_eq!(machine.memory()[..80], FONT[..]);
    assert_eq!(machine.memory()[80..82], [0, 0]);
    assert_eq!(machine.memory()[0x200..0x206], [0xA0, 0x4E, 0xF3, 0x55, 9, 9]);
}

#[test]
fn clock_speed_sets_the_tick_interval() {
    assert_eq!(Interpreter::new().tick_interval_micros(), 1428);
    let fast = Interpreter::with_clock_speed(1_000_000).unwrap();
    assert_eq!(fast.tick_interval_micros(), 1);
    assert_eq!(fast.clock_speed(), 1_000_000);
    let slow = Interpreter::with_clock_speed(3).unwrap();
    assert_eq!(slow.tick_interval_micros(), 333_333);
    let faster = Interpreter::with_clock_speed(2_000_000).unwrap();
    assert_eq!(faster.tick_interval_micros(), 0);
}

#[test]
fn clock_speed_of_zero_is_refused() {
    assert!(Interpreter::with_clock_speed(0).is_none());
}
