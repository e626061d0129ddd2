//! Whole programs run through `load` and `step`.

use chip8_core::error::Error;
use chip8_core::interpreter::Interpreter;

const NO_KEYS: [bool; 16] = [false; 16];

fn loaded(program: Vec<u8>) -> Interpreter {
    let mut machine = Interpreter::new();
    assert_eq!(machine.load(program), Ok(()));
    machine
}

#[test]
fn clear_screen_program_blanks_the_screen() {
    // Draw a glyph first so that there is something to clear.
    let mut machine = loaded(vec![0xD0, 0x05, 0x00, 0xE0]);
    let drawn = machine.step(&NO_KEYS).unwrap();
    assert!(drawn.iter().any(|row| row.iter().any(|pixel| *pixel)));
    let frame = machine.step(&NO_KEYS).unwrap();
    assert!(frame.iter().all(|row| row.iter().all(|pixel| !pixel)));
    assert_eq!(machine.program_counter(), 0x204);
}

#[test]
fn clear_screen_as_first_instruction() {
    let mut machine = loaded(vec![0x00, 0xE0]);
    let frame = machine.step(&NO_KEYS).unwrap();
    assert!(frame.iter().all(|row| row.iter().all(|pixel| !pixel)));
    assert_eq!(machine.program_counter(), 0x202);
    assert_eq!(machine.last_fault(), None);
}

#[test]
fn load_then_add_immediate() {
    let mut machine = loaded(vec![0x6A, 0x02, 0x7A, 0x03]);
    machine.step(&NO_KEYS);
    assert_eq!(machine.registers()[0xA], 2);
    machine.step(&NO_KEYS);
    assert_eq!(machine.registers()[0xA], 5);
    assert_eq!(machine.registers()[0xF], 0);
}

#[test]
fn register_add_overflows_into_the_flag() {
    // VA = 0xFF, V0 = 1, VA += V0.
    let mut machine = loaded(vec![0x6A, 0xFF, 0x60, 0x01, 0x8A, 0x04]);
    machine.step(&NO_KEYS);
    machine.step(&NO_KEYS);
    machine.step(&NO_KEYS);
    assert_eq!(machine.registers()[0xA], 0x00);
    assert_eq!(machine.registers()[0xF], 1);
}

#[test]
fn drawing_a_row_twice_erases_it() {
    // The sprite is the byte 0xFF stored right after the program.
    // V0 = 8, V1 = 4, I = 0x20A, draw, draw.
    let mut machine =
        loaded(vec![0x60, 0x08, 0x61, 0x04, 0xA2, 0x0A, 0xD0, 0x11, 0xD0, 0x11, 0xFF]);
    machine.step(&NO_KEYS);
    machine.step(&NO_KEYS);
    machine.step(&NO_KEYS);
    let first = machine.step(&NO_KEYS).unwrap();
    for column in 0..64 {
        assert_eq!(first[4][column], (8..16).contains(&column));
    }
    assert_eq!(machine.registers()[0xF], 0);
    let second = machine.step(&NO_KEYS).unwrap();
    assert!(second.iter().all(|row| row.iter().all(|pixel| !pixel)));
    assert_eq!(machine.registers()[0xF], 1);
}

#[test]
fn call_then_return() {
    // 0x200: call 0x204; 0x202: (return lands here); 0x204: return.
    let mut machine = loaded(vec![0x22, 0x04, 0x00, 0x00, 0x00, 0xEE]);
    let before = machine.program_counter();
    let depth = machine.stack_pointer();
    machine.step(&NO_KEYS);
    assert_eq!(machine.program_counter(), 0x204);
    assert_eq!(machine.return_addresses(), vec![before + 2]);
    assert_eq!(machine.stack_pointer(), depth + 1);
    machine.step(&NO_KEYS);
    assert_eq!(machine.program_counter(), before + 2);
    assert_eq!(machine.stack_pointer(), depth);
    assert_eq!(machine.last_fault(), None);
}

#[test]
fn seventeenth_nested_call_overflows() {
    // One instruction that calls itself.
    let mut machine = loaded(vec![0x22, 0x00]);
    for depth in 1..=16 {
        machine.step(&NO_KEYS);
        assert_eq!(machine.last_fault(), None);
        assert_eq!(machine.stack_pointer(), depth);
    }
    let stack = machine.return_addresses();
    let memory = *machine.memory();
    machine.step(&NO_KEYS);
    assert_eq!(machine.last_fault(), Some(Error::StackOverflow));
    assert_eq!(machine.stack_pointer(), 16);
    assert_eq!(machine.return_addresses(), stack);
    assert_eq!(*machine.memory(), memory);
    // The faulting call was skipped.
    assert_eq!(machine.program_counter(), 0x202);
}

#[test]
fn nested_calls_return_in_reverse_order() {
    // Three subroutines, each calling the next; the last returns and the
    // others return right after their call.
    let mut machine = loaded(vec![
        0x22, 0x06, // 0x200: call 0x206
        0x00, 0x00, // 0x202
        0x00, 0x00, // 0x204
        0x22, 0x0A, // 0x206: call 0x20A
        0x00, 0xEE, // 0x208: return
        0x22, 0x0E, // 0x20A: call 0x20E
        0x00, 0xEE, // 0x20C: return
        0x00, 0xEE, // 0x20E: return
    ]);
    machine.step(&NO_KEYS);
    machine.step(&NO_KEYS);
    machine.step(&NO_KEYS);
    assert_eq!(machine.return_addresses(), vec![0x202, 0x208, 0x20C]);
    machine.step(&NO_KEYS);
    assert_eq!(machine.program_counter(), 0x20C);
    machine.step(&NO_KEYS);
    assert_eq!(machine.program_counter(), 0x208);
    machine.step(&NO_KEYS);
    assert_eq!(machine.program_counter(), 0x202);
    assert_eq!(machine.stack_pointer(), 0);
}

#[test]
fn return_on_an_empty_stack_underflows() {
    let mut machine = loaded(vec![0x00, 0xEE]);
    machine.step(&NO_KEYS);
    assert_eq!(machine.last_fault(), Some(Error::StackUnderflow));
    assert_eq!(machine.stack_pointer(), 0);
    assert_eq!(machine.program_counter(), 0x202);
}

#[test]
fn unknown_opcode_is_reported_and_skipped() {
    let mut machine = loaded(vec![0x80, 0x19, 0x6A, 0x07]);
    let registers = machine.registers();
    machine.step(&NO_KEYS);
    assert_eq!(machine.last_fault(), Some(Error::UnknownOpcode));
    assert_eq!(machine.registers(), registers);
    assert_eq!(machine.program_counter(), 0x202);
    machine.step(&NO_KEYS);
    assert_eq!(machine.last_fault(), None);
    assert_eq!(machine.registers()[0xA], 7);
}

#[test]
fn step_always_hands_out_the_screen() {
    let mut machine = loaded(vec![0x6A, 0x02]);
    let frame = machine.step(&NO_KEYS);
    assert_eq!(frame, Some(machine.display()));
}
