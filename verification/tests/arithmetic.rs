//! The flag arithmetic, the timers and the keypad scan on plain values.

use chip8_core::alu::{add_with_carry, shift_left, shift_right, sub_with_borrow};
use chip8_core::keypad::scan_new_key;
use chip8_core::timer::tick_timer;

#[test]
fn add_with_carry_on_chosen_values() {
    assert_eq!(add_with_carry(2, 3), (5, false));
    assert_eq!(add_with_carry(0xFF, 1), (0, true));
    assert_eq!(add_with_carry(0xFF, 0xFF), (0xFE, true));
    assert_eq!(add_with_carry(0x80, 0x7F), (0xFF, false));
    assert_eq!(add_with_carry(0x80, 0x80), (0, true));
    // Sums from 256 to 264 carry too.
    assert_eq!(add_with_carry(0xFF, 0x09), (8, true));
}

#[test]
fn add_with_carry_on_every_pair() {
    for a in 0..=255u16 {
        for b in 0..=255u16 {
            let (sum, carry) = add_with_carry(a as u8, b as u8);
            assert_eq!(sum as u16, (a + b) % 256);
            assert_eq!(carry, a + b > 255);
        }
    }
}

#[test]
fn sub_with_borrow_on_chosen_values() {
    assert_eq!(sub_with_borrow(5, 3), (2, true));
    assert_eq!(sub_with_borrow(3, 5), (0xFE, false));
    assert_eq!(sub_with_borrow(7, 7), (0, true));
    assert_eq!(sub_with_borrow(0, 1), (0xFF, false));
    assert_eq!(sub_with_borrow(0, 0xFF), (1, false));
}

#[test]
fn shifts_hand_out_the_lost_bit() {
    assert_eq!(shift_right(0b0000_0101), (0b0000_0010, true));
    assert_eq!(shift_right(0b1000_0100), (0b0100_0010, false));
    assert_eq!(shift_right(0), (0, false));
    assert_eq!(shift_right(1), (0, true));
    assert_eq!(shift_left(0b1000_0001), (0b0000_0010, true));
    assert_eq!(shift_left(0b0100_0001), (0b1000_0010, false));
    assert_eq!(shift_left(0xFF), (0xFE, true));
    assert_eq!(shift_left(0), (0, false));
}

#[test]
fn timer_at_zero_does_not_move() {
    assert_eq!(tick_timer(0, 0), (0, 0));
    assert_eq!(tick_timer(0, 30), (0, 30));
    assert_eq!(tick_timer(0, 59), (0, 59));
}

#[test]
fn timer_counts_down_on_the_sixtieth_tick() {
    assert_eq!(tick_timer(5, 0), (5, 1));
    assert_eq!(tick_timer(5, 58), (5, 59));
    assert_eq!(tick_timer(5, 59), (4, 0));
    assert_eq!(tick_timer(1, 59), (0, 0));
    assert_eq!(tick_timer(255, 59), (254, 0));
}

#[test]
fn timer_with_a_count_beyond_the_period_counts_down() {
    assert_eq!(tick_timer(5, 60), (4, 0));
    assert_eq!(tick_timer(5, 255), (4, 0));
}

#[test]
fn timer_takes_sixty_ticks_per_decrement() {
    let (mut timer, mut count) = (3u8, 0u8);
    for tick in 1..=200 {
        (timer, count) = tick_timer(timer, count);
        let expected = match tick {
            1..=59 => 3,
            60..=119 => 2,
            120..=179 => 1,
            _ => 0,
        };
        assert_eq!(timer, expected);
    }
    assert_eq!(count, 0);
}

#[test]
fn scan_finds_the_lowest_new_key() {
    let up = [false; 16];
    let mut now = [false; 16];
    assert_eq!(scan_new_key(&up, &now), None);
    now[9] = true;
    assert_eq!(scan_new_key(&up, &now), Some(9));
    now[4] = true;
    assert_eq!(scan_new_key(&up, &now), Some(4));
    now[0] = true;
    assert_eq!(scan_new_key(&up, &now), Some(0));
    let mut last = [false; 16];
    last[15] = true;
    assert_eq!(scan_new_key(&up, &last), Some(15));
}

#[test]
fn scan_ignores_keys_that_were_already_down() {
    let mut before = [false; 16];
    before[2] = true;
    let mut now = [false; 16];
    now[2] = true;
    assert_eq!(scan_new_key(&before, &now), None);
    now[7] = true;
    assert_eq!(scan_new_key(&before, &now), Some(7));
    // A key that was released is not a press.
    before[1] = true;
    assert_eq!(scan_new_key(&before, &now), Some(7));
    assert_eq!(scan_new_key(&[true; 16], &[true; 16]), None);
}
