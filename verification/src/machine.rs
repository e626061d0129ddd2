//! The mathematical model of the machine: its state as plain values, and
//! what fetching, executing and stepping do to it.
//!
//! Where the instruction set leaves a choice, this is what the machine
//! does:
//!
//! - An instruction that cannot be carried out (a call on a full stack, a
//!   return on an empty one, a memory access beyond the last cell, an
//!   unknown opcode) changes nothing and is reported; the machine goes on
//!   with the instruction after it.
//! - The program counter always stays below 4096. Moving past an
//!   instruction, in a fetch or in a skip, goes to zero where it would
//!   reach or pass the end of memory; a jump with offset lands on the sum
//!   modulo 4096.
//! - The stack holds up to sixteen return addresses: the sixteenth nested
//!   call succeeds and the seventeenth overflows.
//! - An instruction that sets the flag reads its operands, then writes the
//!   flag, then writes its result, so that with `VF` as the destination
//!   the result is what stays.
//! - The index register is sixteen bits wide and wraps; adding to it does
//!   not touch the flag. It is only when an instruction reaches through
//!   it beyond the last cell that the instruction faults.
//! - A draw instruction reads its whole sprite, the rows that fall below
//!   the screen too, and faults if the sprite reaches beyond the last
//!   cell.
//! - Storing and loading registers leaves the index register as it was.
//! - A skip on a key number above fifteen does not skip, whether it asks
//!   for a key that is down or for one that is up.
//! - A wait for a key ends on a key that goes down, not on one that is
//!   held down since before.

use vstd::prelude::*;
use crate::error::Error;
use crate::font::{font_glyphs, glyph_address, FONT_BYTES};
use crate::instruction::{decode_spec, Instruction};
use crate::keypad::{first_new_key, KEY_COUNT};
use crate::screen::{blank_screen, collides, is_screen, xor_sprite, SCREEN_HEIGHT, SCREEN_WIDTH};
use crate::timer::{ticked, TIMER_PERIOD};

verus! {

/// Number of memory cells.
pub const MEMORY_SIZE: usize = 4096;

/// Address at which programs are loaded and at which execution starts.
pub const ENTRY: u16 = 0x200;

/// Number of general registers.
pub const REGISTER_COUNT: usize = 16;

/// The register that doubles as carry, borrow and collision flag.
pub const FLAG: u8 = 0xF;

/// Number of return addresses the stack holds.
pub const STACK_DEPTH: usize = 16;

/// Instructions per second of a machine that was not told otherwise.
pub const DEFAULT_CLOCK_SPEED: u64 = 700;

/// Microseconds in a second.
pub const MICROS_PER_SECOND: u64 = 1_000_000;

/// The program counter after moving past one instruction: two cells on, or
/// zero where that would reach or pass the end of memory.
pub open spec fn advance(pc: int) -> int {
    if pc + 2 >= MEMORY_SIZE {
        0
    } else {
        pc + 2
    }
}

/// A program of `len` bytes fits between the entry address and the end of
/// memory.
pub open spec fn program_fits(len: nat) -> bool {
    len <= MEMORY_SIZE - ENTRY
}

/// The whole architectural state.
#[verifier::ext_equal]
pub struct Machine {
    /// The 4096 memory cells.
    pub memory: Seq<u8>,
    /// The registers `V0` to `VF`.
    pub v: Seq<u8>,
    /// The index register `I`.
    pub index: int,
    /// The program counter.
    pub pc: int,
    /// The return addresses of the calls in progress, the oldest first.
    pub stack: Seq<int>,
    /// The delay timer.
    pub delay_timer: u8,
    /// The sound timer.
    pub sound_timer: u8,
    /// Ticks seen by the delay timer since it last counted down.
    pub delay_count: int,
    /// Ticks seen by the sound timer since it last counted down.
    pub sound_count: int,
    /// The keypad as of the latest tick, `true` for a key that is down.
    pub keys: Seq<bool>,
    /// The register that waits for a key, while execution is suspended.
    pub waiting: Option<u8>,
    /// The screen, 32 rows of 64 pixels.
    pub display: Seq<Seq<bool>>,
    /// Instructions per second.
    pub clock_speed: int,
    /// What the latest tick reported.
    pub fault: Option<Error>,
}

impl Machine {
    /// The invariants of a machine state.
    pub open spec fn wf(self) -> bool {
        &&& self.memory.len() == MEMORY_SIZE
        &&& self.v.len() == REGISTER_COUNT
        &&& 0 <= self.index <= u16::MAX
        &&& 0 <= self.pc < MEMORY_SIZE
        &&& self.stack.len() <= STACK_DEPTH
        &&& forall|k: int| 0 <= k < self.stack.len() ==> 0 <= #[trigger] self.stack[k] < MEMORY_SIZE
        &&& 0 <= self.delay_count < TIMER_PERIOD
        &&& 0 <= self.sound_count < TIMER_PERIOD
        &&& self.keys.len() == KEY_COUNT
        &&& (self.waiting matches Some(r) ==> r < REGISTER_COUNT)
        &&& is_screen(self.display)
        &&& 0 < self.clock_speed <= u64::MAX
    }

    /// The state of a machine that has just been made: the font in the
    /// first eighty cells, the program counter at the entry address,
    /// everything else zero.
    pub open spec fn power_on(clock_speed: int) -> Machine {
        Machine {
            memory: Seq::new(
                MEMORY_SIZE as nat,
                |a: int|
                    if a < FONT_BYTES {
                        font_glyphs()[a]
                    } else {
                        0u8
                    },
            ),
            v: Seq::new(REGISTER_COUNT as nat, |r: int| 0u8),
            index: 0,
            pc: ENTRY as int,
            stack: Seq::empty(),
            delay_timer: 0,
            sound_timer: 0,
            delay_count: 0,
            sound_count: 0,
            keys: Seq::new(KEY_COUNT as nat, |k: int| false),
            waiting: None,
            display: blank_screen(),
            clock_speed,
            fault: None,
        }
    }

    /// The state with the font written over the first eighty cells.
    pub open spec fn with_font(self) -> Machine {
        Machine {
            memory: Seq::new(
                MEMORY_SIZE as nat,
                |a: int|
                    if a < FONT_BYTES {
                        font_glyphs()[a]
                    } else {
                        self.memory[a]
                    },
            ),
            ..self
        }
    }

    /// The state with the font in the first eighty cells and `program`
    /// from the entry address on; every other cell as it was.
    pub open spec fn loaded(self, program: Seq<u8>) -> Machine {
        Machine {
            memory: Seq::new(
                MEMORY_SIZE as nat,
                |a: int|
                    if a < FONT_BYTES {
                        font_glyphs()[a]
                    } else if ENTRY <= a < ENTRY + program.len() {
                        program[a - ENTRY]
                    } else {
                        self.memory[a]
                    },
            ),
            ..self
        }
    }

    /// The four nibbles of the two cells at the program counter, the cell
    /// after the last one being cell zero.
    pub open spec fn fetched_opcode(self) -> (u8, u8, u8, u8) {
        let hi = self.memory[self.pc];
        let lo = self.memory[(self.pc + 1) % (MEMORY_SIZE as int)];
        ((hi / 16) as u8, (hi % 16) as u8, (lo / 16) as u8, (lo % 16) as u8)
    }

    /// The state after a fetch.
    pub open spec fn after_fetch(self) -> Machine {
        Machine { pc: advance(self.pc), ..self }
    }

    /// The value of register `x`.
    pub open spec fn reg(self, x: u8) -> u8 {
        self.v[x as int]
    }

    /// The state with `value` in register `x`.
    pub open spec fn set_reg(self, x: u8, value: u8) -> Machine {
        Machine { v: self.v.update(x as int, value), ..self }
    }

    /// The state with the flag register set to one or zero.
    pub open spec fn set_flag(self, on: bool) -> Machine {
        self.set_reg(
            FLAG,
            if on {
                1u8
            } else {
                0u8
            },
        )
    }

    /// The state with the next instruction skipped if `condition` holds.
    pub open spec fn skip_if(self, condition: bool) -> Machine {
        if condition {
            Machine { pc: advance(self.pc), ..self }
        } else {
            self
        }
    }

    /// `key` names a key and that key is down.
    pub open spec fn key_down(self, key: u8) -> bool {
        key < KEY_COUNT && self.keys[key as int]
    }

    /// `key` names a key and that key is up.
    pub open spec fn key_up(self, key: u8) -> bool {
        key < KEY_COUNT && !self.keys[key as int]
    }

    /// The `rows` bytes at the index register.
    pub open spec fn sprite(self, rows: u8) -> Seq<u8> {
        Seq::new(rows as nat, |k: int| self.memory[self.index + k])
    }

    /// Why `instr` cannot be carried out in this state, if it cannot.
    pub open spec fn fault_of(self, instr: Instruction) -> Option<Error> {
        match instr {
            Instruction::Return => if self.stack.len() == 0 {
                Some(Error::StackUnderflow)
            } else {
                None
            },
            Instruction::Call { .. } => if self.stack.len() >= STACK_DEPTH {
                Some(Error::StackOverflow)
            } else {
                None
            },
            Instruction::Draw { rows, .. } => if rows > 0 && self.index + rows > MEMORY_SIZE {
                Some(Error::MemoryFault)
            } else {
                None
            },
            Instruction::Bcd { .. } => if self.index + 2 >= MEMORY_SIZE {
                Some(Error::MemoryFault)
            } else {
                None
            },
            Instruction::Dump { x } | Instruction::Restore { x } => if self.index + x
                >= MEMORY_SIZE {
                Some(Error::MemoryFault)
            } else {
                None
            },
            Instruction::Unknown => Some(Error::UnknownOpcode),
            _ => None,
        }
    }

    /// The state after `instr` is carried out, `random` being the byte drawn
    /// for it if it is the random instruction. The program counter has
    /// already moved past the instruction.
    pub open spec fn carried_out(self, instr: Instruction, random: u8) -> Machine {
        match instr {
            Instruction::Clear => Machine { display: blank_screen(), ..self },
            Instruction::Return => Machine {
                pc: self.stack.last(),
                stack: self.stack.drop_last(),
                ..self
            },
            Instruction::Sys { .. } => self,
            Instruction::Jump { addr } => Machine { pc: addr as int, ..self },
            Instruction::Call { addr } => Machine {
                pc: addr as int,
                stack: self.stack.push(self.pc),
                ..self
            },
            Instruction::SkipEqImm { x, byte } => self.skip_if(self.reg(x) == byte),
            Instruction::SkipNeImm { x, byte } => self.skip_if(self.reg(x) != byte),
            Instruction::SkipEqReg { x, y } => self.skip_if(self.reg(x) == self.reg(y)),
            Instruction::SkipNeReg { x, y } => self.skip_if(self.reg(x) != self.reg(y)),
            Instruction::LoadImm { x, byte } => self.set_reg(x, byte),
            Instruction::AddImm { x, byte } => self.set_reg(
                x,
                ((self.reg(x) + byte) % 256) as u8,
            ),
            Instruction::Move { x, y } => self.set_reg(x, self.reg(y)),
            Instruction::Or { x, y } => self.set_reg(x, self.reg(x) | self.reg(y)),
            Instruction::And { x, y } => self.set_reg(x, self.reg(x) & self.reg(y)),
            Instruction::Xor { x, y } => self.set_reg(x, self.reg(x) ^ self.reg(y)),
            Instruction::AddReg { x, y } => {
                let sum = self.reg(x) + self.reg(y);
                self.set_flag(sum > 255).set_reg(x, (sum % 256) as u8)
            },
            Instruction::SubReg { x, y } => {
                let difference = self.reg(x) - self.reg(y);
                self.set_flag(difference >= 0).set_reg(x, (difference % 256) as u8)
            },
            Instruction::SubFrom { x, y } => {
                let difference = self.reg(y) - self.reg(x);
                self.set_flag(difference >= 0).set_reg(x, (difference % 256) as u8)
            },
            Instruction::ShiftRight { x } => {
                let value = self.reg(x);
                self.set_flag(value % 2 == 1).set_reg(x, (value / 2) as u8)
            },
            Instruction::ShiftLeft { x } => {
                let value = self.reg(x);
                self.set_flag(value >= 128).set_reg(x, ((value * 2) % 256) as u8)
            },
            Instruction::LoadIndex { addr } => Machine { index: addr as int, ..self },
            Instruction::JumpOffset { addr } => Machine {
                pc: (addr + self.reg(0)) % (MEMORY_SIZE as int),
                ..self
            },
            Instruction::Random { x, byte } => self.set_reg(x, byte & random),
            Instruction::Draw { x, y, rows } => {
                let x0 = self.reg(x) % (SCREEN_WIDTH as u8);
                let y0 = self.reg(y) % (SCREEN_HEIGHT as u8);
                let sprite = self.sprite(rows);
                Machine {
                    display: xor_sprite(self.display, sprite, x0 as int, y0 as int),
                    ..self.set_flag(collides(self.display, sprite, x0 as int, y0 as int))
                }
            },
            Instruction::SkipKey { x } => self.skip_if(self.key_down(self.reg(x))),
            Instruction::SkipNoKey { x } => self.skip_if(self.key_up(self.reg(x))),
            Instruction::GetDelay { x } => self.set_reg(x, self.delay_timer),
            Instruction::WaitKey { x } => Machine { waiting: Some(x), ..self },
            Instruction::SetDelay { x } => Machine { delay_timer: self.reg(x), ..self },
            Instruction::SetSound { x } => Machine { sound_timer: self.reg(x), ..self },
            Instruction::AddIndex { x } => Machine {
                index: (self.index + self.reg(x)) % 0x1_0000,
                ..self
            },
            Instruction::Glyph { x } => Machine { index: glyph_address(self.reg(x)), ..self },
            Instruction::Bcd { x } => {
                let value = self.reg(x);
                Machine {
                    memory: self.memory.update(self.index, (value / 100) as u8).update(
                        self.index + 1,
                        ((value / 10) % 10) as u8,
                    ).update(self.index + 2, (value % 10) as u8),
                    ..self
                }
            },
            Instruction::Dump { x } => Machine {
                memory: Seq::new(
                    MEMORY_SIZE as nat,
                    |a: int|
                        if self.index <= a <= self.index + x {
                            self.v[a - self.index]
                        } else {
                            self.memory[a]
                        },
                ),
                ..self
            },
            Instruction::Restore { x } => Machine {
                v: Seq::new(
                    REGISTER_COUNT as nat,
                    |r: int|
                        if r <= x {
                            self.memory[self.index + r]
                        } else {
                            self.v[r]
                        },
                ),
                ..self
            },
            Instruction::Unknown => self,
        }
    }

    /// The state after `instr` is executed: carried out where it can be,
    /// unchanged where it cannot.
    pub open spec fn executed(self, instr: Instruction, random: u8) -> Machine {
        if self.fault_of(instr) is Some {
            self
        } else {
            self.carried_out(instr, random)
        }
    }

    /// The state with both timers advanced by one tick.
    pub open spec fn after_timers(self) -> Machine {
        let (delay_timer, delay_count) = ticked(self.delay_timer, self.delay_count);
        let (sound_timer, sound_count) = ticked(self.sound_timer, self.sound_count);
        Machine { delay_timer, delay_count, sound_timer, sound_count, ..self }
    }

    /// The state after one tick with `keys` as the keypad and `random` as
    /// the byte drawn if a random instruction is executed.
    ///
    /// The timers advance and the keypad is replaced. Then a machine that
    /// waits for a key looks for the lowest key that is down now and was
    /// up at the tick before: if there is one, its number goes to the
    /// waiting register and the wait is over; nothing is fetched either
    /// way. A machine that does not wait fetches, decodes and executes one
    /// instruction.
    pub open spec fn stepped(self, keys: Seq<bool>, random: u8) -> Machine {
        let current = Machine { keys, fault: None, ..self.after_timers() };
        match self.waiting {
            Some(r) => match first_new_key(self.keys, keys) {
                Some(k) => Machine { waiting: None, ..current.set_reg(r, k) },
                None => current,
            },
            None => {
                let fetched = current.after_fetch();
                let instr = current.next_instruction();
                Machine { fault: fetched.fault_of(instr), ..fetched.executed(instr, random) }
            },
        }
    }

    /// Microseconds between two ticks.
    pub open spec fn tick_interval(self) -> int {
        MICROS_PER_SECOND as int / self.clock_speed
    }

    /// The buzzer sounds while the sound timer is not zero.
    pub open spec fn buzzer_active(self) -> bool {
        self.sound_timer > 0
    }

    /// The instruction at the program counter.
    pub open spec fn next_instruction(self) -> Instruction {
        decode_spec(self.fetched_opcode())
    }

    /// The next tick executes a random instruction.
    pub open spec fn draws_random(self) -> bool {
        self.waiting is None && self.next_instruction() is Random
    }
}

} // verus!
