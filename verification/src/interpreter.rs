//! The executable machine. Each operation is specified by the function of
//! the model that it implements.

use vstd::prelude::*;
use crate::alu::{add_with_carry, shift_left, shift_right, sub_with_borrow};
use crate::error::Error;
use crate::font::{font_glyphs, FONT, FONT_BYTES, GLYPH_BYTES};
use crate::instruction::{decode, Instruction};
use crate::keypad::scan_new_key;
use crate::machine::{
    program_fits, Machine, DEFAULT_CLOCK_SPEED, ENTRY, MEMORY_SIZE, MICROS_PER_SECOND,
    STACK_DEPTH,
};
use crate::screen::{draw_sprite, screen_view};
use crate::timer::{tick_timer, TIMER_PERIOD};

verus! {

/// The report of an execution: `Ok` where the instruction was carried out,
/// the fault where it was not.
pub open spec fn report_of(fault: Option<Error>) -> Result<(), Error> {
    match fault {
        Some(e) => Err(e),
        None => Ok(()),
    }
}

/// Draws a byte with `rand::random`. Nothing is claimed of the byte: a
/// caller has to be right for each of the 256 values.
#[verifier::external_body]
fn random_byte() -> (byte: u8) {
    rand::random::<u8>()
}

/// A CHIP-8 machine. Its view is the `Machine` that it stands for.
pub struct Interpreter {
    /// The memory cells.
    memory: [u8; 4096],
    /// The registers `V0` to `VF`.
    v: [u8; 16],
    /// The index register.
    i: u16,
    /// The program counter.
    pc: u16,
    /// The delay timer.
    delay_timer: u8,
    /// The sound timer.
    sound_timer: u8,
    /// Ticks seen by the delay timer since it last counted down.
    delay_count: u8,
    /// Ticks seen by the sound timer since it last counted down.
    sound_count: u8,
    /// Number of calls in progress: the first free slot of `stack`.
    sp: u8,
    /// The return addresses; those from `sp` on are stale.
    stack: [u16; 16],
    /// Instructions per second.
    clock_speed: u64,
    /// The keypad as of the latest tick.
    keys: [bool; 16],
    /// The register that waits for a key, while execution is suspended.
    waiting_for_key: Option<u8>,
    /// The screen, a row per entry.
    display: [[bool; 64]; 32],
    /// What the latest tick reported.
    fault: Option<Error>,
}

impl View for Interpreter {
    type V = Machine;

    /// The state that the fields hold. Of the stack only the addresses of
    /// the calls in progress count.
    closed spec fn view(&self) -> Machine {
        Machine {
            memory: self.memory@,
            v: self.v@,
            index: self.i as int,
            pc: self.pc as int,
            stack: Seq::new(self.sp as nat, |k: int| self.stack[k] as int),
            delay_timer: self.delay_timer,
            sound_timer: self.sound_timer,
            delay_count: self.delay_count as int,
            sound_count: self.sound_count as int,
            keys: self.keys@,
            waiting: self.waiting_for_key,
            display: screen_view(self.display),
            clock_speed: self.clock_speed as int,
            fault: self.fault,
        }
    }
}

impl Interpreter {
    /// What holds of every machine between two operations.
    #[verifier::type_invariant]
    closed spec fn inv(&self) -> bool {
        &&& self.pc < MEMORY_SIZE
        &&& self.sp <= STACK_DEPTH
        &&& forall|k: int| 0 <= k < self.sp ==> #[trigger] self.stack[k] < MEMORY_SIZE
        &&& self.delay_count < TIMER_PERIOD
        &&& self.sound_count < TIMER_PERIOD
        &&& self.clock_speed > 0
        &&& (self.waiting_for_key matches Some(r) ==> r < 16)
    }

    /// A machine within its invariant stands for a well-formed state.
    proof fn lemma_view_wf(self)
        requires
            self.inv(),
        ensures
            self@.wf(),
    {
    }

    /// Everything but the memory is the same in both machines.
    spec fn same_but_memory(self, other: Interpreter) -> bool {
        &&& self.v == other.v
        &&& self.i == other.i
        &&& self.pc == other.pc
        &&& self.delay_timer == other.delay_timer
        &&& self.sound_timer == other.sound_timer
        &&& self.delay_count == other.delay_count
        &&& self.sound_count == other.sound_count
        &&& self.sp == other.sp
        &&& self.stack == other.stack
        &&& self.clock_speed == other.clock_speed
        &&& self.keys == other.keys
        &&& self.waiting_for_key == other.waiting_for_key
        &&& self.display == other.display
        &&& self.fault == other.fault
    }

    /// Everything but the registers is the same in both machines.
    spec fn same_but_registers(self, other: Interpreter) -> bool {
        &&& self.memory == other.memory
        &&& self.i == other.i
        &&& self.pc == other.pc
        &&& self.delay_timer == other.delay_timer
        &&& self.sound_timer == other.sound_timer
        &&& self.delay_count == other.delay_count
        &&& self.sound_count == other.sound_count
        &&& self.sp == other.sp
        &&& self.stack == other.stack
        &&& self.clock_speed == other.clock_speed
        &&& self.keys == other.keys
        &&& self.waiting_for_key == other.waiting_for_key
        &&& self.display == other.display
        &&& self.fault == other.fault
    }

    /// A machine that runs at the default clock speed.
    pub fn new() -> (machine: Interpreter)
        ensures
            machine@ == Machine::power_on(DEFAULT_CLOCK_SPEED as int),
            machine@.wf(),
    {
        let mut machine = Interpreter {
            memory: [0; 4096],
            v: [0; 16],
            i: 0,
            pc: ENTRY,
            delay_timer: 0,
            sound_timer: 0,
            delay_count: 0,
            sound_count: 0,
            sp: 0,
            stack: [0; 16],
            clock_speed: DEFAULT_CLOCK_SPEED,
            keys: [false; 16],
            waiting_for_key: None,
            display: [[false; 64]; 32],
            fault: None,
        };
        machine.load_fonts();
        proof {
            assert(machine@ =~~= Machine::power_on(DEFAULT_CLOCK_SPEED as int));
        }
        machine
    }

    /// A machine that runs `speed` instructions per second, or nothing
    /// where `speed` is zero.
    pub fn with_clock_speed(speed: u64) -> (made: Option<Interpreter>)
        ensures
            speed == 0 ==> made is None,
            speed > 0 ==> made is Some && made->0@ == Machine::power_on(speed as int)
                && made->0@.wf(),
    {
        if speed == 0 {
            return None;
        }
        let mut machine = Interpreter::new();
        machine.clock_speed = speed;
        proof {
            machine.lemma_view_wf();
            assert(machine@ =~~= Machine::power_on(speed as int));
        }
        Some(machine)
    }

    /// Writes the font over the first eighty memory cells.
    pub fn load_fonts(&mut self)
        ensures
            final(self)@ == old(self)@.with_font(),
            final(self)@.wf(),
    {
        proof {
            use_type_invariant(&*self);
        }
        let mut a: usize = 0;
        while a < FONT_BYTES
            invariant
                a <= FONT_BYTES,
                self.inv(),
                self.same_but_memory(*old(self)),
                forall|b: int|
                    0 <= b < MEMORY_SIZE ==> #[trigger] self.memory@[b] == (if b < a {
                        font_glyphs()[b]
                    } else {
                        old(self).memory@[b]
                    }),
            decreases FONT_BYTES - a,
        {
            self.memory[a] = FONT[a];
            a = a + 1;
        }
        proof {
            self.lemma_view_wf();
            assert(self@ =~= old(self)@.with_font());
        }
    }

    /// Installs the font and copies `data` into memory from the entry
    /// address on. A program that does not fit is refused and the machine
    /// stays as it was.
    pub fn load(&mut self, data: Vec<u8>) -> (result: Result<(), Error>)
        ensures
            program_fits(data@.len()) ==> result is Ok && final(self)@ == old(self)@.loaded(
                data@,
            ),
            !program_fits(data@.len()) ==> result == Err::<(), Error>(Error::ProgramTooLarge)
                && final(self)@ == old(self)@,
            final(self)@.wf(),
    {
        proof {
            use_type_invariant(&*self);
            self.lemma_view_wf();
        }
        if data.len() > MEMORY_SIZE - ENTRY as usize {
            return Err(Error::ProgramTooLarge);
        }
        self.load_fonts();
        proof {
            use_type_invariant(&*self);
        }
        let ghost with_font = *self;
        let mut k: usize = 0;
        while k < data.len()
            invariant
                k <= data.len(),
                data.len() <= MEMORY_SIZE - ENTRY,
                self.inv(),
                self.same_but_memory(with_font),
                forall|b: int|
                    0 <= b < MEMORY_SIZE ==> #[trigger] self.memory@[b] == (if ENTRY <= b < ENTRY
                        + k {
                        data@[b - ENTRY]
                    } else {
                        with_font.memory@[b]
                    }),
            decreases data.len() - k,
        {
            self.memory[ENTRY as usize + k] = data[k];
            k = k + 1;
        }
        proof {
            self.lemma_view_wf();
            assert(self@ =~= old(self)@.loaded(data@));
        }
        Ok(())
    }

    /// Fetches the instruction at the program counter as four nibbles and
    /// moves the program counter past it.
    pub fn fetch(&mut self) -> (opcode: (u8, u8, u8, u8))
        ensures
            opcode == old(self)@.fetched_opcode(),
            final(self)@ == old(self)@.after_fetch(),
            final(self)@.wf(),
    {
        proof {
            use_type_invariant(&*self);
        }
        let hi: u8 = self.memory[self.pc as usize];
        let next: usize = if self.pc as usize + 1 >= MEMORY_SIZE {
            0
        } else {
            self.pc as usize + 1
        };
        let lo: u8 = self.memory[next];
        assert(hi >> 4 == hi / 16 && hi & 0xF == hi % 16) by (bit_vector);
        assert(lo >> 4 == lo / 16 && lo & 0xF == lo % 16) by (bit_vector);
        if self.pc as usize + 2 >= MEMORY_SIZE {
            self.pc = 0;
        } else {
            self.pc = self.pc + 2;
        }
        proof {
            self.lemma_view_wf();
        }
        (hi >> 4, hi & 0xF, lo >> 4, lo & 0xF)
    }

    /// Writes `value` to register `x`.
    fn set_reg(&mut self, x: u8, value: u8)
        requires
            x < 16,
        ensures
            final(self)@ == old(self)@.set_reg(x, value),
            final(self)@.wf(),
    {
        proof {
            use_type_invariant(&*self);
        }
        self.v[x as usize] = value;
        proof {
            self.lemma_view_wf();
            assert(self@ =~= old(self)@.set_reg(x, value));
        }
    }

    /// Writes the flag, then `value` to register `x`.
    fn set_flag_and_reg(&mut self, on: bool, x: u8, value: u8)
        requires
            x < 16,
        ensures
            final(self)@ == old(self)@.set_flag(on).set_reg(x, value),
            final(self)@.wf(),
    {
        proof {
            use_type_invariant(&*self);
        }
        self.v[0xF] = if on {
            1
        } else {
            0
        };
        self.v[x as usize] = value;
        proof {
            self.lemma_view_wf();
            assert(self@ =~= old(self)@.set_flag(on).set_reg(x, value));
        }
    }

    /// Skips the next instruction if `condition` holds.
    fn skip_if(&mut self, condition: bool)
        ensures
            final(self)@ == old(self)@.skip_if(condition),
            final(self)@.wf(),
    {
        proof {
            use_type_invariant(&*self);
        }
        if condition {
            if self.pc as usize + 2 >= MEMORY_SIZE {
                self.pc = 0;
            } else {
                self.pc = self.pc + 2;
            }
        }
        proof {
            self.lemma_view_wf();
        }
    }

    /// Pops the latest return address into the program counter.
    fn op_return(&mut self) -> (report: Result<(), Error>)
        ensures
            final(self)@ == old(self)@.executed(Instruction::Return, 0),
            report == report_of(old(self)@.fault_of(Instruction::Return)),
            final(self)@.wf(),
    {
        proof {
            use_type_invariant(&*self);
            self.lemma_view_wf();
        }
        if self.sp == 0 {
            return Err(Error::StackUnderflow);
        }
        self.sp = self.sp - 1;
        self.pc = self.stack[self.sp as usize];
        proof {
            self.lemma_view_wf();
            assert(self@ =~= old(self)@.executed(Instruction::Return, 0));
        }
        Ok(())
    }

    /// Pushes the program counter and jumps to `addr`.
    fn op_call(&mut self, addr: u16) -> (report: Result<(), Error>)
        requires
            addr < MEMORY_SIZE,
        ensures
            final(self)@ == old(self)@.executed(Instruction::Call { addr }, 0),
            report == report_of(old(self)@.fault_of(Instruction::Call { addr })),
            final(self)@.wf(),
    {
        proof {
            use_type_invariant(&*self);
            self.lemma_view_wf();
        }
        if self.sp as usize >= STACK_DEPTH {
            return Err(Error::StackOverflow);
        }
        self.stack[self.sp as usize] = self.pc;
        self.sp = self.sp + 1;
        self.pc = addr;
        proof {
            self.lemma_view_wf();
            assert(self@ =~= old(self)@.executed(Instruction::Call { addr }, 0));
        }
        Ok(())
    }

    /// Draws the sprite at the index register.
    fn op_draw(&mut self, x: u8, y: u8, rows: u8) -> (report: Result<(), Error>)
        requires
            x < 16,
            y < 16,
        ensures
            final(self)@ == old(self)@.executed(Instruction::Draw { x, y, rows }, 0),
            report == report_of(old(self)@.fault_of(Instruction::Draw { x, y, rows })),
            final(self)@.wf(),
    {
        proof {
            use_type_invariant(&*self);
            self.lemma_view_wf();
        }
        if rows > 0 && self.i as usize + rows as usize > MEMORY_SIZE {
            return Err(Error::MemoryFault);
        }
        let x0: usize = (self.v[x as usize] % 64) as usize;
        let y0: usize = (self.v[y as usize] % 32) as usize;
        let start: usize = if rows == 0 {
            0
        } else {
            self.i as usize
        };
        let mut display: [[bool; 64]; 32] = self.display;
        let collision: bool = draw_sprite(&mut display, &self.memory, start, rows as usize, x0, y0);
        self.display = display;
        self.v[0xF] = if collision {
            1
        } else {
            0
        };
        proof {
            self.lemma_view_wf();
            assert(old(self)@.sprite(rows) =~= old(self).memory@.subrange(
                start as int,
                start + rows,
            ));
            assert(self@ =~= old(self)@.executed(Instruction::Draw { x, y, rows }, 0));
        }
        Ok(())
    }

    /// Stores the three decimal digits of register `x` at the index
    /// register.
    fn op_bcd(&mut self, x: u8) -> (report: Result<(), Error>)
        requires
            x < 16,
        ensures
            final(self)@ == old(self)@.executed(Instruction::Bcd { x }, 0),
            report == report_of(old(self)@.fault_of(Instruction::Bcd { x })),
            final(self)@.wf(),
    {
        proof {
            use_type_invariant(&*self);
            self.lemma_view_wf();
        }
        if self.i as usize + 2 >= MEMORY_SIZE {
            return Err(Error::MemoryFault);
        }
        let value: u8 = self.v[x as usize];
        let at: usize = self.i as usize;
        self.memory[at] = value / 100;
        self.memory[at + 1] = (value / 10) % 10;
        self.memory[at + 2] = value % 10;
        proof {
            self.lemma_view_wf();
            assert(self@ =~= old(self)@.executed(Instruction::Bcd { x }, 0));
        }
        Ok(())
    }

    /// Stores the registers up to `x` at the index register.
    fn op_dump(&mut self, x: u8) -> (report: Result<(), Error>)
        requires
            x < 16,
        ensures
            final(self)@ == old(self)@.executed(Instruction::Dump { x }, 0),
            report == report_of(old(self)@.fault_of(Instruction::Dump { x })),
            final(self)@.wf(),
    {
        proof {
            use_type_invariant(&*self);
            self.lemma_view_wf();
        }
        if self.i as usize + x as usize >= MEMORY_SIZE {
            return Err(Error::MemoryFault);
        }
        let at: usize = self.i as usize;
        let mut r: usize = 0;
        while r <= x as usize
            invariant
                x < 16,
                r <= x + 1,
                at == self.i,
                at + x < MEMORY_SIZE,
                self.inv(),
                forall|a: int|
                    0 <= a < MEMORY_SIZE ==> #[trigger] self.memory@[a] == (if at <= a < at + r {
                        self.v@[a - at]
                    } else {
                        old(self).memory@[a]
                    }),
                self.same_but_memory(*old(self)),
            decreases x + 1 - r,
        {
            self.memory[at + r] = self.v[r];
            r = r + 1;
        }
        proof {
            self.lemma_view_wf();
            assert(self@ =~= old(self)@.executed(Instruction::Dump { x }, 0));
        }
        Ok(())
    }

    /// Loads the registers up to `x` from the index register.
    fn op_restore(&mut self, x: u8) -> (report: Result<(), Error>)
        requires
            x < 16,
        ensures
            final(self)@ == old(self)@.executed(Instruction::Restore { x }, 0),
            report == report_of(old(self)@.fault_of(Instruction::Restore { x })),
            final(self)@.wf(),
    {
        proof {
            use_type_invariant(&*self);
            self.lemma_view_wf();
        }
        if self.i as usize + x as usize >= MEMORY_SIZE {
            return Err(Error::MemoryFault);
        }
        let at: usize = self.i as usize;
        let mut r: usize = 0;
        while r <= x as usize
            invariant
                x < 16,
                r <= x + 1,
                at == self.i,
                at + x < MEMORY_SIZE,
                self.inv(),
                forall|k: int|
                    0 <= k < 16 ==> #[trigger] self.v@[k] == (if k < r {
                        self.memory@[at + k]
                    } else {
                        old(self).v@[k]
                    }),
                self.same_but_registers(*old(self)),
            decreases x + 1 - r,
        {
            self.v[r] = self.memory[at + r];
            r = r + 1;
        }
        proof {
            self.lemma_view_wf();
            assert(self@ =~= old(self)@.executed(Instruction::Restore { x }, 0));
        }
        Ok(())
    }

    /// Moves the program counter to `addr`.
    fn set_pc(&mut self, addr: u16)
        requires
            addr < MEMORY_SIZE,
        ensures
            final(self)@ == (Machine { pc: addr as int, ..old(self)@ }),
            final(self)@.wf(),
    {
        proof {
            use_type_invariant(&*self);
        }
        self.pc = addr;
        proof {
            self.lemma_view_wf();
        }
    }

    /// Sets the index register to `value`.
    fn set_index(&mut self, value: u16)
        ensures
            final(self)@ == (Machine { index: value as int, ..old(self)@ }),
            final(self)@.wf(),
    {
        proof {
            use_type_invariant(&*self);
        }
        self.i = value;
        proof {
            self.lemma_view_wf();
        }
    }

    /// Clearing the screen, returning, jumping and calling.
    fn execute_flow(&mut self, instr: Instruction) -> (report: Result<(), Error>)
        requires
            instr.wf(),
            is_flow(instr),
        ensures
            final(self)@ == old(self)@.executed(instr, 0),
            report == report_of(old(self)@.fault_of(instr)),
            final(self)@.wf(),
    {
        proof {
            use_type_invariant(&*self);
            self.lemma_view_wf();
        }
        match instr {
            Instruction::Clear => {
                self.display = [[false; 64]; 32];
                proof {
                    self.lemma_view_wf();
                    assert(self@ =~~= old(self)@.executed(instr, 0));
                }
                Ok(())
            },
            Instruction::Return => self.op_return(),
            Instruction::Sys { .. } => Ok(()),
            Instruction::Jump { addr } => {
                self.set_pc(addr);
                Ok(())
            },
            Instruction::Call { addr } => self.op_call(addr),
            Instruction::JumpOffset { addr } => {
                self.set_pc((addr + self.v[0] as u16) % 4096);
                Ok(())
            },
            _ => Ok(()),
        }
    }

    /// The conditional skips.
    fn execute_skip(&mut self, instr: Instruction)
        requires
            instr.wf(),
            is_skip(instr),
        ensures
            final(self)@ == old(self)@.executed(instr, 0),
            old(self)@.fault_of(instr) is None,
            final(self)@.wf(),
    {
        proof {
            use_type_invariant(&*self);
            self.lemma_view_wf();
        }
        let condition: bool = match instr {
            Instruction::SkipEqImm { x, byte } => self.v[x as usize] == byte,
            Instruction::SkipNeImm { x, byte } => self.v[x as usize] != byte,
            Instruction::SkipEqReg { x, y } => self.v[x as usize] == self.v[y as usize],
            Instruction::SkipNeReg { x, y } => self.v[x as usize] != self.v[y as usize],
            Instruction::SkipKey { x } => {
                let key: u8 = self.v[x as usize];
                key < 16 && self.keys[key as usize]
            },
            Instruction::SkipNoKey { x } => {
                let key: u8 = self.v[x as usize];
                key < 16 && !self.keys[key as usize]
            },
            _ => false,
        };
        self.skip_if(condition);
    }

    /// Loading a register and the operations that set no flag.
    fn execute_alu(&mut self, instr: Instruction, random: u8)
        requires
            instr.wf(),
            is_alu(instr),
        ensures
            final(self)@ == old(self)@.executed(instr, random),
            old(self)@.fault_of(instr) is None,
            final(self)@.wf(),
    {
        proof {
            use_type_invariant(&*self);
            self.lemma_view_wf();
        }
        let (x, value): (u8, u8) = match instr {
            Instruction::LoadImm { x, byte } => (x, byte),
            Instruction::AddImm { x, byte } => (x, self.v[x as usize].wrapping_add(byte)),
            Instruction::Move { x, y } => (x, self.v[y as usize]),
            Instruction::Or { x, y } => (x, self.v[x as usize] | self.v[y as usize]),
            Instruction::And { x, y } => (x, self.v[x as usize] & self.v[y as usize]),
            Instruction::Xor { x, y } => (x, self.v[x as usize] ^ self.v[y as usize]),
            Instruction::Random { x, byte } => (x, byte & random),
            _ => (0, self.v[0]),
        };
        assert(self@.executed(instr, random) == self@.set_reg(x, value));
        self.set_reg(x, value);
    }

    /// The arithmetic that sets the flag.
    fn execute_flagged(&mut self, instr: Instruction)
        requires
            instr.wf(),
            is_flagged(instr),
        ensures
            final(self)@ == old(self)@.executed(instr, 0),
            old(self)@.fault_of(instr) is None,
            final(self)@.wf(),
    {
        proof {
            use_type_invariant(&*self);
            self.lemma_view_wf();
        }
        let (x, (value, flag)): (u8, (u8, bool)) = match instr {
            Instruction::AddReg { x, y } => (
                x,
                add_with_carry(self.v[x as usize], self.v[y as usize]),
            ),
            Instruction::SubReg { x, y } => (
                x,
                sub_with_borrow(self.v[x as usize], self.v[y as usize]),
            ),
            Instruction::SubFrom { x, y } => (
                x,
                sub_with_borrow(self.v[y as usize], self.v[x as usize]),
            ),
            Instruction::ShiftRight { x } => (x, shift_right(self.v[x as usize])),
            Instruction::ShiftLeft { x } => (x, shift_left(self.v[x as usize])),
            _ => (0, (self.v[0], false)),
        };
        assert(self@.executed(instr, 0) == self@.set_flag(flag).set_reg(x, value));
        self.set_flag_and_reg(flag, x, value);
    }

    /// The instructions on the index register and on the memory it points
    /// at.
    fn execute_index(&mut self, instr: Instruction) -> (report: Result<(), Error>)
        requires
            instr.wf(),
            is_index(instr),
        ensures
            final(self)@ == old(self)@.executed(instr, 0),
            report == report_of(old(self)@.fault_of(instr)),
            final(self)@.wf(),
    {
        proof {
            use_type_invariant(&*self);
            self.lemma_view_wf();
        }
        match instr {
            Instruction::LoadIndex { addr } => {
                self.set_index(addr);
                Ok(())
            },
            Instruction::AddIndex { x } => {
                self.set_index(self.i.wrapping_add(self.v[x as usize] as u16));
                Ok(())
            },
            Instruction::Glyph { x } => {
                self.set_index((self.v[x as usize] % 16) as u16 * GLYPH_BYTES);
                Ok(())
            },
            Instruction::Draw { x, y, rows } => self.op_draw(x, y, rows),
            Instruction::Bcd { x } => self.op_bcd(x),
            Instruction::Dump { x } => self.op_dump(x),
            Instruction::Restore { x } => self.op_restore(x),
            _ => Ok(()),
        }
    }

    /// The instructions on the timers, and the wait for a key.
    fn execute_timer(&mut self, instr: Instruction)
        requires
            instr.wf(),
            is_timer(instr),
        ensures
            final(self)@ == old(self)@.executed(instr, 0),
            old(self)@.fault_of(instr) is None,
            final(self)@.wf(),
    {
        proof {
            use_type_invariant(&*self);
            self.lemma_view_wf();
        }
        match instr {
            Instruction::GetDelay { x } => self.set_reg(x, self.delay_timer),
            Instruction::SetDelay { x } => {
                self.delay_timer = self.v[x as usize];
            },
            Instruction::SetSound { x } => {
                self.sound_timer = self.v[x as usize];
            },
            Instruction::WaitKey { x } => {
                self.waiting_for_key = Some(x);
            },
            _ => {},
        }
        proof {
            use_type_invariant(&*self);
            self.lemma_view_wf();
        }
    }

    /// Executes `instr`, with `random` as the byte a random instruction
    /// draws. An instruction that cannot be carried out leaves the machine
    /// as it is and comes back as the fault.
    pub fn execute_with(&mut self, instr: Instruction, random: u8) -> (report: Result<(), Error>)
        requires
            instr.wf(),
        ensures
            final(self)@ == old(self)@.executed(instr, random),
            report == report_of(old(self)@.fault_of(instr)),
            final(self)@.wf(),
    {
        proof {
            use_type_invariant(&*self);
            self.lemma_view_wf();
        }
        match instr {
            Instruction::Clear
            | Instruction::Return
            | Instruction::Sys { .. }
            | Instruction::Jump { .. }
            | Instruction::Call { .. }
            | Instruction::JumpOffset { .. } => self.execute_flow(instr),
            Instruction::SkipEqImm { .. }
            | Instruction::SkipNeImm { .. }
            | Instruction::SkipEqReg { .. }
            | Instruction::SkipNeReg { .. }
            | Instruction::SkipKey { .. }
            | Instruction::SkipNoKey { .. } => {
                self.execute_skip(instr);
                Ok(())
            },
            Instruction::LoadImm { .. }
            | Instruction::AddImm { .. }
            | Instruction::Move { .. }
            | Instruction::Or { .. }
            | Instruction::And { .. }
            | Instruction::Xor { .. }
            | Instruction::Random { .. } => {
                self.execute_alu(instr, random);
                Ok(())
            },
            Instruction::AddReg { .. }
            | Instruction::SubReg { .. }
            | Instruction::SubFrom { .. }
            | Instruction::ShiftRight { .. }
            | Instruction::ShiftLeft { .. } => {
                self.execute_flagged(instr);
                Ok(())
            },
            Instruction::LoadIndex { .. }
            | Instruction::AddIndex { .. }
            | Instruction::Glyph { .. }
            | Instruction::Draw { .. }
            | Instruction::Bcd { .. }
            | Instruction::Dump { .. }
            | Instruction::Restore { .. } => self.execute_index(instr),
            Instruction::GetDelay { .. }
            | Instruction::SetDelay { .. }
            | Instruction::SetSound { .. }
            | Instruction::WaitKey { .. } => {
                self.execute_timer(instr);
                Ok(())
            },
            Instruction::Unknown => Err(Error::UnknownOpcode),
        }
    }

    /// Executes `instr`, drawing a random byte where the instruction asks
    /// for one. An instruction that cannot be carried out leaves the
    /// machine as it is and comes back as the fault.
    pub fn execute(&mut self, instr: Instruction) -> (report: Result<(), Error>)
        requires
            instr.wf(),
        ensures
            exists|random: u8| final(self)@ == old(self)@.executed(instr, random),
            !(instr is Random) ==> final(self)@ == old(self)@.executed(instr, 0),
            report == report_of(old(self)@.fault_of(instr)),
            final(self)@.wf(),
    {
        let random: u8 = match instr {
            Instruction::Random { .. } => random_byte(),
            _ => 0,
        };
        self.execute_with(instr, random)
    }

    /// Advances both timers by one tick.
    fn tick_timers(&mut self)
        ensures
            final(self)@ == old(self)@.after_timers(),
            final(self)@.wf(),
    {
        proof {
            use_type_invariant(&*self);
        }
        let (delay_timer, delay_count) = tick_timer(self.delay_timer, self.delay_count);
        let (sound_timer, sound_count) = tick_timer(self.sound_timer, self.sound_count);
        self.delay_timer = delay_timer;
        self.delay_count = delay_count;
        self.sound_timer = sound_timer;
        self.sound_count = sound_count;
        proof {
            self.lemma_view_wf();
        }
    }

    /// Advances the machine by one tick, with `keys` as the state of the
    /// keypad, and hands out the screen.
    ///
    /// The timers advance and the keypad is replaced. A machine that waits
    /// for a key then only scans the pad; any other fetches, decodes and
    /// executes one instruction, and keeps what that reported for
    /// `last_fault`.
    pub fn step(&mut self, keys: &[bool; 16]) -> (frame: Option<[[bool; 64]; 32]>)
        ensures
            exists|random: u8| final(self)@ == old(self)@.stepped(keys@, random),
            !old(self)@.draws_random() ==> final(self)@ == old(self)@.stepped(keys@, 0),
            frame is Some,
            screen_view(frame->0) == final(self)@.display,
            final(self)@.wf(),
    {
        proof {
            use_type_invariant(&*self);
            self.lemma_view_wf();
        }
        let before: [bool; 16] = self.keys;
        self.tick_timers();
        proof {
            use_type_invariant(&*self);
        }
        self.keys = *keys;
        self.fault = None;
        let ghost ticked = self@;
        match self.waiting_for_key {
            Some(r) => {
                match scan_new_key(&before, keys) {
                    Some(k) => {
                        self.v[r as usize] = k;
                        self.waiting_for_key = None;
                    },
                    None => {},
                }
                proof {
                    self.lemma_view_wf();
                    assert(self@ =~= old(self)@.stepped(keys@, 0));
                }
            },
            None => {
                let opcode = self.fetch();
                let instr: Instruction = decode(opcode);
                let ghost fetched = self@;
                let report = self.execute(instr);
                let ghost executed = self@;
                proof {
                    use_type_invariant(&*self);
                }
                self.fault = match report {
                    Ok(()) => None,
                    Err(e) => Some(e),
                };
                proof {
                    self.lemma_view_wf();
                    let random = choose|random: u8| executed == fetched.executed(instr, random);
                    assert(self@ =~= old(self)@.stepped(keys@, random));
                }
            },
        }
        Some(self.display)
    }

    /// Microseconds between two ticks: a million divided by the clock
    /// speed.
    pub fn tick_interval_micros(&self) -> (micros: u64)
        ensures
            micros == self@.tick_interval(),
    {
        proof {
            use_type_invariant(self);
        }
        MICROS_PER_SECOND / self.clock_speed
    }

    /// Whether the buzzer sounds: it does while the sound timer is not
    /// zero.
    pub fn buzzer_active(&self) -> (active: bool)
        ensures
            active == self@.buzzer_active(),
    {
        self.sound_timer > 0
    }

    /// What the latest tick reported: the fault of the instruction it
    /// executed, or nothing.
    pub fn last_fault(&self) -> (fault: Option<Error>)
        ensures
            fault == self@.fault,
    {
        self.fault
    }

    /// The screen.
    pub fn display(&self) -> (screen: [[bool; 64]; 32])
        ensures
            screen_view(screen) == self@.display,
    {
        self.display
    }

    /// The memory.
    pub fn memory(&self) -> (cells: &[u8; 4096])
        ensures
            cells@ == self@.memory,
    {
        &self.memory
    }

    /// The registers `V0` to `VF`.
    pub fn registers(&self) -> (v: [u8; 16])
        ensures
            v@ == self@.v,
    {
        self.v
    }

    /// The index register.
    pub fn index(&self) -> (i: u16)
        ensures
            i == self@.index,
    {
        self.i
    }

    /// The program counter.
    pub fn program_counter(&self) -> (pc: u16)
        ensures
            pc == self@.pc,
    {
        self.pc
    }

    /// The number of calls in progress.
    pub fn stack_pointer(&self) -> (depth: u8)
        ensures
            depth == self@.stack.len(),
    {
        self.sp
    }

    /// The return addresses of the calls in progress, the oldest first.
    pub fn return_addresses(&self) -> (addresses: Vec<u16>)
        ensures
            addresses@.len() == self@.stack.len(),
            forall|k: int| 0 <= k < addresses@.len() ==> addresses@[k] == self@.stack[k],
    {
        proof {
            use_type_invariant(self);
        }
        let mut addresses: Vec<u16> = Vec::new();
        let mut k: usize = 0;
        while k < self.sp as usize
            invariant
                k <= self.sp <= 16,
                addresses@.len() == k,
                forall|j: int| 0 <= j < k ==> addresses@[j] == self.stack[j],
            decreases self.sp - k,
        {
            addresses.push(self.stack[k]);
            k = k + 1;
        }
        addresses
    }

    /// The delay timer.
    pub fn delay_timer(&self) -> (timer: u8)
        ensures
            timer == self@.delay_timer,
    {
        self.delay_timer
    }

    /// The sound timer.
    pub fn sound_timer(&self) -> (timer: u8)
        ensures
            timer == self@.sound_timer,
    {
        self.sound_timer
    }

    /// The register that waits for a key, while the machine is suspended.
    pub fn waiting_for_key(&self) -> (register: Option<u8>)
        ensures
            register == self@.waiting,
    {
        self.waiting_for_key
    }

    /// Instructions per second.
    pub fn clock_speed(&self) -> (speed: u64)
        ensures
            speed == self@.clock_speed,
    {
        self.clock_speed
    }
}

/// `instr` clears the screen or moves the program counter without a
/// condition.
spec fn is_flow(instr: Instruction) -> bool {
    instr is Clear || instr is Return || instr is Sys || instr is Jump || instr is Call
        || instr is JumpOffset
}

/// `instr` is a conditional skip.
spec fn is_skip(instr: Instruction) -> bool {
    instr is SkipEqImm || instr is SkipNeImm || instr is SkipEqReg || instr is SkipNeReg
        || instr is SkipKey || instr is SkipNoKey
}

/// `instr` writes one register and no flag.
spec fn is_alu(instr: Instruction) -> bool {
    instr is LoadImm || instr is AddImm || instr is Move || instr is Or || instr is And
        || instr is Xor || instr is Random
}

/// `instr` writes the flag and one register.
spec fn is_flagged(instr: Instruction) -> bool {
    instr is AddReg || instr is SubReg || instr is SubFrom || instr is ShiftRight
        || instr is ShiftLeft
}

/// `instr` works on the index register or on the memory it points at.
spec fn is_index(instr: Instruction) -> bool {
    instr is LoadIndex || instr is AddIndex || instr is Glyph || instr is Draw || instr is Bcd
        || instr is Dump || instr is Restore
}

/// `instr` works on a timer or starts a wait for a key.
spec fn is_timer(instr: Instruction) -> bool {
    instr is GetDelay || instr is SetDelay || instr is SetSound || instr is WaitKey
}

} // verus!
