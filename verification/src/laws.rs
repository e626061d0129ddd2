//! Laws of the machine, proved of the model that the executable machine
//! implements.

use vstd::prelude::*;
use crate::font::{font_glyphs, FONT_BYTES};
use crate::instruction::Instruction;
use crate::keypad::{
    first_new_key, first_new_key_is_lowest, first_new_key_is_unique, is_first_new_key,
    newly_pressed,
};
use crate::machine::{advance, program_fits, Machine, ENTRY, FLAG, MEMORY_SIZE, STACK_DEPTH};
use crate::screen::{blank_screen, is_screen, xor_sprite, SCREEN_HEIGHT, SCREEN_WIDTH};
use crate::timer::{ticked, ticked_n, TIMER_PERIOD};

verus! {

/// Executing an instruction keeps the state within its invariants.
pub proof fn execution_preserves_invariants(s: Machine, instr: Instruction, random: u8)
    requires
        s.wf(),
        instr.wf(),
    ensures
        s.executed(instr, random).wf(),
{
}

/// A tick keeps the state within its invariants.
pub proof fn step_preserves_invariants(s: Machine, keys: Seq<bool>, random: u8)
    requires
        s.wf(),
        keys.len() == 16,
    ensures
        s.stepped(keys, random).wf(),
{
}

/// The byte drawn matters to the random instruction alone.
pub proof fn random_byte_matters_to_random_alone(
    s: Machine,
    instr: Instruction,
    random: u8,
    other: u8,
)
    requires
        !(instr is Random),
    ensures
        s.executed(instr, random) == s.executed(instr, other),
{
}

/// A tick that executes no random instruction does not depend on the byte
/// drawn.
pub proof fn step_without_random_is_determined(
    s: Machine,
    keys: Seq<bool>,
    random: u8,
    other: u8,
)
    requires
        !s.draws_random(),
    ensures
        s.stepped(keys, random) == s.stepped(keys, other),
{
}

/// Loading a program that fits puts the font in cells 0 to 79 and the
/// program at the entry address, and changes nothing but memory.
pub proof fn load_places_font_and_program(s: Machine, program: Seq<u8>)
    requires
        s.wf(),
        program_fits(program.len()),
    ensures
        s.loaded(program).memory.subrange(0, FONT_BYTES as int) == font_glyphs(),
        s.loaded(program).memory.subrange(ENTRY as int, ENTRY + program.len()) == program,
        s.loaded(program) == (Machine { memory: s.loaded(program).memory, ..s }),
        s.loaded(program).wf(),
{
    assert(s.loaded(program).memory.subrange(0, FONT_BYTES as int) =~= font_glyphs());
    assert(s.loaded(program).memory.subrange(ENTRY as int, ENTRY + program.len()) =~= program);
}

/// A fetch moves the program counter two cells on, modulo the size of
/// memory. The one exception is a program counter on the last cell, which
/// a fetch takes to zero.
pub proof fn fetch_advances_by_two(s: Machine)
    requires
        s.wf(),
    ensures
        s.pc != MEMORY_SIZE - 1 ==> s.after_fetch().pc == (s.pc + 2) % (MEMORY_SIZE as int),
        s.pc == MEMORY_SIZE - 1 ==> s.after_fetch().pc == 0,
        s.after_fetch() == (Machine { pc: s.after_fetch().pc, ..s }),
{
}

/// Clearing the screen turns every pixel off, whatever was on it.
pub proof fn clear_turns_every_pixel_off(s: Machine, random: u8, r: int, c: int)
    requires
        0 <= r < SCREEN_HEIGHT,
        0 <= c < SCREEN_WIDTH,
    ensures
        s.executed(Instruction::Clear, random).display == blank_screen(),
        !s.executed(Instruction::Clear, random).display[r][c],
{
}

/// Adding an immediate to a register leaves the sum modulo 256 in that
/// register and every other register, the flag among them, as it was.
pub proof fn add_immediate_wraps_without_flag(s: Machine, x: u8, byte: u8, random: u8)
    requires
        s.wf(),
        x < 16,
    ensures
        s.executed(Instruction::AddImm { x, byte }, random).reg(x) == (s.reg(x) + byte) % 256,
        forall|r: u8|
            r < 16 && r != x ==> s.executed(Instruction::AddImm { x, byte }, random).reg(r)
                == #[trigger] s.reg(r),
        s.executed(Instruction::AddImm { x, byte }, random) == (Machine {
            v: s.executed(Instruction::AddImm { x, byte }, random).v,
            ..s
        }),
{
}

/// Adding one register to another leaves the sum modulo 256 in the
/// destination and sets the flag to one if the sum exceeds 255, to zero if
/// it does not. With the flag register as the destination the sum is what
/// stays in it, so the flag is stated for the other destinations.
pub proof fn add_registers_sets_carry(s: Machine, x: u8, y: u8, random: u8)
    requires
        s.wf(),
        x < 16,
        y < 16,
    ensures
        s.executed(Instruction::AddReg { x, y }, random).reg(x) == (s.reg(x) + s.reg(y)) % 256,
        x != FLAG ==> (s.executed(Instruction::AddReg { x, y }, random).reg(FLAG) == 1 <==> s.reg(
            x,
        ) + s.reg(y) > 255),
        x != FLAG ==> (s.executed(Instruction::AddReg { x, y }, random).reg(FLAG) == 0 <==> s.reg(
            x,
        ) + s.reg(y) <= 255),
{
}

/// Only clearing and drawing change the screen.
pub proof fn only_clear_and_draw_change_the_screen(s: Machine, instr: Instruction, random: u8)
    requires
        !(instr is Clear),
        !(instr is Draw),
    ensures
        s.executed(instr, random).display == s.display,
{
}

/// A tick changes the screen only if it executes a clear or a draw.
pub proof fn step_changes_the_screen_by_clear_and_draw(s: Machine, keys: Seq<bool>, random: u8)
    requires
        s.waiting is Some || !(s.next_instruction() is Clear || s.next_instruction() is Draw),
    ensures
        s.stepped(keys, random).display == s.display,
{
}

/// A tick replaces the keypad by the one it is given.
pub proof fn step_replaces_the_keypad(s: Machine, keys: Seq<bool>, random: u8)
    ensures
        s.stepped(keys, random).keys == keys,
{
}

/// Drawing a sprite twice at one place gives back the screen as it was.
pub proof fn xor_sprite_twice_is_identity(screen: Seq<Seq<bool>>, sprite: Seq<u8>, x0: int, y0: int)
    requires
        is_screen(screen),
    ensures
        xor_sprite(xor_sprite(screen, sprite, x0, y0), sprite, x0, y0) == screen,
{
    assert(xor_sprite(xor_sprite(screen, sprite, x0, y0), sprite, x0, y0) =~~= screen);
}

/// Executing a draw instruction twice, with coordinates that the flag does
/// not overwrite in between, gives back the screen as it was.
pub proof fn drawing_twice_restores_screen(s: Machine, x: u8, y: u8, rows: u8, random: u8)
    requires
        s.wf(),
        x < 16,
        y < 16,
        rows < 16,
        x != FLAG,
        y != FLAG,
    ensures
        s.executed(Instruction::Draw { x, y, rows }, random).executed(
            Instruction::Draw { x, y, rows },
            random,
        ).display == s.display,
{
    let draw = Instruction::Draw { x, y, rows };
    let once = s.executed(draw, random);
    if s.fault_of(draw) is None {
        assert(once.sprite(rows) =~= s.sprite(rows));
        xor_sprite_twice_is_identity(
            s.display,
            s.sprite(rows),
            (s.reg(x) % 64) as int,
            (s.reg(y) % 32) as int,
        );
    }
}

/// Ticks add up: `a + b` ticks are `a` ticks followed by `b` ticks.
pub proof fn ticks_compose(timer: u8, count: int, a: nat, b: nat)
    ensures
        ticked_n(timer, count, a + b) == ticked_n(
            ticked_n(timer, count, a).0,
            ticked_n(timer, count, a).1,
            b,
        ),
    decreases b,
{
    if b > 0 {
        ticks_compose(timer, count, a, (b - 1) as nat);
        assert(a + b - 1 == a + (b - 1) as nat);
    }
}

/// A timer that is not zero stays as it is until its tick count completes
/// a period, and is one less when it does.
pub proof fn timer_counts_down_once_per_period(timer: u8, count: int, n: nat)
    requires
        timer > 0,
        0 <= count < TIMER_PERIOD,
        n <= TIMER_PERIOD - count,
    ensures
        n < TIMER_PERIOD - count ==> ticked_n(timer, count, n) == (timer, count + n),
        n == TIMER_PERIOD - count ==> ticked_n(timer, count, n) == ((timer - 1) as u8, 0int),
    decreases n,
{
    if n > 0 {
        timer_counts_down_once_per_period(timer, count, (n - 1) as nat);
    }
}

/// From the start of a period, `k` whole periods take `k` off a timer that
/// holds at least `k`.
pub proof fn timer_after_whole_periods(timer: u8, k: nat)
    requires
        k <= timer,
    ensures
        ticked_n(timer, 0, k * (TIMER_PERIOD as nat)) == ((timer - k) as u8, 0int),
    decreases k,
{
    if k > 0 {
        let before = ((k - 1) as nat) * (TIMER_PERIOD as nat);
        timer_after_whole_periods(timer, (k - 1) as nat);
        assert(k * (TIMER_PERIOD as nat) == before + TIMER_PERIOD as nat) by (nonlinear_arith)
            requires
                k > 0,
                before == ((k - 1) as nat) * (TIMER_PERIOD as nat),
        ;
        ticks_compose(timer, 0, before, TIMER_PERIOD as nat);
        timer_counts_down_once_per_period((timer - (k - 1)) as u8, 0, TIMER_PERIOD as nat);
    }
}

/// A timer at zero stays at zero: it never goes below.
pub proof fn timer_stops_at_zero(count: int, n: nat)
    ensures
        ticked_n(0, count, n) == (0u8, count),
    decreases n,
{
    if n > 0 {
        timer_stops_at_zero(count, (n - 1) as nat);
    }
}

/// A tick advances the sound timer by one tick of its own, unless the
/// instruction executed on that tick sets the sound timer.
pub proof fn step_ticks_sound_timer(s: Machine, keys: Seq<bool>, random: u8)
    requires
        s.wf(),
        keys.len() == 16,
        s.waiting is Some || !(s.next_instruction() is SetSound),
    ensures
        (s.stepped(keys, random).sound_timer, s.stepped(keys, random).sound_count) == ticked(
            s.sound_timer,
            s.sound_count,
        ),
{
}

/// The wait-for-key instruction suspends the machine on its register and
/// changes nothing else.
pub proof fn wait_key_suspends(s: Machine, x: u8, random: u8)
    ensures
        s.executed(Instruction::WaitKey { x }, random) == (Machine { waiting: Some(x), ..s }),
{
}

/// No other instruction suspends the machine.
pub proof fn only_wait_key_suspends(s: Machine, instr: Instruction, random: u8)
    requires
        !(instr is WaitKey),
    ensures
        s.executed(instr, random).waiting == s.waiting,
{
}

/// A tick of a suspended machine executes nothing: the program counter,
/// memory, index register, stack and screen stay as they are. While no key
/// goes down the machine stays suspended with its registers unchanged; on
/// the tick on which a key goes down, the lowest such key goes to the
/// waiting register and the machine runs again.
pub proof fn suspended_machine_only_scans(s: Machine, keys: Seq<bool>, random: u8)
    requires
        s.wf(),
        keys.len() == 16,
        s.waiting is Some,
    ensures
        s.stepped(keys, random).pc == s.pc,
        s.stepped(keys, random).memory == s.memory,
        s.stepped(keys, random).index == s.index,
        s.stepped(keys, random).stack == s.stack,
        s.stepped(keys, random).display == s.display,
        s.stepped(keys, random).fault is None,
        (forall|k: int| !newly_pressed(s.keys, keys, k)) ==> s.stepped(keys, random).waiting
            == s.waiting && s.stepped(keys, random).v == s.v,
        forall|k: int| #[trigger]
            is_first_new_key(s.keys, keys, k) ==> s.stepped(keys, random).waiting is None
                && s.stepped(keys, random).v == s.v.update(s.waiting->0 as int, k as u8),
{
    first_new_key_is_lowest(s.keys, keys);
    assert forall|k: int| #[trigger]
        is_first_new_key(s.keys, keys, k) implies s.stepped(keys, random).waiting is None
        && s.stepped(keys, random).v == s.v.update(s.waiting->0 as int, k as u8) by {
        first_new_key_is_unique(s.keys, keys, k, first_new_key(s.keys, keys)->0 as int);
    }
}

/// The state after a chain of nested calls: for each call in turn, the
/// machine fetches at the call site and calls the target.
pub open spec fn after_calls(s: Machine, sites: Seq<int>, targets: Seq<u16>) -> Machine
    decreases sites.len(),
{
    if sites.len() == 0 {
        s
    } else {
        let before = after_calls(s, sites.drop_last(), targets.drop_last());
        (Machine { pc: sites.last(), ..before }).after_fetch().executed(
            Instruction::Call { addr: targets.last() },
            0,
        )
    }
}

/// The state after `n` returns in a row.
pub open spec fn after_returns(s: Machine, n: nat) -> Machine
    decreases n,
{
    if n == 0 {
        s
    } else {
        after_returns(s, (n - 1) as nat).executed(Instruction::Return, 0)
    }
}

/// The calls of a chain that fits on the stack push the addresses that
/// follow their call sites, in order.
pub proof fn calls_push_return_addresses(s: Machine, sites: Seq<int>, targets: Seq<u16>)
    requires
        s.wf(),
        sites.len() == targets.len(),
        s.stack.len() + sites.len() <= STACK_DEPTH,
        forall|k: int| 0 <= k < sites.len() ==> 0 <= #[trigger] sites[k] < MEMORY_SIZE,
        forall|k: int| 0 <= k < targets.len() ==> #[trigger] targets[k] < MEMORY_SIZE,
    ensures
        after_calls(s, sites, targets).wf(),
        after_calls(s, sites, targets).stack == s.stack + sites.map_values(|p: int| advance(p)),
        sites.len() > 0 ==> after_calls(s, sites, targets).pc == targets.last(),
    decreases sites.len(),
{
    if sites.len() > 0 {
        calls_push_return_addresses(s, sites.drop_last(), targets.drop_last());
        assert(after_calls(s, sites, targets).stack =~= s.stack + sites.map_values(
            |p: int| advance(p),
        ));
    } else {
        assert(s.stack =~= s.stack + sites.map_values(|p: int| advance(p)));
    }
}

/// Returns pop the stack from the top: after `n` returns the program
/// counter is the `n`th address from the top and the stack is shorter by
/// `n`.
pub proof fn returns_pop_in_reverse(s: Machine, n: nat)
    requires
        s.wf(),
        n <= s.stack.len(),
    ensures
        after_returns(s, n).wf(),
        after_returns(s, n).stack == s.stack.take(s.stack.len() - n),
        n > 0 ==> after_returns(s, n).pc == s.stack[s.stack.len() - n],
    decreases n,
{
    if n > 0 {
        returns_pop_in_reverse(s, (n - 1) as nat);
        assert(after_returns(s, n).stack =~= s.stack.take(s.stack.len() - n));
    } else {
        assert(s.stack =~= s.stack.take(s.stack.len() as int));
    }
}

/// After a chain of nested calls that fits on the stack, the returns come
/// back to the instructions that follow the call sites, the latest call
/// first, and the last of them leaves the stack as it was before the
/// first call.
pub proof fn returns_reverse_calls(s: Machine, sites: Seq<int>, targets: Seq<u16>, j: nat)
    requires
        s.wf(),
        sites.len() == targets.len(),
        s.stack.len() + sites.len() <= STACK_DEPTH,
        forall|k: int| 0 <= k < sites.len() ==> 0 <= #[trigger] sites[k] < MEMORY_SIZE,
        forall|k: int| 0 <= k < targets.len() ==> #[trigger] targets[k] < MEMORY_SIZE,
        j < sites.len(),
    ensures
        after_returns(after_calls(s, sites, targets), j + 1).pc == advance(
            sites[sites.len() - 1 - j],
        ),
        after_returns(after_calls(s, sites, targets), sites.len()).stack == s.stack,
{
    let called = after_calls(s, sites, targets);
    calls_push_return_addresses(s, sites, targets);
    returns_pop_in_reverse(called, j + 1);
    returns_pop_in_reverse(called, sites.len());
    assert(called.stack.take(called.stack.len() - sites.len()) =~= s.stack);
}

} // verus!
