use vstd::prelude::*;
use crate::decode::{decode_spec, Instruction};
use crate::fault::Fault;
use crate::model::{power_on, Machine};
use crate::semantics::{
    any_pressed, apply_spec, execute_spec, fetch_spec, is_lowest_pressed, tick_down, tick_spec,
    tick_timers_spec,
};
use crate::sprite::{draw_spec, sprite_bit, sprite_covers};
use crate::state::CpuState;
use crate::utils::{Dstatus, Kstatus};

verus! {

/// The register that the second hexadecimal digit of `op` names.
pub open spec fn x_of(op: u16) -> int {
    ((op / 256) % 16) as int
}

/// The register that the third hexadecimal digit of `op` names.
pub open spec fn y_of(op: u16) -> int {
    ((op / 16) % 16) as int
}

/// Whether `after` is `before` with at most the registers `x` and `VF`
/// changed.
pub open spec fn only_registers_changed(before: Machine, after: Machine, x: int) -> bool {
    &&& after == Machine { v: after.v, ..before }
    &&& after.v.len() == before.v.len()
    &&& forall|r: int| 0 <= r < 16 && r != x && r != 0xF ==> after.v[r] == before.v[r]
}

/// Two states with the same model are the same, field for field.
pub proof fn lemma_view_determines_state(a: CpuState, b: CpuState)
    requires
        a@ == b@,
    ensures
        a == b,
{
    assert(a.ram =~= b.ram);
    assert(a.v_reg =~= b.v_reg);
    assert(a.stack =~= b.stack);
    assert forall|c: int| 0 <= c < 2048 implies a.screen[c] == b.screen[c] by {
        assert(a@.screen[c] == (a.screen[c] == Dstatus::On));
        assert(b@.screen[c] == (b.screen[c] == Dstatus::On));
    }
    assert(a.screen =~= b.screen);
    assert forall|k: int| 0 <= k < 16 implies a.keys[k] == b.keys[k] by {
        assert(a@.keys[k] == (a.keys[k] == Kstatus::Pressed));
        assert(b@.keys[k] == (b.keys[k] == Kstatus::Pressed));
    }
    assert(a.keys =~= b.keys);
}

/// A state that was reset equals a freshly made one, field for field,
/// whatever was done to it before.
pub proof fn lemma_reset_equals_fresh(reset: CpuState, fresh: CpuState)
    requires
        reset@ == power_on(),
        fresh@ == power_on(),
    ensures
        reset == fresh,
{
    lemma_view_determines_state(reset, fresh);
}

/// The model of a state has the sizes that the hardware fixes.
pub proof fn lemma_view_wf(state: CpuState)
    ensures
        state@.wf(),
{
}

/// Executing an instruction keeps the sizes of the machine.
pub proof fn lemma_apply_keeps_wf(m: Machine, ins: Instruction, rnd: u8)
    requires
        m.wf(),
        ins.wf(),
    ensures
        apply_spec(m, ins, rnd) matches Ok(next) ==> next.wf(),
{
}

/// Only a random instruction depends on the random byte.
pub proof fn lemma_random_byte_matters_to_random_only(m: Machine, op: u16, rnd1: u8, rnd2: u8)
    requires
        !(decode_spec(op) is Random),
    ensures
        execute_spec(m, op, rnd1) == execute_spec(m, op, rnd2),
{
}

/// `6xnn` puts exactly `nn` into `Vx` and changes nothing else.
pub proof fn lemma_load_immediate(m: Machine, op: u16, rnd: u8)
    requires
        m.wf(),
        op / 0x1000 == 0x6,
    ensures
        execute_spec(m, op, rnd) matches Ok(next) && next == (Machine {
            v: m.v.update(x_of(op), (op % 256) as u8),
            ..m
        }) && next.v[x_of(op)] == op % 256,
{
}

/// `7xnn` adds modulo 256. It changes no register but `Vx`: the flag `VF`
/// is kept unless it is the register added to.
pub proof fn lemma_add_immediate(m: Machine, op: u16, rnd: u8)
    requires
        m.wf(),
        op / 0x1000 == 0x7,
    ensures
        execute_spec(m, op, rnd) matches Ok(next) && next == (Machine { v: next.v, ..m })
            && next.v[x_of(op)] == (m.v[x_of(op)] + op % 256) % 256 && forall|r: int|
            0 <= r < 16 && r != x_of(op) ==> next.v[r] == m.v[r],
{
}

/// `8xy4` leaves 1 in `VF` if and only if the sum of `Vx` and `Vy` exceeds
/// 255, and 0 otherwise. `Vx`, unless it is `VF` itself, holds the sum modulo
/// 256.
pub proof fn lemma_add_registers(m: Machine, op: u16, rnd: u8)
    requires
        m.wf(),
        op / 0x1000 == 0x8,
        op % 16 == 0x4,
    ensures
        execute_spec(m, op, rnd) matches Ok(next) && {
            let sum = m.v[x_of(op)] + m.v[y_of(op)];
            &&& only_registers_changed(m, next, x_of(op))
            &&& next.v[0xF] == if sum > 255 { 1u8 } else { 0u8 }
            &&& x_of(op) != 0xF ==> next.v[x_of(op)] == sum % 256
        },
{
}

/// `8xy5` leaves 1 in `VF` if and only if `Vx >= Vy`, that is if the
/// subtraction `Vx - Vy` does not borrow, and 0 otherwise. `Vx`, unless it is
/// `VF` itself, holds the difference modulo 256.
pub proof fn lemma_subtract_registers(m: Machine, op: u16, rnd: u8)
    requires
        m.wf(),
        op / 0x1000 == 0x8,
        op % 16 == 0x5,
    ensures
        execute_spec(m, op, rnd) matches Ok(next) && {
            let vx = m.v[x_of(op)];
            let vy = m.v[y_of(op)];
            &&& only_registers_changed(m, next, x_of(op))
            &&& next.v[0xF] == if vx >= vy { 1u8 } else { 0u8 }
            &&& x_of(op) != 0xF ==> next.v[x_of(op)] == (vx - vy) % 256
        },
{
}

/// `8xy7` leaves 1 in `VF` if and only if `Vy >= Vx`, that is if the
/// subtraction `Vy - Vx` does not borrow, and 0 otherwise. `Vx`, unless it is
/// `VF` itself, holds the difference modulo 256.
pub proof fn lemma_subtract_reversed(m: Machine, op: u16, rnd: u8)
    requires
        m.wf(),
        op / 0x1000 == 0x8,
        op % 16 == 0x7,
    ensures
        execute_spec(m, op, rnd) matches Ok(next) && {
            let vx = m.v[x_of(op)];
            let vy = m.v[y_of(op)];
            &&& only_registers_changed(m, next, x_of(op))
            &&& next.v[0xF] == if vy >= vx { 1u8 } else { 0u8 }
            &&& x_of(op) != 0xF ==> next.v[x_of(op)] == (vy - vx) % 256
        },
{
}

/// `8xy6` leaves in `VF` the lowest bit that `Vx` held before the shift.
/// `Vx`, unless it is `VF` itself, holds half its former value.
pub proof fn lemma_shift_right(m: Machine, op: u16, rnd: u8)
    requires
        m.wf(),
        op / 0x1000 == 0x8,
        op % 16 == 0x6,
    ensures
        execute_spec(m, op, rnd) matches Ok(next) && {
            let vx = m.v[x_of(op)];
            &&& only_registers_changed(m, next, x_of(op))
            &&& next.v[0xF] == vx % 2
            &&& x_of(op) != 0xF ==> next.v[x_of(op)] == vx / 2
        },
{
}

/// `8xyE` leaves in `VF` the highest bit that `Vx` held before the shift.
/// `Vx`, unless it is `VF` itself, holds twice its former value modulo 256.
pub proof fn lemma_shift_left(m: Machine, op: u16, rnd: u8)
    requires
        m.wf(),
        op / 0x1000 == 0x8,
        op % 16 == 0xE,
    ensures
        execute_spec(m, op, rnd) matches Ok(next) && {
            let vx = m.v[x_of(op)];
            &&& only_registers_changed(m, next, x_of(op))
            &&& next.v[0xF] == vx / 128
            &&& x_of(op) != 0xF ==> next.v[x_of(op)] == (vx * 2) % 256
        },
{
}

/// Pixel `col` of sprite row `row` lies on the cell in column
/// `(Vx + col) % 64` and row `(Vy + row) % 32`: a sprite that reaches over
/// the right or the bottom edge comes back in at the left or the top. The
/// cell is covered if and only if the pixel is set and its row is stored
/// within memory.
pub proof fn lemma_pixel_wraps(m: Machine, x: int, y: int, n: int, row: int, col: int)
    requires
        m.wf(),
        0 <= x < 16,
        0 <= y < 16,
        0 <= row < n <= 32,
        0 <= col < 8,
    ensures
        sprite_covers(m, x, y, n, (m.v[x] + col) % 64 + 64 * ((m.v[y] + row) % 32)) == (m.i + row
            < 4096 && sprite_bit(m.ram[m.i + row], col as u8)),
{
    let cx = (m.v[x] + col) % 64;
    let cy = (m.v[y] + row) % 32;
    let cell = cx + 64 * cy;
    assert(cell % 64 == cx && cell / 64 == cy);
    assert((cx - m.v[x]) % 64 == col);
    assert((cy - m.v[y]) % 32 == row);
}

/// Drawing a sprite a second time at the same coordinates undoes the first
/// drawing: the framebuffer is as it was, so every cell that the first
/// drawing lit is dark again. The second drawing reports a collision if and
/// only if the first one lit a cell. The coordinates are the same unless a
/// coordinate register is `VF` and the first drawing changed it.
pub proof fn lemma_redraw_restores(m: Machine, x: int, y: int, n: int)
    requires
        m.wf(),
        0 <= x < 16,
        0 <= y < 16,
        draw_spec(m, x, y, n).v[x] % 64 == m.v[x] % 64,
        draw_spec(m, x, y, n).v[y] % 32 == m.v[y] % 32,
    ensures
        ({
            let once = draw_spec(m, x, y, n);
            let twice = draw_spec(once, x, y, n);
            &&& twice.screen == m.screen
            &&& forall|cell: int|
                0 <= cell < 2048 && !m.screen[cell] && once.screen[cell] ==> !twice.screen[cell]
            &&& twice.v[0xF] == if exists|cell: int|
                !m.screen[cell] && #[trigger] sprite_covers(m, x, y, n, cell) {
                1u8
            } else {
                0u8
            }
            &&& twice == Machine { v: twice.v, ..m }
        }),
{
    let once = draw_spec(m, x, y, n);
    assert forall|cell: int|
        sprite_covers(once, x, y, n, cell) == sprite_covers(m, x, y, n, cell) by {
        assert((cell % 64 - once.v[x]) % 64 == (cell % 64 - m.v[x]) % 64);
        assert((cell / 64 - once.v[y]) % 32 == (cell / 64 - m.v[y]) % 32);
    }
    if exists|cell: int| once.screen[cell] && #[trigger] sprite_covers(once, x, y, n, cell) {
        let w = choose|cell: int| once.screen[cell] && #[trigger] sprite_covers(once, x, y, n, cell);
        assert(!m.screen[w] && sprite_covers(m, x, y, n, w));
    }
}

/// Drawing on a cleared screen lights exactly the cells under the set pixels
/// of the sprite, leaves all others dark and reports no collision.
pub proof fn lemma_draw_after_clear(m: Machine, x: u8, y: u8, n: u8, rnd: u8)
    requires
        m.wf(),
        x < 16,
        y < 16,
    ensures
        ({
            &&& apply_spec(m, Instruction::ClearScreen, rnd) matches Ok(cleared)
            &&& apply_spec(cleared, Instruction::Draw { x, y, n }, rnd) matches Ok(drawn)
            &&& forall|cell: int|
                0 <= cell < 2048 ==> drawn.screen[cell] == sprite_covers(
                    m,
                    x as int,
                    y as int,
                    n as int,
                    cell,
                )
            &&& drawn.v[0xF] == 0
        }),
{
    let cleared = apply_spec(m, Instruction::ClearScreen, rnd)->Ok_0;
    assert forall|cell: int|
        sprite_covers(cleared, x as int, y as int, n as int, cell) implies !cleared.screen[cell] by {}
}

/// A call followed by a return comes back to the address behind the call,
/// with the stack pointer where it was, provided that a stack slot was free.
/// Nothing but that slot has changed.
pub proof fn lemma_call_then_return(m: Machine, addr: u16, rnd: u8)
    requires
        m.wf(),
        m.sp < 16,
    ensures
        ({
            &&& apply_spec(m, Instruction::Call { addr }, rnd) matches Ok(called)
            &&& called.pc == addr
            &&& apply_spec(called, Instruction::Return, rnd) matches Ok(returned)
            &&& returned.pc == m.pc
            &&& returned.sp == m.sp
            &&& returned == Machine { stack: m.stack.update(m.sp as int, m.pc), ..m }
        }),
{
}

/// The same over whole cycles: if the word at the program counter is a call
/// and the word at its target a return, two cycles leave the program counter
/// behind the call and the stack pointer where it was.
pub proof fn lemma_call_then_return_cycles(m: Machine, rnd1: u8, rnd2: u8)
    requires
        m.wf(),
        m.sp < 16,
        ({
            &&& fetch_spec(m) matches Ok((_, op))
            &&& op / 0x1000 == 0x2
            &&& fetch_spec(Machine { pc: (op % 0x1000) as u16, ..m }) matches Ok((_, target))
            &&& target == 0x00EE
        }),
    ensures
        ({
            &&& tick_spec(m, rnd1) matches Ok(called)
            &&& tick_spec(called, rnd2) matches Ok(returned)
            &&& returned.pc == m.pc + 2
            &&& returned.sp == m.sp
        }),
{
}

/// A call with the stack full and a return with the stack empty are faults.
pub proof fn lemma_stack_faults(m: Machine, addr: u16, rnd: u8)
    requires
        m.wf(),
    ensures
        m.sp >= 16 ==> apply_spec(m, Instruction::Call { addr }, rnd) == Err::<Machine, Fault>(
            Fault::StackOverflow,
        ),
        m.sp == 0 ==> apply_spec(m, Instruction::Return, rnd) == Err::<Machine, Fault>(
            Fault::StackUnderflow,
        ),
{
}

/// A stack pointer within the stack stays within it.
pub proof fn lemma_stack_pointer_stays_in_bounds(m: Machine, ins: Instruction, rnd: u8)
    requires
        m.sp <= 16,
    ensures
        apply_spec(m, ins, rnd) matches Ok(next) ==> next.sp <= 16,
{
}

/// While no key is pressed, a cycle on a key wait changes nothing: the
/// program counter is back on the wait and the same cycle comes again.
pub proof fn lemma_wait_key_spins(m: Machine, rnd: u8)
    requires
        m.wf(),
        fetch_spec(m) matches Ok((_, op)) && decode_spec(op) is WaitKey,
        !any_pressed(m.keys),
    ensures
        tick_spec(m, rnd) == Ok::<Machine, Fault>(m),
{
}

/// The machine after `rnds.len()` cycles, cycle `k` drawing `rnds[k]` if it
/// draws a byte at all; the first fault ends the run.
pub open spec fn run_spec(m: Machine, rnds: Seq<u8>) -> Result<Machine, Fault>
    decreases rnds.len(),
{
    if rnds.len() == 0 {
        Ok(m)
    } else {
        match tick_spec(m, rnds[0]) {
            Ok(next) => run_spec(next, rnds.skip(1)),
            Err(fault) => Err(fault),
        }
    }
}

/// While no key is pressed, any number of cycles on a key wait changes
/// nothing.
pub proof fn lemma_wait_key_spins_forever(m: Machine, rnds: Seq<u8>)
    requires
        m.wf(),
        fetch_spec(m) matches Ok((_, op)) && decode_spec(op) is WaitKey,
        !any_pressed(m.keys),
    ensures
        run_spec(m, rnds) == Ok::<Machine, Fault>(m),
    decreases rnds.len(),
{
    if rnds.len() > 0 {
        lemma_wait_key_spins(m, rnds[0]);
        lemma_wait_key_spins_forever(m, rnds.skip(1));
    }
}

/// Once a key is pressed, a cycle on a key wait moves on by one instruction
/// and leaves in `Vx` the lowest index of a pressed key. Nothing else
/// changes.
pub proof fn lemma_wait_key_resumes(m: Machine, rnd: u8)
    requires
        m.wf(),
        fetch_spec(m) matches Ok((_, op)) && decode_spec(op) is WaitKey,
        any_pressed(m.keys),
    ensures
        ({
            let x = x_of(fetch_spec(m)->Ok_0.1);
            &&& tick_spec(m, rnd) matches Ok(next)
            &&& next.pc == m.pc + 2
            &&& is_lowest_pressed(m.keys, next.v[x] as int)
            &&& next == Machine { pc: next.pc, v: m.v.update(x, next.v[x]), ..m }
        }),
{
    let k = choose|k: int| 0 <= k < 16 && m.keys[k];
    lemma_some_key_is_lowest(m.keys, k);
}

/// If key `k` is pressed, some key at or below `k` is the lowest pressed.
pub proof fn lemma_some_key_is_lowest(keys: Seq<bool>, k: int)
    requires
        0 <= k < 16,
        keys[k],
    ensures
        exists|low: int| is_lowest_pressed(keys, low),
    decreases k,
{
    if exists|j: int| 0 <= j < k && keys[j] {
        let j = choose|j: int| 0 <= j < k && keys[j];
        lemma_some_key_is_lowest(keys, j);
    } else {
        assert(is_lowest_pressed(keys, k));
    }
}

/// A timer tick never takes a timer below zero or above where it stood, and
/// what it leaves depends on the two timers alone.
pub proof fn lemma_timers_tick_down(m: Machine, other: Machine)
    ensures
        0 <= tick_timers_spec(m).delay <= m.delay,
        0 <= tick_timers_spec(m).sound <= m.sound,
        m.delay > 0 ==> tick_timers_spec(m).delay == m.delay - 1,
        m.sound > 0 ==> tick_timers_spec(m).sound == m.sound - 1,
        other.delay == m.delay ==> tick_timers_spec(other).delay == tick_timers_spec(m).delay,
        other.sound == m.sound ==> tick_timers_spec(other).sound == tick_timers_spec(m).sound,
        tick_timers_spec(m) == (Machine {
            delay: tick_down(m.delay),
            sound: tick_down(m.sound),
            ..m
        }),
{
}

/// Instruction cycles do not move the timers, whatever their number, except
/// where an instruction sets one: so a timer tick does the same before and
/// after them.
pub proof fn lemma_cycles_keep_timers(m: Machine, ins: Instruction, rnd: u8)
    ensures
        apply_spec(m, ins, rnd) matches Ok(next) ==> {
            &&& !(ins is SetDelay) ==> next.delay == m.delay && tick_timers_spec(next).delay
                == tick_timers_spec(m).delay
            &&& !(ins is SetSound) ==> next.sound == m.sound && tick_timers_spec(next).sound
                == tick_timers_spec(m).sound
        },
{
}

/// No instruction touches the keypad, and none but the three stores writes
/// to memory: the font stays where it is unless a store overwrites it.
pub proof fn lemma_instructions_keep_keys_and_memory(m: Machine, ins: Instruction, rnd: u8)
    ensures
        apply_spec(m, ins, rnd) matches Ok(next) ==> {
            &&& next.keys == m.keys
            &&& !(ins is StoreBcd || ins is StoreRegs) ==> next.ram == m.ram
        },
{
}

} // verus!
