use vstd::prelude::*;
use crate::decode::{decode_spec, Instruction};
use crate::fault::Fault;
use crate::model::Machine;
use crate::sprite::draw_spec;

verus! {

/// `m` with register `x` holding `value`.
pub open spec fn set_reg(m: Machine, x: int, value: u8) -> Machine {
    Machine { v: m.v.update(x, value), ..m }
}

/// `m` with `VF` holding 1 if `flag` and 0 otherwise.
pub open spec fn set_flag(m: Machine, flag: bool) -> Machine {
    set_reg(m, 0xF, if flag { 1u8 } else { 0u8 })
}

/// `m` with the program counter moved by `delta`, modulo 65536.
pub open spec fn move_pc(m: Machine, delta: int) -> Machine {
    Machine { pc: ((m.pc + delta) % 0x10000) as u16, ..m }
}

/// `m` with the next instruction skipped if `condition` holds.
pub open spec fn skip_if(m: Machine, condition: bool) -> Machine {
    if condition {
        move_pc(m, 2)
    } else {
        m
    }
}

/// Whether any key is pressed.
pub open spec fn any_pressed(keys: Seq<bool>) -> bool {
    exists|k: int| 0 <= k < 16 && keys[k]
}

/// Whether `k` is a pressed key with no pressed key below it.
pub open spec fn is_lowest_pressed(keys: Seq<bool>, k: int) -> bool {
    &&& 0 <= k < 16
    &&& keys[k]
    &&& forall|j: int| 0 <= j < k ==> !keys[j]
}

/// The lowest index of a pressed key, where one is pressed.
pub open spec fn lowest_pressed(keys: Seq<bool>) -> int {
    choose|k: int| is_lowest_pressed(keys, k)
}

/// Memory with the three decimal digits of `value` stored from `at` on,
/// hundreds first.
pub open spec fn store_bcd(ram: Seq<u8>, at: int, value: u8) -> Seq<u8> {
    ram.update(at, value / 100).update(at + 1, (value / 10) % 10).update(at + 2, value % 10)
}

/// Memory with `regs[0..=last]` stored from `at` on.
pub open spec fn store_regs(ram: Seq<u8>, at: int, regs: Seq<u8>, last: int) -> Seq<u8> {
    Seq::new(ram.len(), |a: int| if at <= a <= at + last { regs[a - at] } else { ram[a] })
}

/// Registers with `regs[0..=last]` loaded from memory at `at` on.
pub open spec fn load_regs(regs: Seq<u8>, ram: Seq<u8>, at: int, last: int) -> Seq<u8> {
    Seq::new(regs.len(), |r: int| if r <= last { ram[at + r] } else { regs[r] })
}

/// What executing `ins` does to `m`, the program counter already standing
/// behind the instruction: the next machine, or the fault that stops it.
/// `rnd` is the byte that a random instruction draws; no other instruction
/// looks at it. Where an instruction writes both `Vx` and the flag `VF`, the
/// flag is written last.
pub open spec fn apply_spec(m: Machine, ins: Instruction, rnd: u8) -> Result<Machine, Fault> {
    match ins {
        Instruction::ClearScreen => Ok(Machine { screen: Seq::new(2048, |c: int| false), ..m }),
        Instruction::Return => if m.sp == 0 {
            Err(Fault::StackUnderflow)
        } else if m.sp > 16 {
            Err(Fault::StackOverflow)
        } else {
            Ok(Machine { sp: (m.sp - 1) as u16, pc: m.stack[m.sp - 1], ..m })
        },
        Instruction::Jump { addr } => Ok(Machine { pc: addr, ..m }),
        Instruction::Call { addr } => if m.sp >= 16 {
            Err(Fault::StackOverflow)
        } else {
            Ok(
                Machine {
                    stack: m.stack.update(m.sp as int, m.pc),
                    sp: (m.sp + 1) as u16,
                    pc: addr,
                    ..m
                },
            )
        },
        Instruction::SkipEqImm { x, nn } => Ok(skip_if(m, m.v[x as int] == nn)),
        Instruction::SkipNeImm { x, nn } => Ok(skip_if(m, m.v[x as int] != nn)),
        Instruction::SkipEqReg { x, y } => Ok(skip_if(m, m.v[x as int] == m.v[y as int])),
        Instruction::SkipNeReg { x, y } => Ok(skip_if(m, m.v[x as int] != m.v[y as int])),
        Instruction::LoadImm { x, nn } => Ok(set_reg(m, x as int, nn)),
        Instruction::AddImm { x, nn } => Ok(
            set_reg(m, x as int, ((m.v[x as int] + nn) % 256) as u8),
        ),
        Instruction::Move { x, y } => Ok(set_reg(m, x as int, m.v[y as int])),
        Instruction::Or { x, y } => Ok(set_reg(m, x as int, m.v[x as int] | m.v[y as int])),
        Instruction::And { x, y } => Ok(set_reg(m, x as int, m.v[x as int] & m.v[y as int])),
        Instruction::Xor { x, y } => Ok(set_reg(m, x as int, m.v[x as int] ^ m.v[y as int])),
        Instruction::AddReg { x, y } => {
            let sum = m.v[x as int] + m.v[y as int];
            Ok(set_flag(set_reg(m, x as int, (sum % 256) as u8), sum > 255))
        },
        Instruction::SubReg { x, y } => {
            let difference = m.v[x as int] - m.v[y as int];
            Ok(set_flag(set_reg(m, x as int, (difference % 256) as u8), difference >= 0))
        },
        Instruction::SubFrom { x, y } => {
            let difference = m.v[y as int] - m.v[x as int];
            Ok(set_flag(set_reg(m, x as int, (difference % 256) as u8), difference >= 0))
        },
        Instruction::ShiftRight { x } => {
            let value = m.v[x as int];
            Ok(set_flag(set_reg(m, x as int, value / 2), value % 2 == 1))
        },
        Instruction::ShiftLeft { x } => {
            let value = m.v[x as int];
            Ok(set_flag(set_reg(m, x as int, ((value * 2) % 256) as u8), value >= 128))
        },
        Instruction::LoadIndex { addr } => Ok(Machine { i: addr, ..m }),
        Instruction::JumpOffset { addr } => Ok(
            Machine { pc: ((addr + m.v[0]) % 0x10000) as u16, ..m },
        ),
        Instruction::Random { x, nn } => Ok(set_reg(m, x as int, rnd & nn)),
        Instruction::Draw { x, y, n } => Ok(draw_spec(m, x as int, y as int, n as int)),
        Instruction::SkipKey { x } => if m.v[x as int] >= 16 {
            Err(Fault::KeyOutOfRange)
        } else {
            Ok(skip_if(m, m.keys[m.v[x as int] as int]))
        },
        Instruction::SkipNoKey { x } => if m.v[x as int] >= 16 {
            Err(Fault::KeyOutOfRange)
        } else {
            Ok(skip_if(m, !m.keys[m.v[x as int] as int]))
        },
        Instruction::ReadDelay { x } => Ok(set_reg(m, x as int, m.delay)),
        Instruction::WaitKey { x } => if any_pressed(m.keys) {
            Ok(set_reg(m, x as int, lowest_pressed(m.keys) as u8))
        } else {
            Ok(move_pc(m, -2))
        },
        Instruction::SetDelay { x } => Ok(Machine { delay: m.v[x as int], ..m }),
        Instruction::SetSound { x } => Ok(Machine { sound: m.v[x as int], ..m }),
        Instruction::AddIndex { x } => Ok(
            Machine { i: ((m.i + m.v[x as int]) % 0x10000) as u16, ..m },
        ),
        Instruction::Glyph { x } => Ok(Machine { i: (m.v[x as int] * 5) as u16, ..m }),
        Instruction::StoreBcd { x } => if m.i + 2 >= 4096 {
            Err(Fault::MemoryOutOfRange)
        } else {
            Ok(Machine { ram: store_bcd(m.ram, m.i as int, m.v[x as int]), ..m })
        },
        Instruction::StoreRegs { x } => if m.i + x >= 4096 {
            Err(Fault::MemoryOutOfRange)
        } else {
            Ok(Machine { ram: store_regs(m.ram, m.i as int, m.v, x as int), ..m })
        },
        Instruction::LoadRegs { x } => if m.i + x >= 4096 {
            Err(Fault::MemoryOutOfRange)
        } else {
            Ok(Machine { v: load_regs(m.v, m.ram, m.i as int, x as int), ..m })
        },
        Instruction::Unknown => Ok(m),
    }
}

/// What executing the word `op` does to `m`.
pub open spec fn execute_spec(m: Machine, op: u16, rnd: u8) -> Result<Machine, Fault> {
    apply_spec(m, decode_spec(op), rnd)
}

/// The instruction word at the program counter, high byte first, and the
/// machine with the program counter moved behind it; a fault if the word
/// does not lie within memory.
pub open spec fn fetch_spec(m: Machine) -> Result<(Machine, u16), Fault> {
    if m.pc + 1 < 4096 {
        Ok(
            (
                Machine { pc: (m.pc + 2) as u16, ..m },
                (m.ram[m.pc as int] * 256 + m.ram[m.pc + 1]) as u16,
            ),
        )
    } else {
        Err(Fault::FetchOutOfRange)
    }
}

/// One instruction cycle: fetch, then execute.
pub open spec fn tick_spec(m: Machine, rnd: u8) -> Result<Machine, Fault> {
    match fetch_spec(m) {
        Ok((fetched, op)) => execute_spec(fetched, op, rnd),
        Err(fault) => Err(fault),
    }
}

/// Whether the next cycle of `m` draws a random byte.
pub open spec fn draws_random(m: Machine) -> bool {
    fetch_spec(m) matches Ok((_, op)) && decode_spec(op) is Random
}

/// Whether a run from `before` that ended with `res` and left `after` is the
/// one that `expected` describes: on success the machine is the expected
/// one, and on a fault the machine is untouched.
pub open spec fn agrees(
    expected: Result<Machine, Fault>,
    before: Machine,
    after: Machine,
    res: Result<(), Fault>,
) -> bool {
    match expected {
        Ok(m) => res is Ok && after =~= m,
        Err(fault) => res == Err::<(), Fault>(fault) && after =~= before,
    }
}

/// A timer after one tick: one less, but never below zero.
pub open spec fn tick_down(timer: u8) -> u8 {
    if timer > 0 {
        (timer - 1) as u8
    } else {
        0
    }
}

/// The machine after one timer tick: both timers ticked down, all else kept.
pub open spec fn tick_timers_spec(m: Machine) -> Machine {
    Machine { delay: tick_down(m.delay), sound: tick_down(m.sound), ..m }
}

/// The machine after a key event: key `idx` pressed or released if `idx` is
/// one of the sixteen keys, and nothing changed otherwise.
pub open spec fn keypress_spec(m: Machine, idx: int, pressed: bool) -> Machine {
    if 0 <= idx < 16 {
        Machine { keys: m.keys.update(idx, pressed), ..m }
    } else {
        m
    }
}

/// The machine after loading `data` at `0x200`: the bytes copied unchanged
/// if they fit in memory, and nothing changed otherwise.
pub open spec fn load_rom_spec(m: Machine, data: Seq<u8>) -> Machine {
    if 0x200 + data.len() <= 4096 {
        Machine {
            ram: Seq::new(
                4096,
                |a: int| if 0x200 <= a < 0x200 + data.len() { data[a - 0x200] } else { m.ram[a] },
            ),
            ..m
        }
    } else {
        m
    }
}

} // verus!
