use vstd::prelude::*;
use crate::decode::{decode, decode_spec, Instruction};
use crate::fault::Fault;
use crate::model::{power_on, Machine};
use crate::random::random_byte;
use crate::semantics::{
    agrees, apply_spec, draws_random, execute_spec, fetch_spec, keypress_spec, load_rom_spec,
    tick_spec, tick_timers_spec,
};
use crate::state::{CpuState, RAM_SIZE, SCREEN_SIZE};
use crate::utils::{Dstatus, Kstatus};

verus! {

/// Address at which programs are loaded and start running.
pub const PROGRAM_START: usize = 0x200;

/// The interpreter: the machine state and the operations that drive it.
pub struct Cpu {
    pub state: CpuState,
}

/// An interpreter is modelled by the machine that models its state.
impl View for Cpu {
    type V = Machine;

    open spec fn view(&self) -> Machine {
        self.state@
    }
}

impl Cpu {
    /// An interpreter at power-on.
    pub fn new() -> (cpu: Self)
        ensures
            cpu@ == power_on(),
    {
        Self { state: CpuState::new() }
    }

    /// Copies a program into memory at `0x200`. A program that does not fit
    /// is dropped as a whole and memory is left as it was.
    pub fn load_rom(&mut self, data: &[u8])
        ensures
            final(self)@ == load_rom_spec(old(self)@, data@),
    {
        if data.len() <= RAM_SIZE - PROGRAM_START {
            let mut k: usize = 0;
            while k < data.len()
                invariant
                    k <= data.len() <= RAM_SIZE - PROGRAM_START,
                    forall|a: int|
                        0 <= a < 4096 ==> self.state.ram[a] == if 0x200 <= a < 0x200 + k {
                            data@[a - 0x200]
                        } else {
                            old(self).state.ram[a]
                        },
                    self@ == (Machine {
                        ram: self.state.ram@,
                        ..old(self)@
                    }),
                decreases data.len() - k,
            {
                self.state.ram[PROGRAM_START + k] = data[k];
                k = k + 1;
            }
        }
    }

    /// Counts both timers down by one, stopping at zero.
    pub fn tick_timers(&mut self)
        ensures
            final(self)@ == tick_timers_spec(old(self)@),
    {
        if self.state.delay_tmr > 0 {
            self.state.delay_tmr -= 1;
        }
        if self.state.sound_tmr > 0 {
            self.state.sound_tmr -= 1;
        }
    }

    /// Records that key `idx` went down or up. An index that names no key is
    /// ignored.
    pub fn keypress(&mut self, idx: usize, pressed: bool)
        ensures
            final(self)@ == keypress_spec(old(self)@, idx as int, pressed),
    {
        if idx < 16 {
            self.state.keys[idx] = if pressed {
                Kstatus::Pressed
            } else {
                Kstatus::Default
            };
        }
    }

    /// Reads the instruction word at the program counter, high byte first,
    /// and moves the program counter behind it. If the word does not lie
    /// within memory, nothing is read or moved and the fault says so.
    pub fn fetch(&mut self) -> (res: Result<u16, Fault>)
        ensures
            match fetch_spec(old(self)@) {
                Ok((m, op)) => res == Ok::<u16, Fault>(op) && final(self)@ == m,
                Err(fault) => res == Err::<u16, Fault>(fault) && final(self)@ == old(self)@,
            },
    {
        let pc: usize = self.state.pc as usize;
        if pc + 1 < RAM_SIZE {
            let b1: u8 = self.state.ram[pc];
            let b2: u8 = self.state.ram[pc + 1];
            self.state.pc += 2;
            assert(((b1 as u16) << 8) | (b2 as u16) == b1 * 256 + b2) by (bit_vector);
            Ok(((b1 as u16) << 8) | (b2 as u16))
        } else {
            Err(Fault::FetchOutOfRange)
        }
    }

    /// Runs one instruction cycle: fetches the word at the program counter
    /// and executes it. A random instruction draws its byte from the
    /// generator; for every other instruction the outcome is determined. A
    /// cycle that ends in a fault changes nothing, the program counter
    /// included.
    pub fn tick(&mut self) -> (res: Result<(), Fault>)
        ensures
            exists|rnd: u8|
                agrees(
                    #[trigger] tick_spec(old(self)@, rnd),
                    old(self)@,
                    final(self)@,
                    res,
                ),
            !draws_random(old(self)@) ==> agrees(
                tick_spec(old(self)@, 0),
                old(self)@,
                final(self)@,
                res,
            ),
    {
        let pc: u16 = self.state.pc;
        match self.fetch() {
            Ok(op) => {
                let ghost fetched = self@;
                let res = self.execute(op);
                proof {
                    let rnd = choose|rnd: u8|
                        agrees(
                            #[trigger] execute_spec(fetched, op, rnd),
                            fetched,
                            self@,
                            res,
                        );
                    assert(tick_spec(old(self)@, rnd) == execute_spec(fetched, op, rnd));
                }
                if res.is_err() {
                    self.state.pc = pc;
                }
                res
            },
            Err(fault) => Err(fault),
        }
    }

    /// Runs one instruction cycle in which a random instruction, if it is
    /// one, draws the byte `rnd`.
    pub fn tick_with(&mut self, rnd: u8) -> (res: Result<(), Fault>)
        ensures
            agrees(tick_spec(old(self)@, rnd), old(self)@, final(self)@, res),
    {
        let pc: u16 = self.state.pc;
        match self.fetch() {
            Ok(op) => {
                let res = self.execute_with(op, rnd);
                if res.is_err() {
                    self.state.pc = pc;
                }
                res
            },
            Err(fault) => Err(fault),
        }
    }

    /// Executes the instruction word `op`, the program counter already
    /// standing behind it. A random instruction draws its byte from the
    /// generator; for every other instruction the outcome is determined. An
    /// instruction that faults changes nothing.
    pub fn execute(&mut self, op: u16) -> (res: Result<(), Fault>)
        ensures
            exists|rnd: u8|
                agrees(
                    #[trigger] execute_spec(old(self)@, op, rnd),
                    old(self)@,
                    final(self)@,
                    res,
                ),
            !(decode_spec(op) is Random) ==> agrees(
                execute_spec(old(self)@, op, 0),
                old(self)@,
                final(self)@,
                res,
            ),
    {
        let ins = decode(op);
        let rnd: u8 = match ins {
            Instruction::Random { .. } => random_byte(),
            _ => 0,
        };
        let res = self.apply(ins, rnd);
        assert(execute_spec(old(self)@, op, rnd) == apply_spec(old(self)@, ins, rnd));
        res
    }

    /// Executes the instruction word `op`, in which a random instruction
    /// draws the byte `rnd`.
    pub fn execute_with(&mut self, op: u16, rnd: u8) -> (res: Result<(), Fault>)
        ensures
            agrees(
                execute_spec(old(self)@, op, rnd),
                old(self)@,
                final(self)@,
                res,
            ),
    {
        self.apply(decode(op), rnd)
    }

    /// Carries out one decoded instruction, the program counter already
    /// standing behind it. An instruction that faults changes nothing.
    pub fn apply(&mut self, ins: Instruction, rnd: u8) -> (res: Result<(), Fault>)
        requires
            ins.wf(),
        ensures
            agrees(
                apply_spec(old(self)@, ins, rnd),
                old(self)@,
                final(self)@,
                res,
            ),
    {
        match ins {
            Instruction::ClearScreen => {
                self.state.screen = [Dstatus::Off;SCREEN_SIZE];
                Ok(())
            },
            Instruction::Return => self.subroutine_return(),
            Instruction::Jump { addr } => {
                self.state.pc = addr;
                Ok(())
            },
            Instruction::Call { addr } => self.subroutine_call(addr),
            Instruction::SkipEqImm { x, nn } => {
                self.skip_next(self.state.v_reg[x as usize] == nn);
                Ok(())
            },
            Instruction::SkipNeImm { x, nn } => {
                self.skip_next(self.state.v_reg[x as usize] != nn);
                Ok(())
            },
            Instruction::SkipEqReg { x, y } => {
                self.skip_next(self.state.v_reg[x as usize] == self.state.v_reg[y as usize]);
                Ok(())
            },
            Instruction::SkipNeReg { x, y } => {
                self.skip_next(self.state.v_reg[x as usize] != self.state.v_reg[y as usize]);
                Ok(())
            },
            Instruction::LoadImm { x, nn } => {
                self.set_register(x, nn);
                Ok(())
            },
            Instruction::AddImm { x, nn } => {
                let sum: u16 = self.state.v_reg[x as usize] as u16 + nn as u16;
                self.set_register(x, (sum % 256) as u8);
                Ok(())
            },
            Instruction::Move { x, y } => {
                self.set_register(x, self.state.v_reg[y as usize]);
                Ok(())
            },
            Instruction::Or { x, y } => {
                self.set_register(x, self.state.v_reg[x as usize] | self.state.v_reg[y as usize]);
                Ok(())
            },
            Instruction::And { x, y } => {
                self.set_register(x, self.state.v_reg[x as usize] & self.state.v_reg[y as usize]);
                Ok(())
            },
            Instruction::Xor { x, y } => {
                self.set_register(x, self.state.v_reg[x as usize] ^ self.state.v_reg[y as usize]);
                Ok(())
            },
            Instruction::AddReg { x, y } => {
                let sum: u16 = self.state.v_reg[x as usize] as u16 + self.state.v_reg[y as usize] as u16;
                self.set_register(x, (sum % 256) as u8);
                self.set_flag_register(sum > 255);
                Ok(())
            },
            Instruction::SubReg { x, y } => {
                let minuend: u8 = self.state.v_reg[x as usize];
                let subtrahend: u8 = self.state.v_reg[y as usize];
                self.subtract_into(x, minuend, subtrahend);
                Ok(())
            },
            Instruction::SubFrom { x, y } => {
                let minuend: u8 = self.state.v_reg[y as usize];
                let subtrahend: u8 = self.state.v_reg[x as usize];
                self.subtract_into(x, minuend, subtrahend);
                Ok(())
            },
            Instruction::ShiftRight { x } => {
                let value: u8 = self.state.v_reg[x as usize];
                assert(value >> 1 == value / 2 && value & 1 == value % 2) by (bit_vector);
                self.set_register(x, value >> 1);
                self.set_flag_register(value & 1 == 1);
                Ok(())
            },
            Instruction::ShiftLeft { x } => {
                let value: u8 = self.state.v_reg[x as usize];
                assert(value << 1 == (value * 2) % 256 && ((value >> 7) & 1 == 1) == (value >= 128))
                    by (bit_vector);
                self.set_register(x, value << 1);
                self.set_flag_register((value >> 7) & 1 == 1);
                Ok(())
            },
            Instruction::LoadIndex { addr } => {
                self.state.i_reg = addr;
                Ok(())
            },
            Instruction::JumpOffset { addr } => {
                self.state.pc = addr + self.state.v_reg[0] as u16;
                Ok(())
            },
            Instruction::Random { x, nn } => {
                self.set_register(x, rnd & nn);
                Ok(())
            },
            Instruction::Draw { x, y, n } => {
                self.draw_sprite(x as usize, y as usize, n as usize);
                Ok(())
            },
            Instruction::SkipKey { x } => {
                let key: usize = self.state.v_reg[x as usize] as usize;
                if key >= 16 {
                    return Err(Fault::KeyOutOfRange);
                }
                self.skip_next(self.state.keys[key] == Kstatus::Pressed);
                Ok(())
            },
            Instruction::SkipNoKey { x } => {
                let key: usize = self.state.v_reg[x as usize] as usize;
                if key >= 16 {
                    return Err(Fault::KeyOutOfRange);
                }
                self.skip_next(self.state.keys[key] != Kstatus::Pressed);
                Ok(())
            },
            Instruction::ReadDelay { x } => {
                self.set_register(x, self.state.delay_tmr);
                Ok(())
            },
            Instruction::WaitKey { x } => {
                self.wait_key(x);
                Ok(())
            },
            Instruction::SetDelay { x } => {
                self.state.delay_tmr = self.state.v_reg[x as usize];
                Ok(())
            },
            Instruction::SetSound { x } => {
                self.state.sound_tmr = self.state.v_reg[x as usize];
                Ok(())
            },
            Instruction::AddIndex { x } => {
                let sum: u32 = self.state.i_reg as u32 + self.state.v_reg[x as usize] as u32;
                self.state.i_reg = (sum % 0x10000) as u16;
                Ok(())
            },
            Instruction::Glyph { x } => {
                self.state.i_reg = self.state.v_reg[x as usize] as u16 * 5;
                Ok(())
            },
            Instruction::StoreBcd { x } => self.store_decimal(x),
            Instruction::StoreRegs { x } => self.store_registers(x),
            Instruction::LoadRegs { x } => self.load_registers(x),
            Instruction::Unknown => Ok(()),
        }
    }
}

} // verus!
