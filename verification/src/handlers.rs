use vstd::prelude::*;
use crate::fault::Fault;
use crate::model::Machine;
use crate::semantics::{
    agrees, any_pressed, is_lowest_pressed, load_regs, lowest_pressed, move_pc, set_flag, set_reg,
    skip_if, store_bcd, store_regs,
};
use crate::step::Cpu;
use crate::utils::Kstatus;

verus! {

/// A pressed key with no pressed key below it is the lowest pressed key.
pub proof fn lemma_lowest_pressed_unique(keys: Seq<bool>, k: int)
    requires
        is_lowest_pressed(keys, k),
    ensures
        any_pressed(keys),
        lowest_pressed(keys) == k,
{
    let other = lowest_pressed(keys);
    assert(is_lowest_pressed(keys, other));
    if other < k {
        assert(!keys[other]);
    } else if k < other {
        assert(!keys[k]);
    }
}

impl Cpu {
    /// `Vx := value`.
    pub(crate) fn set_register(&mut self, x: u8, value: u8)
        requires
            x < 16,
        ensures
            final(self)@ == set_reg(old(self)@, x as int, value),
    {
        self.state.v_reg[x as usize] = value;
    }

    /// `VF` := 1 if `flag`, 0 otherwise.
    pub(crate) fn set_flag_register(&mut self, flag: bool)
        ensures
            final(self)@ == set_flag(old(self)@, flag),
    {
        self.state.v_reg[0xF] = if flag {
            1
        } else {
            0
        };
    }

    /// `Vx := minuend - subtrahend` modulo 256, then `VF` := no borrow.
    pub(crate) fn subtract_into(&mut self, x: u8, minuend: u8, subtrahend: u8)
        requires
            x < 16,
        ensures
            final(self)@ == set_flag(
                set_reg(old(self)@, x as int, ((minuend - subtrahend) % 256) as u8),
                minuend - subtrahend >= 0,
            ),
    {
        let no_borrow: bool = minuend >= subtrahend;
        let difference: u16 = if no_borrow {
            (minuend - subtrahend) as u16
        } else {
            256 - (subtrahend - minuend) as u16
        };
        self.set_register(x, difference as u8);
        self.set_flag_register(no_borrow);
    }

    /// Skips the next instruction if `condition` holds.
    pub(crate) fn skip_next(&mut self, condition: bool)
        ensures
            final(self)@ == skip_if(old(self)@, condition),
    {
        if condition {
            self.state.pc = ((self.state.pc as u32 + 2) % 0x10000) as u16;
        }
    }

    /// Pushes the program counter and continues at `addr`; a fault if the
    /// stack is full.
    pub(crate) fn subroutine_call(&mut self, addr: u16) -> (res: Result<(), Fault>)
        ensures
            agrees(
                if old(self)@.sp >= 16 {
                    Err(Fault::StackOverflow)
                } else {
                    Ok(
                        Machine {
                            stack: old(self)@.stack.update(
                                old(self)@.sp as int,
                                old(self)@.pc,
                            ),
                            sp: (old(self)@.sp + 1) as u16,
                            pc: addr,
                            ..old(self)@
                        },
                    )
                },
                old(self)@,
                final(self)@,
                res,
            ),
    {
        if self.state.sp >= 16 {
            return Err(Fault::StackOverflow);
        }
        self.state.stack[self.state.sp as usize] = self.state.pc;
        self.state.sp += 1;
        self.state.pc = addr;
        Ok(())
    }

    /// Pops the program counter; a fault if the stack is empty, or if the
    /// stack pointer lies beyond the stack.
    pub(crate) fn subroutine_return(&mut self) -> (res: Result<(), Fault>)
        ensures
            agrees(
                if old(self)@.sp == 0 {
                    Err(Fault::StackUnderflow)
                } else if old(self)@.sp > 16 {
                    Err(Fault::StackOverflow)
                } else {
                    Ok(
                        Machine {
                            sp: (old(self)@.sp - 1) as u16,
                            pc: old(self)@.stack[old(self)@.sp - 1],
                            ..old(self)@
                        },
                    )
                },
                old(self)@,
                final(self)@,
                res,
            ),
    {
        if self.state.sp == 0 {
            return Err(Fault::StackUnderflow);
        }
        if self.state.sp > 16 {
            return Err(Fault::StackOverflow);
        }
        self.state.sp -= 1;
        self.state.pc = self.state.stack[self.state.sp as usize];
        Ok(())
    }

    /// Stores the lowest pressed key in `Vx`; with no key pressed, moves the
    /// program counter back onto the instruction.
    pub(crate) fn wait_key(&mut self, x: u8)
        requires
            x < 16,
        ensures
            final(self)@ == if any_pressed(old(self)@.keys) {
                set_reg(old(self)@, x as int, lowest_pressed(old(self)@.keys) as u8)
            } else {
                move_pc(old(self)@, -2)
            },
    {
        let mut k: usize = 0;
        while k < 16
            invariant
                k <= 16,
                x < 16,
                self.state == old(self).state,
                forall|j: int| 0 <= j < k ==> !self@.keys[j],
            decreases 16 - k,
        {
            if self.state.keys[k] == Kstatus::Pressed {
                proof {
                    lemma_lowest_pressed_unique(self@.keys, k as int);
                }
                self.state.v_reg[x as usize] = k as u8;
                return ;
            }
            k = k + 1;
        }
        self.state.pc = ((self.state.pc as u32 + 0xFFFE) % 0x10000) as u16;
    }

    /// Stores the decimal digits of `Vx` at `I`, `I + 1` and `I + 2`; a
    /// fault if they do not lie within memory.
    pub(crate) fn store_decimal(&mut self, x: u8) -> (res: Result<(), Fault>)
        requires
            x < 16,
        ensures
            agrees(
                if old(self)@.i + 2 >= 4096 {
                    Err(Fault::MemoryOutOfRange)
                } else {
                    Ok(
                        Machine {
                            ram: store_bcd(
                                old(self)@.ram,
                                old(self)@.i as int,
                                old(self)@.v[x as int],
                            ),
                            ..old(self)@
                        },
                    )
                },
                old(self)@,
                final(self)@,
                res,
            ),
    {
        let at: usize = self.state.i_reg as usize;
        if at + 2 >= 4096 {
            return Err(Fault::MemoryOutOfRange);
        }
        let value: u8 = self.state.v_reg[x as usize];
        self.state.ram[at] = value / 100;
        self.state.ram[at + 1] = (value % 100) / 10;
        self.state.ram[at + 2] = value % 10;
        Ok(())
    }

    /// Stores `V0..=Vx` at `I..=I + x`; a fault if they do not lie within
    /// memory.
    pub(crate) fn store_registers(&mut self, x: u8) -> (res: Result<(), Fault>)
        requires
            x < 16,
        ensures
            agrees(
                if old(self)@.i + x >= 4096 {
                    Err(Fault::MemoryOutOfRange)
                } else {
                    Ok(
                        Machine {
                            ram: store_regs(
                                old(self)@.ram,
                                old(self)@.i as int,
                                old(self)@.v,
                                x as int,
                            ),
                            ..old(self)@
                        },
                    )
                },
                old(self)@,
                final(self)@,
                res,
            ),
    {
        let at: usize = self.state.i_reg as usize;
        let last: usize = x as usize;
        if at + last >= 4096 {
            return Err(Fault::MemoryOutOfRange);
        }
        let mut r: usize = 0;
        while r <= last
            invariant
                r <= last + 1,
                last < 16,
                at + last < 4096,
                at == old(self).state.i_reg,
                self@ == (Machine { ram: self.state.ram@, ..old(self)@ }),
                forall|a: int|
                    0 <= a < 4096 ==> self.state.ram[a] == if at <= a < at + r {
                        old(self).state.v_reg[a - at]
                    } else {
                        old(self).state.ram[a]
                    },
            decreases last + 1 - r,
        {
            self.state.ram[at + r] = self.state.v_reg[r];
            r = r + 1;
        }
        Ok(())
    }

    /// Loads `V0..=Vx` from `I..=I + x`; a fault if they do not lie within
    /// memory.
    pub(crate) fn load_registers(&mut self, x: u8) -> (res: Result<(), Fault>)
        requires
            x < 16,
        ensures
            agrees(
                if old(self)@.i + x >= 4096 {
                    Err(Fault::MemoryOutOfRange)
                } else {
                    Ok(
                        Machine {
                            v: load_regs(
                                old(self)@.v,
                                old(self)@.ram,
                                old(self)@.i as int,
                                x as int,
                            ),
                            ..old(self)@
                        },
                    )
                },
                old(self)@,
                final(self)@,
                res,
            ),
    {
        let at: usize = self.state.i_reg as usize;
        let last: usize = x as usize;
        if at + last >= 4096 {
            return Err(Fault::MemoryOutOfRange);
        }
        let mut r: usize = 0;
        while r <= last
            invariant
                r <= last + 1,
                last < 16,
                at + last < 4096,
                at == old(self).state.i_reg,
                self@ == (Machine { v: self.state.v_reg@, ..old(self)@ }),
                forall|k: int|
                    0 <= k < 16 ==> self.state.v_reg[k] == if k < r {
                        old(self).state.ram[at + k]
                    } else {
                        old(self).state.v_reg[k]
                    },
            decreases last + 1 - r,
        {
            self.state.v_reg[r] = self.state.ram[at + r];
            r = r + 1;
        }
        Ok(())
    }
}

} // verus!
