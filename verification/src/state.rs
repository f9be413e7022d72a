use vstd::prelude::*;
use crate::model::{power_on, Machine};
use crate::utils::{Dstatus, Kstatus, FONTSET, FONT_SIZE};

verus! {

/// Bytes of memory.
pub const RAM_SIZE: usize = 4096;

/// General-purpose registers `V0` to `VF`.
pub const V_REG_COUNT: usize = 16;

/// Return addresses that the call stack holds.
pub const STACK_SIZE: usize = 16;

/// Framebuffer columns.
pub const SCREEN_WIDTH: usize = 64;

/// Framebuffer rows.
pub const SCREEN_HEIGHT: usize = 32;

/// Framebuffer cells, stored row by row.
pub const SCREEN_SIZE: usize = SCREEN_WIDTH * SCREEN_HEIGHT;

/// Keys of the keypad.
pub const KEY_COUNT: usize = 16;

/// Everything the interpreter reads and writes: memory, the registers `V0`
/// to `VF`, the call stack with its pointer, the two timers, the index
/// register, the program counter, the framebuffer and the keypad.
pub struct CpuState {
    pub ram: [u8; RAM_SIZE],
    pub v_reg: [u8; V_REG_COUNT],
    pub stack: [u16; STACK_SIZE],
    pub sound_tmr: u8,
    pub delay_tmr: u8,
    pub i_reg: u16,
    pub sp: u16,
    pub pc: u16,
    pub screen: [Dstatus; SCREEN_SIZE],
    pub keys: [Kstatus; KEY_COUNT],
}

/// A state is modelled by the machine that has the same contents.
impl View for CpuState {
    type V = Machine;

    open spec fn view(&self) -> Machine {
        Machine {
            ram: self.ram@,
            v: self.v_reg@,
            stack: self.stack@,
            sound: self.sound_tmr,
            delay: self.delay_tmr,
            i: self.i_reg,
            sp: self.sp,
            pc: self.pc,
            screen: Seq::new(2048, |c: int| self.screen[c] == Dstatus::On),
            keys: Seq::new(16, |k: int| self.keys[k] == Kstatus::Pressed),
        }
    }
}

impl CpuState {
    /// The state at power-on.
    pub fn new() -> (state: Self)
        ensures
            state@ == power_on(),
    {
        let mut state = Self {
            ram: [0; RAM_SIZE],
            v_reg: [0; V_REG_COUNT],
            stack: [0; STACK_SIZE],
            sound_tmr: 0,
            delay_tmr: 0,
            i_reg: 0,
            sp: 0,
            pc: 0x200,
            screen: [Dstatus::Off; SCREEN_SIZE],
            keys: [Kstatus::Default; KEY_COUNT],
        };
        let mut a: usize = 0;
        while a < FONT_SIZE
            invariant
                a <= FONT_SIZE,
                forall|b: int| 0 <= b < a ==> state.ram[b] == FONTSET[b],
                forall|b: int| a <= b < 4096 ==> state.ram[b] == 0,
                state.v_reg@ == Seq::new(16, |r: int| 0u8),
                state.stack@ == Seq::new(16, |s: int| 0u16),
                state.sound_tmr == 0,
                state.delay_tmr == 0,
                state.i_reg == 0,
                state.sp == 0,
                state.pc == 0x200,
                forall|c: int| 0 <= c < 2048 ==> state.screen[c] == Dstatus::Off,
                forall|k: int| 0 <= k < 16 ==> state.keys[k] == Kstatus::Default,
            decreases FONT_SIZE - a,
        {
            state.ram[a] = FONTSET[a];
            a = a + 1;
        }
        state
    }

    /// Returns to the power-on state, discarding any loaded program.
    pub fn reset(&mut self)
        ensures
            final(self)@ == power_on(),
    {
        *self = Self::new();
    }
}

} // verus!
