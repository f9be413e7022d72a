use vstd::prelude::*;
use crate::utils::FONTSET;

verus! {

/// The machine as a mathematical value. Memory, registers, stack, framebuffer
/// and keypad are sequences; a framebuffer cell is `true` when lit and a key
/// is `true` when pressed. The framebuffer is row-major: cell `(column, row)`
/// has index `column + 64 * row`.
#[verifier::ext_equal]
pub struct Machine {
    pub ram: Seq<u8>,
    pub v: Seq<u8>,
    pub stack: Seq<u16>,
    pub sound: u8,
    pub delay: u8,
    pub i: u16,
    pub sp: u16,
    pub pc: u16,
    pub screen: Seq<bool>,
    pub keys: Seq<bool>,
}

impl Machine {
    /// Every component has the size the hardware fixes.
    pub open spec fn wf(self) -> bool {
        &&& self.ram.len() == 4096
        &&& self.v.len() == 16
        &&& self.stack.len() == 16
        &&& self.screen.len() == 2048
        &&& self.keys.len() == 16
    }
}

/// The machine at power-on: the font in the first 80 bytes of memory, the
/// program counter at `0x200`, everything else zero, dark and released.
pub open spec fn power_on() -> Machine {
    Machine {
        ram: Seq::new(4096, |a: int| if a < 80 { FONTSET[a] } else { 0u8 }),
        v: Seq::new(16, |r: int| 0u8),
        stack: Seq::new(16, |s: int| 0u16),
        sound: 0,
        delay: 0,
        i: 0,
        sp: 0,
        pc: 0x200,
        screen: Seq::new(2048, |c: int| false),
        keys: Seq::new(16, |k: int| false),
    }
}

} // verus!
