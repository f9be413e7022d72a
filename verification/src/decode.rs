use vstd::prelude::*;

verus! {

/// One instruction of the base set. `x` and `y` name registers, `nn` is an
/// eight-bit immediate, `addr` a twelve-bit address and `n` a sprite height.
#[derive(Clone, Copy, Debug, PartialEq, Eq, Structural)]
pub enum Instruction {
    /// `00E0`: darken every framebuffer cell.
    ClearScreen,
    /// `00EE`: return from a subroutine.
    Return,
    /// `1nnn`: continue at `addr`.
    Jump { addr: u16 },
    /// `2nnn`: call the subroutine at `addr`.
    Call { addr: u16 },
    /// `3xnn`: skip the next instruction if `Vx == nn`.
    SkipEqImm { x: u8, nn: u8 },
    /// `4xnn`: skip the next instruction if `Vx != nn`.
    SkipNeImm { x: u8, nn: u8 },
    /// `5xy0`: skip the next instruction if `Vx == Vy`.
    SkipEqReg { x: u8, y: u8 },
    /// `6xnn`: `Vx := nn`.
    LoadImm { x: u8, nn: u8 },
    /// `7xnn`: `Vx := Vx + nn` modulo 256, no flag.
    AddImm { x: u8, nn: u8 },
    /// `8xy0`: `Vx := Vy`.
    Move { x: u8, y: u8 },
    /// `8xy1`: `Vx := Vx | Vy`.
    Or { x: u8, y: u8 },
    /// `8xy2`: `Vx := Vx & Vy`.
    And { x: u8, y: u8 },
    /// `8xy3`: `Vx := Vx ^ Vy`.
    Xor { x: u8, y: u8 },
    /// `8xy4`: `Vx := Vx + Vy` modulo 256, `VF` := carry.
    AddReg { x: u8, y: u8 },
    /// `8xy5`: `Vx := Vx - Vy` modulo 256, `VF` := no borrow.
    SubReg { x: u8, y: u8 },
    /// `8xy6`: `Vx := Vx >> 1`, `VF` := the bit shifted out.
    ShiftRight { x: u8 },
    /// `8xy7`: `Vx := Vy - Vx` modulo 256, `VF` := no borrow.
    SubFrom { x: u8, y: u8 },
    /// `8xyE`: `Vx := Vx << 1` modulo 256, `VF` := the bit shifted out.
    ShiftLeft { x: u8 },
    /// `9xy0`: skip the next instruction if `Vx != Vy`.
    SkipNeReg { x: u8, y: u8 },
    /// `Annn`: `I := addr`.
    LoadIndex { addr: u16 },
    /// `Bnnn`: continue at `addr + V0`.
    JumpOffset { addr: u16 },
    /// `Cxnn`: `Vx := random byte & nn`.
    Random { x: u8, nn: u8 },
    /// `Dxyn`: draw the `n`-row sprite at `I` at column `Vx`, row `Vy`.
    Draw { x: u8, y: u8, n: u8 },
    /// `Ex9E`: skip the next instruction if key `Vx` is pressed.
    SkipKey { x: u8 },
    /// `ExA1`: skip the next instruction if key `Vx` is not pressed.
    SkipNoKey { x: u8 },
    /// `Fx07`: `Vx := delay timer`.
    ReadDelay { x: u8 },
    /// `Fx0A`: wait for a key and store its index in `Vx`.
    WaitKey { x: u8 },
    /// `Fx15`: `delay timer := Vx`.
    SetDelay { x: u8 },
    /// `Fx18`: `sound timer := Vx`.
    SetSound { x: u8 },
    /// `Fx1E`: `I := I + Vx` modulo 65536.
    AddIndex { x: u8 },
    /// `Fx29`: `I :=` address of the glyph for `Vx`.
    Glyph { x: u8 },
    /// `Fx33`: store the three decimal digits of `Vx` at `I`, `I + 1`, `I + 2`.
    StoreBcd { x: u8 },
    /// `Fx55`: store `V0..=Vx` at `I..`.
    StoreRegs { x: u8 },
    /// `Fx65`: load `V0..=Vx` from `I..`.
    LoadRegs { x: u8 },
    /// Any other word: does nothing.
    Unknown,
}

impl Instruction {
    /// Register indices and sprite height fit in four bits, addresses in
    /// twelve.
    pub open spec fn wf(self) -> bool {
        match self {
            Instruction::ClearScreen | Instruction::Return | Instruction::Unknown => true,
            Instruction::Jump { addr }
            | Instruction::Call { addr }
            | Instruction::LoadIndex { addr }
            | Instruction::JumpOffset { addr } => addr < 4096,
            Instruction::SkipEqImm { x, .. }
            | Instruction::SkipNeImm { x, .. }
            | Instruction::LoadImm { x, .. }
            | Instruction::AddImm { x, .. }
            | Instruction::Random { x, .. } => x < 16,
            Instruction::SkipEqReg { x, y }
            | Instruction::Move { x, y }
            | Instruction::Or { x, y }
            | Instruction::And { x, y }
            | Instruction::Xor { x, y }
            | Instruction::AddReg { x, y }
            | Instruction::SubReg { x, y }
            | Instruction::SubFrom { x, y }
            | Instruction::SkipNeReg { x, y } => x < 16 && y < 16,
            Instruction::Draw { x, y, n } => x < 16 && y < 16 && n < 16,
            Instruction::ShiftRight { x }
            | Instruction::ShiftLeft { x }
            | Instruction::SkipKey { x }
            | Instruction::SkipNoKey { x }
            | Instruction::ReadDelay { x }
            | Instruction::WaitKey { x }
            | Instruction::SetDelay { x }
            | Instruction::SetSound { x }
            | Instruction::AddIndex { x }
            | Instruction::Glyph { x }
            | Instruction::StoreBcd { x }
            | Instruction::StoreRegs { x }
            | Instruction::LoadRegs { x } => x < 16,
        }
    }
}

/// The instruction that the word `op` encodes. With the word written as four
/// hexadecimal digits, the first digit selects the group, `x` is the second
/// digit, `y` the third, `n` the fourth, `nn` the low byte and `addr` the low
/// twelve bits.
pub open spec fn decode_spec(op: u16) -> Instruction {
    let group = op / 4096;
    let x = ((op / 256) % 16) as u8;
    let y = ((op / 16) % 16) as u8;
    let n = (op % 16) as u8;
    let nn = (op % 256) as u8;
    let addr = (op % 4096) as u16;
    if op == 0x00E0 {
        Instruction::ClearScreen
    } else if op == 0x00EE {
        Instruction::Return
    } else if group == 0x1 {
        Instruction::Jump { addr }
    } else if group == 0x2 {
        Instruction::Call { addr }
    } else if group == 0x3 {
        Instruction::SkipEqImm { x, nn }
    } else if group == 0x4 {
        Instruction::SkipNeImm { x, nn }
    } else if group == 0x5 && n == 0 {
        Instruction::SkipEqReg { x, y }
    } else if group == 0x6 {
        Instruction::LoadImm { x, nn }
    } else if group == 0x7 {
        Instruction::AddImm { x, nn }
    } else if group == 0x8 && n == 0x0 {
        Instruction::Move { x, y }
    } else if group == 0x8 && n == 0x1 {
        Instruction::Or { x, y }
    } else if group == 0x8 && n == 0x2 {
        Instruction::And { x, y }
    } else if group == 0x8 && n == 0x3 {
        Instruction::Xor { x, y }
    } else if group == 0x8 && n == 0x4 {
        Instruction::AddReg { x, y }
    } else if group == 0x8 && n == 0x5 {
        Instruction::SubReg { x, y }
    } else if group == 0x8 && n == 0x6 {
        Instruction::ShiftRight { x }
    } else if group == 0x8 && n == 0x7 {
        Instruction::SubFrom { x, y }
    } else if group == 0x8 && n == 0xE {
        Instruction::ShiftLeft { x }
    } else if group == 0x9 && n == 0 {
        Instruction::SkipNeReg { x, y }
    } else if group == 0xA {
        Instruction::LoadIndex { addr }
    } else if group == 0xB {
        Instruction::JumpOffset { addr }
    } else if group == 0xC {
        Instruction::Random { x, nn }
    } else if group == 0xD {
        Instruction::Draw { x, y, n }
    } else if group == 0xE && nn == 0x9E {
        Instruction::SkipKey { x }
    } else if group == 0xE && nn == 0xA1 {
        Instruction::SkipNoKey { x }
    } else if group == 0xF && nn == 0x07 {
        Instruction::ReadDelay { x }
    } else if group == 0xF && nn == 0x0A {
        Instruction::WaitKey { x }
    } else if group == 0xF && nn == 0x15 {
        Instruction::SetDelay { x }
    } else if group == 0xF && nn == 0x18 {
        Instruction::SetSound { x }
    } else if group == 0xF && nn == 0x1E {
        Instruction::AddIndex { x }
    } else if group == 0xF && nn == 0x29 {
        Instruction::Glyph { x }
    } else if group == 0xF && nn == 0x33 {
        Instruction::StoreBcd { x }
    } else if group == 0xF && nn == 0x55 {
        Instruction::StoreRegs { x }
    } else if group == 0xF && nn == 0x65 {
        Instruction::LoadRegs { x }
    } else {
        Instruction::Unknown
    }
}

/// Decodes one instruction word.
pub fn decode(op: u16) -> (ins: Instruction)
    ensures
        ins == decode_spec(op),
        ins.wf(),
{
    let d1: u16 = (op & 0xF000) >> 12;
    let d2: u16 = (op & 0x0F00) >> 8;
    let d3: u16 = (op & 0x00F0) >> 4;
    let d4: u16 = op & 0x000F;
    let nnn: u16 = op & 0x0FFF;
    let low: u16 = op & 0x00FF;
    proof {
        assert((op & 0xF000) >> 12 == op / 4096) by (bit_vector);
        assert((op & 0x0F00) >> 8 == (op / 256) % 16) by (bit_vector);
        assert((op & 0x00F0) >> 4 == (op / 16) % 16) by (bit_vector);
        assert(op & 0x000F == op % 16) by (bit_vector);
        assert(op & 0x0FFF == op % 4096) by (bit_vector);
        assert(op & 0x00FF == op % 256) by (bit_vector);
    }
    let x: u8 = d2 as u8;
    let y: u8 = d3 as u8;
    let n: u8 = d4 as u8;
    let nn: u8 = low as u8;
    match (d1, d2, d3, d4) {
        (0, 0, 0xE, 0) => Instruction::ClearScreen,
        (0, 0, 0xE, 0xE) => Instruction::Return,
        (1, _, _, _) => Instruction::Jump { addr: nnn },
        (2, _, _, _) => Instruction::Call { addr: nnn },
        (3, _, _, _) => Instruction::SkipEqImm { x, nn },
        (4, _, _, _) => Instruction::SkipNeImm { x, nn },
        (5, _, _, 0) => Instruction::SkipEqReg { x, y },
        (6, _, _, _) => Instruction::LoadImm { x, nn },
        (7, _, _, _) => Instruction::AddImm { x, nn },
        (8, _, _, 0) => Instruction::Move { x, y },
        (8, _, _, 1) => Instruction::Or { x, y },
        (8, _, _, 2) => Instruction::And { x, y },
        (8, _, _, 3) => Instruction::Xor { x, y },
        (8, _, _, 4) => Instruction::AddReg { x, y },
        (8, _, _, 5) => Instruction::SubReg { x, y },
        (8, _, _, 6) => Instruction::ShiftRight { x },
        (8, _, _, 7) => Instruction::SubFrom { x, y },
        (8, _, _, 0xE) => Instruction::ShiftLeft { x },
        (9, _, _, 0) => Instruction::SkipNeReg { x, y },
        (0xA, _, _, _) => Instruction::LoadIndex { addr: nnn },
        (0xB, _, _, _) => Instruction::JumpOffset { addr: nnn },
        (0xC, _, _, _) => Instruction::Random { x, nn },
        (0xD, _, _, _) => Instruction::Draw { x, y, n },
        (0xE, _, 9, 0xE) => Instruction::SkipKey { x },
        (0xE, _, 0xA, 1) => Instruction::SkipNoKey { x },
        (0xF, _, 0, 7) => Instruction::ReadDelay { x },
        (0xF, _, 0, 0xA) => Instruction::WaitKey { x },
        (0xF, _, 1, 5) => Instruction::SetDelay { x },
        (0xF, _, 1, 8) => Instruction::SetSound { x },
        (0xF, _, 1, 0xE) => Instruction::AddIndex { x },
        (0xF, _, 2, 9) => Instruction::Glyph { x },
        (0xF, _, 3, 3) => Instruction::StoreBcd { x },
        (0xF, _, 5, 5) => Instruction::StoreRegs { x },
        (0xF, _, 6, 5) => Instruction::LoadRegs { x },
        _ => Instruction::Unknown,
    }
}

} // verus!
