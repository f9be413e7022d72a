use chip8::decode::{decode, Instruction};

#[test]
fn decodes_screen_and_flow_words() {
    assert_eq!(decode(0x00E0), Instruction::ClearScreen);
    assert_eq!(decode(0x00EE), Instruction::Return);
    assert_eq!(decode(0x1ABC), Instruction::Jump { addr: 0xABC });
    assert_eq!(decode(0x2FFF), Instruction::Call { addr: 0xFFF });
    assert_eq!(decode(0xA123), Instruction::LoadIndex { addr: 0x123 });
    assert_eq!(decode(0xB000), Instruction::JumpOffset { addr: 0 });
}

#[test]
fn decodes_skips() {
    assert_eq!(decode(0x3A42), Instruction::SkipEqImm { x: 0xA, nn: 0x42 });
    assert_eq!(decode(0x4B01), Instruction::SkipNeImm { x: 0xB, nn: 0x01 });
    assert_eq!(decode(0x5120), Instruction::SkipEqReg { x: 1, y: 2 });
    assert_eq!(decode(0x9EF0), Instruction::SkipNeReg { x: 0xE, y: 0xF });
    assert_eq!(decode(0xE39E), Instruction::SkipKey { x: 3 });
    assert_eq!(decode(0xE4A1), Instruction::SkipNoKey { x: 4 });
}

#[test]
fn decodes_register_words() {
    assert_eq!(decode(0x61AA), Instruction::LoadImm { x: 1, nn: 0xAA });
    assert_eq!(decode(0x7F01), Instruction::AddImm { x: 0xF, nn: 1 });
    assert_eq!(decode(0x8120), Instruction::Move { x: 1, y: 2 });
    assert_eq!(decode(0x8121), Instruction::Or { x: 1, y: 2 });
    assert_eq!(decode(0x8122), Instruction::And { x: 1, y: 2 });
    assert_eq!(decode(0x8123), Instruction::Xor { x: 1, y: 2 });
    assert_eq!(decode(0x8124), Instruction::AddReg { x: 1, y: 2 });
    assert_eq!(decode(0x8125), Instruction::SubReg { x: 1, y: 2 });
    assert_eq!(decode(0x8126), Instruction::ShiftRight { x: 1 });
    assert_eq!(decode(0x8127), Instruction::SubFrom { x: 1, y: 2 });
    assert_eq!(decode(0x812E), Instruction::ShiftLeft { x: 1 });
    assert_eq!(decode(0xC70F), Instruction::Random { x: 7, nn: 0x0F });
    assert_eq!(decode(0xD125), Instruction::Draw { x: 1, y: 2, n: 5 });
}

#[test]
fn decodes_timer_and_memory_words() {
    assert_eq!(decode(0xF207), Instruction::ReadDelay { x: 2 });
    assert_eq!(decode(0xF20A), Instruction::WaitKey { x: 2 });
    assert_eq!(decode(0xF215), Instruction::SetDelay { x: 2 });
    assert_eq!(decode(0xF218), Instruction::SetSound { x: 2 });
    assert_eq!(decode(0xF21E), Instruction::AddIndex { x: 2 });
    assert_eq!(decode(0xF229), Instruction::Glyph { x: 2 });
    assert_eq!(decode(0xF233), Instruction::StoreBcd { x: 2 });
    assert_eq!(decode(0xF255), Instruction::StoreRegs { x: 2 });
    assert_eq!(decode(0xF265), Instruction::LoadRegs { x: 2 });
}

#[test]
fn words_outside_the_set_decode_to_unknown() {
    for op in [
        0x0000u16, 0x00E1, 0x00EF, 0x01E0, 0x0123, 0x0FFF, 0x5121, 0x512F, 0x8128, 0x812D,
        0x812F, 0x9121, 0xE09F, 0xE0A0, 0xE19F, 0xE000, 0xF000, 0xF108, 0xF116, 0xF156, 0xF1FF,
    ] {
        assert_eq!(decode(op), Instruction::Unknown, "word {:#06x}", op);
    }
}

#[test]
fn every_word_decodes_to_operands_in_range() {
    for op in 0..=0xFFFFu16 {
        let x = ((op >> 8) & 0xF) as u8;
        let y = ((op >> 4) & 0xF) as u8;
        let nn = (op & 0xFF) as u8;
        match decode(op) {
            Instruction::LoadImm { x: dx, nn: dnn } => {
                assert_eq!(op >> 12, 6);
                assert_eq!((dx, dnn), (x, nn));
            }
            Instruction::AddReg { x: dx, y: dy } => {
                assert_eq!(op & 0xF00F, 0x8004);
                assert_eq!((dx, dy), (x, y));
            }
            Instruction::Draw { x: dx, y: dy, n } => {
                assert_eq!(op >> 12, 0xD);
                assert_eq!((dx, dy, n), (x, y, (op & 0xF) as u8));
            }
            Instruction::Jump { addr } => {
                assert_eq!(op >> 12, 1);
                assert_eq!(addr, op & 0x0FFF);
            }
            _ => {}
        }
    }
}
