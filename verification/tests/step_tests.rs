use chip8::step::Cpu;

#[test]
fn test_initial_state() {
    let cpu = Cpu::new();
    assert_eq!(cpu.state.pc, 0x200);
    assert_eq!(cpu.state.sp, 0);
}

#[test]
fn test_opcode_6xnn_set_vx() {
    let mut cpu = Cpu::new();
    // 61AA -> V1 = 0xAA
    assert_eq!(cpu.execute(0x61AA), Ok(()));
    assert_eq!(cpu.state.v_reg[1], 0xAA);
}

#[test]
fn test_opcode_7xnn_add_vx() {
    let mut cpu = Cpu::new();
    // 6110 -> V1 = 0x10
    assert_eq!(cpu.execute(0x6110), Ok(()));
    // 7110 -> V1 += 0x10
    assert_eq!(cpu.execute(0x7110), Ok(()));
    assert_eq!(cpu.state.v_reg[1], 0x20);
}
