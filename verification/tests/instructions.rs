use chip8::decode::Instruction;
use chip8::fault::Fault;
use chip8::state::CpuState;
use chip8::step::Cpu;

fn unchanged(a: &CpuState, b: &CpuState) -> bool {
    a.ram == b.ram
        && a.v_reg == b.v_reg
        && a.stack == b.stack
        && a.sound_tmr == b.sound_tmr
        && a.delay_tmr == b.delay_tmr
        && a.i_reg == b.i_reg
        && a.sp == b.sp
        && a.pc == b.pc
        && a.screen == b.screen
        && a.keys == b.keys
}

fn with_registers(values: &[(usize, u8)]) -> Cpu {
    let mut cpu = Cpu::new();
    for (r, v) in values {
        cpu.state.v_reg[*r] = *v;
    }
    cpu
}

#[test]
fn load_immediate_sets_only_its_register() {
    for x in 0..16usize {
        let mut cpu = Cpu::new();
        let op = 0x6000 | ((x as u16) << 8) | 0x5A;
        assert_eq!(cpu.execute(op), Ok(()));
        for r in 0..16usize {
            assert_eq!(cpu.state.v_reg[r], if r == x { 0x5A } else { 0 });
        }
        assert_eq!(cpu.state.pc, 0x200);
    }
}

#[test]
fn add_immediate_wraps_and_keeps_the_flag() {
    let mut cpu = with_registers(&[(2, 0xFF), (0xF, 1)]);
    assert_eq!(cpu.execute(0x7201), Ok(()));
    assert_eq!(cpu.state.v_reg[2], 0x00);
    assert_eq!(cpu.state.v_reg[0xF], 1);
    let mut cpu = with_registers(&[(2, 0xFE), (0xF, 0)]);
    assert_eq!(cpu.execute(0x7203), Ok(()));
    assert_eq!(cpu.state.v_reg[2], 0x01);
    assert_eq!(cpu.state.v_reg[0xF], 0);
}

#[test]
fn add_immediate_to_the_flag_register_adds_to_it() {
    let mut cpu = with_registers(&[(0xF, 0xFF)]);
    assert_eq!(cpu.execute(0x7F01), Ok(()));
    assert_eq!(cpu.state.v_reg[0xF], 0x00);
}

#[test]
fn move_or_and_xor_leave_the_flag_alone() {
    let mut cpu = with_registers(&[(1, 0b1100), (2, 0b1010), (0xF, 7)]);
    assert_eq!(cpu.execute(0x8121), Ok(()));
    assert_eq!(cpu.state.v_reg[1], 0b1110);
    let mut cpu = with_registers(&[(1, 0b1100), (2, 0b1010), (0xF, 7)]);
    assert_eq!(cpu.execute(0x8122), Ok(()));
    assert_eq!(cpu.state.v_reg[1], 0b1000);
    let mut cpu = with_registers(&[(1, 0b1100), (2, 0b1010), (0xF, 7)]);
    assert_eq!(cpu.execute(0x8123), Ok(()));
    assert_eq!(cpu.state.v_reg[1], 0b0110);
    assert_eq!(cpu.state.v_reg[0xF], 7);
    assert_eq!(cpu.execute(0x8320), Ok(()));
    assert_eq!(cpu.state.v_reg[3], 0b1010);
    assert_eq!(cpu.state.v_reg[2], 0b1010);
    assert_eq!(cpu.state.v_reg[0xF], 7);
}

#[test]
fn add_registers_sets_carry_exactly_above_255() {
    let mut cpu = with_registers(&[(1, 200), (2, 55), (0xF, 1)]);
    assert_eq!(cpu.execute(0x8124), Ok(()));
    assert_eq!((cpu.state.v_reg[1], cpu.state.v_reg[0xF]), (255, 0));
    let mut cpu = with_registers(&[(1, 200), (2, 56)]);
    assert_eq!(cpu.execute(0x8124), Ok(()));
    assert_eq!((cpu.state.v_reg[1], cpu.state.v_reg[0xF]), (0, 1));
    let mut cpu = with_registers(&[(1, 255), (2, 255)]);
    assert_eq!(cpu.execute(0x8124), Ok(()));
    assert_eq!((cpu.state.v_reg[1], cpu.state.v_reg[0xF]), (254, 1));
    assert_eq!(cpu.state.v_reg[2], 255);
}

#[test]
fn add_registers_into_the_flag_register_leaves_the_flag() {
    let mut cpu = with_registers(&[(0xF, 200), (2, 100)]);
    assert_eq!(cpu.execute(0x8F24), Ok(()));
    assert_eq!(cpu.state.v_reg[0xF], 1);
    let mut cpu = with_registers(&[(0xF, 20), (2, 100)]);
    assert_eq!(cpu.execute(0x8F24), Ok(()));
    assert_eq!(cpu.state.v_reg[0xF], 0);
}

#[test]
fn subtract_sets_flag_when_nothing_is_borrowed() {
    let mut cpu = with_registers(&[(1, 10), (2, 3)]);
    assert_eq!(cpu.execute(0x8125), Ok(()));
    assert_eq!((cpu.state.v_reg[1], cpu.state.v_reg[0xF]), (7, 1));
    let mut cpu = with_registers(&[(1, 3), (2, 10), (0xF, 1)]);
    assert_eq!(cpu.execute(0x8125), Ok(()));
    assert_eq!((cpu.state.v_reg[1], cpu.state.v_reg[0xF]), (249, 0));
    let mut cpu = with_registers(&[(1, 9), (2, 9)]);
    assert_eq!(cpu.execute(0x8125), Ok(()));
    assert_eq!((cpu.state.v_reg[1], cpu.state.v_reg[0xF]), (0, 1));
}

#[test]
fn reversed_subtract_takes_vx_from_vy() {
    let mut cpu = with_registers(&[(1, 3), (2, 10)]);
    assert_eq!(cpu.execute(0x8127), Ok(()));
    assert_eq!((cpu.state.v_reg[1], cpu.state.v_reg[0xF]), (7, 1));
    let mut cpu = with_registers(&[(1, 10), (2, 3), (0xF, 1)]);
    assert_eq!(cpu.execute(0x8127), Ok(()));
    assert_eq!((cpu.state.v_reg[1], cpu.state.v_reg[0xF]), (249, 0));
    let mut cpu = with_registers(&[(1, 9), (2, 9)]);
    assert_eq!(cpu.execute(0x8127), Ok(()));
    assert_eq!((cpu.state.v_reg[1], cpu.state.v_reg[0xF]), (0, 1));
    assert_eq!(cpu.state.v_reg[2], 9);
}

#[test]
fn shift_right_moves_the_low_bit_to_the_flag() {
    let mut cpu = with_registers(&[(1, 0b0000_0101)]);
    assert_eq!(cpu.execute(0x8126), Ok(()));
    assert_eq!((cpu.state.v_reg[1], cpu.state.v_reg[0xF]), (0b0000_0010, 1));
    let mut cpu = with_registers(&[(1, 0b1111_1110), (0xF, 1)]);
    assert_eq!(cpu.execute(0x8126), Ok(()));
    assert_eq!((cpu.state.v_reg[1], cpu.state.v_reg[0xF]), (0b0111_1111, 0));
}

#[test]
fn shift_left_moves_the_high_bit_to_the_flag() {
    let mut cpu = with_registers(&[(1, 0b1000_0001)]);
    assert_eq!(cpu.execute(0x812E), Ok(()));
    assert_eq!((cpu.state.v_reg[1], cpu.state.v_reg[0xF]), (0b0000_0010, 1));
    let mut cpu = with_registers(&[(1, 0b0111_1111), (0xF, 1)]);
    assert_eq!(cpu.execute(0x812E), Ok(()));
    assert_eq!((cpu.state.v_reg[1], cpu.state.v_reg[0xF]), (0b1111_1110, 0));
}

#[test]
fn shifting_the_flag_register_leaves_the_bit_shifted_out() {
    let mut cpu = with_registers(&[(0xF, 0b0000_0011)]);
    assert_eq!(cpu.execute(0x8F06), Ok(()));
    assert_eq!(cpu.state.v_reg[0xF], 1);
    let mut cpu = with_registers(&[(0xF, 0b1000_0000)]);
    assert_eq!(cpu.execute(0x8F0E), Ok(()));
    assert_eq!(cpu.state.v_reg[0xF], 1);
    let mut cpu = with_registers(&[(0xF, 0b0100_0010)]);
    assert_eq!(cpu.execute(0x8F0E), Ok(()));
    assert_eq!(cpu.state.v_reg[0xF], 0);
}

#[test]
fn skips_move_by_one_instruction_or_not_at_all() {
    let cases: [(u16, bool); 8] = [
        (0x3142, true),
        (0x3143, false),
        (0x4142, false),
        (0x4143, true),
        (0x5120, false),
        (0x5130, true),
        (0x9120, true),
        (0x9130, false),
    ];
    for (op, skipped) in cases {
        let mut cpu = with_registers(&[(1, 0x42), (2, 0x07), (3, 0x42)]);
        cpu.state.pc = 0x202;
        assert_eq!(cpu.execute(op), Ok(()));
        assert_eq!(cpu.state.pc, if skipped { 0x204 } else { 0x202 }, "word {:#06x}", op);
    }
}

#[test]
fn jumps_and_index_loads() {
    let mut cpu = with_registers(&[(0, 0xFF)]);
    assert_eq!(cpu.execute(0x1ABC), Ok(()));
    assert_eq!(cpu.state.pc, 0xABC);
    assert_eq!(cpu.execute(0xBFFF), Ok(()));
    assert_eq!(cpu.state.pc, 0x10FE);
    assert_eq!(cpu.execute(0xB300), Ok(()));
    assert_eq!(cpu.state.pc, 0x3FF);
    assert_eq!(cpu.execute(0xA123), Ok(()));
    assert_eq!(cpu.state.i_reg, 0x123);
}

#[test]
fn call_then_return_comes_back_behind_the_call() {
    let mut cpu = Cpu::new();
    cpu.load_rom(&[0x22, 0x06, 0x00, 0x00, 0x00, 0x00, 0x00, 0xEE]);
    assert_eq!(cpu.tick(), Ok(()));
    assert_eq!(cpu.state.pc, 0x206);
    assert_eq!(cpu.state.sp, 1);
    assert_eq!(cpu.state.stack[0], 0x202);
    assert_eq!(cpu.tick(), Ok(()));
    assert_eq!(cpu.state.pc, 0x202);
    assert_eq!(cpu.state.sp, 0);
}

#[test]
fn nested_calls_return_in_reverse_order() {
    let mut cpu = Cpu::new();
    cpu.state.pc = 0x300;
    assert_eq!(cpu.execute(0x2400), Ok(()));
    cpu.state.pc = 0x402;
    assert_eq!(cpu.execute(0x2500), Ok(()));
    assert_eq!(cpu.state.sp, 2);
    assert_eq!(cpu.execute(0x00EE), Ok(()));
    assert_eq!((cpu.state.pc, cpu.state.sp), (0x402, 1));
    assert_eq!(cpu.execute(0x00EE), Ok(()));
    assert_eq!((cpu.state.pc, cpu.state.sp), (0x300, 0));
}

#[test]
fn seventeenth_nested_call_is_a_stack_overflow() {
    let mut cpu = Cpu::new();
    for depth in 0..16u16 {
        assert_eq!(cpu.execute(0x2300), Ok(()));
        assert_eq!(cpu.state.sp, depth + 1);
    }
    let before = Cpu::new();
    let mut before = before;
    before.state.stack = cpu.state.stack;
    before.state.sp = cpu.state.sp;
    before.state.pc = cpu.state.pc;
    assert_eq!(cpu.execute(0x2300), Err(Fault::StackOverflow));
    assert!(unchanged(&cpu.state, &before.state));
    assert_eq!(cpu.state.sp, 16);
}

#[test]
fn return_without_a_call_is_a_stack_underflow() {
    let mut cpu = Cpu::new();
    assert_eq!(cpu.execute(0x00EE), Err(Fault::StackUnderflow));
    assert!(unchanged(&cpu.state, &CpuState::new()));
}

#[test]
fn return_with_the_stack_pointer_beyond_the_stack_is_a_fault() {
    let mut cpu = Cpu::new();
    cpu.state.sp = 17;
    assert_eq!(cpu.execute(0x00EE), Err(Fault::StackOverflow));
    assert_eq!(cpu.state.sp, 17);
    assert_eq!(cpu.state.pc, 0x200);
}

#[test]
fn random_masks_the_drawn_byte() {
    let mut cpu = Cpu::new();
    assert_eq!(cpu.execute_with(0xC1F0, 0xAB), Ok(()));
    assert_eq!(cpu.state.v_reg[1], 0xA0);
    assert_eq!(cpu.execute_with(0xC2FF, 0x5C), Ok(()));
    assert_eq!(cpu.state.v_reg[2], 0x5C);
    assert_eq!(cpu.execute_with(0xC300, 0xFF), Ok(()));
    assert_eq!(cpu.state.v_reg[3], 0x00);
}

#[test]
fn random_from_the_generator_stays_under_the_mask() {
    let mut cpu = Cpu::new();
    for _ in 0..200 {
        cpu.state.v_reg[4] = 0xFF;
        assert_eq!(cpu.execute(0xC40F), Ok(()));
        assert!(cpu.state.v_reg[4] <= 0x0F);
        cpu.state.v_reg[5] = 0xFF;
        assert_eq!(cpu.execute(0xC500), Ok(()));
        assert_eq!(cpu.state.v_reg[5], 0);
    }
    let mut other = Cpu::new();
    other.state.v_reg[4] = cpu.state.v_reg[4];
    assert!(unchanged(&cpu.state, &other.state));
}

#[test]
fn the_given_byte_matters_to_random_only() {
    for op in [0x61AAu16, 0x7105, 0x8124, 0xA123, 0x00E0, 0xF11E, 0x0000] {
        let mut a = with_registers(&[(1, 3), (2, 250)]);
        let mut b = with_registers(&[(1, 3), (2, 250)]);
        let mut c = with_registers(&[(1, 3), (2, 250)]);
        assert_eq!(a.execute_with(op, 0x00), Ok(()));
        assert_eq!(b.execute_with(op, 0xFF), Ok(()));
        assert_eq!(c.execute(op), Ok(()));
        assert!(unchanged(&a.state, &b.state));
        assert!(unchanged(&a.state, &c.state));
    }
}

#[test]
fn key_skips_test_the_key_named_by_the_register() {
    let mut cpu = with_registers(&[(1, 0xA)]);
    cpu.state.pc = 0x202;
    cpu.keypress(0xA, true);
    assert_eq!(cpu.execute(0xE19E), Ok(()));
    assert_eq!(cpu.state.pc, 0x204);
    assert_eq!(cpu.execute(0xE1A1), Ok(()));
    assert_eq!(cpu.state.pc, 0x204);
    cpu.keypress(0xA, false);
    assert_eq!(cpu.execute(0xE19E), Ok(()));
    assert_eq!(cpu.state.pc, 0x204);
    assert_eq!(cpu.execute(0xE1A1), Ok(()));
    assert_eq!(cpu.state.pc, 0x206);
}

#[test]
fn key_skip_on_a_value_that_is_no_key_is_a_fault() {
    for op in [0xE19Eu16, 0xE1A1] {
        let mut cpu = with_registers(&[(1, 16)]);
        let before = with_registers(&[(1, 16)]);
        assert_eq!(cpu.execute(op), Err(Fault::KeyOutOfRange));
        assert!(unchanged(&cpu.state, &before.state));
        cpu.state.v_reg[1] = 15;
        assert_eq!(cpu.execute(op), Ok(()));
    }
}

#[test]
fn timers_are_read_and_set() {
    let mut cpu = with_registers(&[(1, 60), (2, 30)]);
    assert_eq!(cpu.execute(0xF115), Ok(()));
    assert_eq!(cpu.execute(0xF218), Ok(()));
    assert_eq!((cpu.state.delay_tmr, cpu.state.sound_tmr), (60, 30));
    cpu.tick_timers();
    assert_eq!(cpu.execute(0xF307), Ok(()));
    assert_eq!(cpu.state.v_reg[3], 59);
    assert_eq!(cpu.state.sound_tmr, 29);
}

#[test]
fn wait_key_spins_until_a_key_is_pressed() {
    let mut cpu = Cpu::new();
    cpu.load_rom(&[0xF5, 0x0A, 0x60, 0x01]);
    for _ in 0..5 {
        assert_eq!(cpu.tick(), Ok(()));
        assert_eq!(cpu.state.pc, 0x200);
        assert_eq!(cpu.state.v_reg[5], 0);
    }
    cpu.keypress(9, true);
    cpu.keypress(4, true);
    cpu.keypress(12, true);
    assert_eq!(cpu.tick(), Ok(()));
    assert_eq!(cpu.state.pc, 0x202);
    assert_eq!(cpu.state.v_reg[5], 4);
    assert_eq!(cpu.tick(), Ok(()));
    assert_eq!(cpu.state.pc, 0x204);
    assert_eq!(cpu.state.v_reg[0], 1);
}

#[test]
fn wait_key_stores_key_zero_and_key_fifteen() {
    let mut cpu = Cpu::new();
    cpu.state.pc = 0x202;
    cpu.state.v_reg[1] = 9;
    cpu.keypress(0, true);
    cpu.keypress(15, true);
    assert_eq!(cpu.execute(0xF10A), Ok(()));
    assert_eq!((cpu.state.v_reg[1], cpu.state.pc), (0, 0x202));
    cpu.keypress(0, false);
    assert_eq!(cpu.execute(0xF10A), Ok(()));
    assert_eq!((cpu.state.v_reg[1], cpu.state.pc), (15, 0x202));
    cpu.keypress(15, false);
    assert_eq!(cpu.execute(0xF10A), Ok(()));
    assert_eq!((cpu.state.v_reg[1], cpu.state.pc), (15, 0x200));
}

#[test]
fn add_index_wraps_at_sixteen_bits() {
    let mut cpu = with_registers(&[(1, 2), (2, 0x10)]);
    cpu.state.i_reg = 0xFFFF;
    assert_eq!(cpu.execute(0xF11E), Ok(()));
    assert_eq!(cpu.state.i_reg, 1);
    assert_eq!(cpu.execute(0xF21E), Ok(()));
    assert_eq!(cpu.state.i_reg, 0x11);
    assert_eq!(cpu.state.v_reg[0xF], 0);
}

#[test]
fn glyph_address_is_five_times_the_value() {
    let mut cpu = with_registers(&[(1, 0xA), (2, 255), (3, 0)]);
    assert_eq!(cpu.execute(0xF129), Ok(()));
    assert_eq!(cpu.state.i_reg, 50);
    assert_eq!(cpu.execute(0xF229), Ok(()));
    assert_eq!(cpu.state.i_reg, 1275);
    assert_eq!(cpu.execute(0xF329), Ok(()));
    assert_eq!(cpu.state.i_reg, 0);
}

#[test]
fn decimal_digits_are_stored_hundreds_first() {
    let mut cpu = with_registers(&[(1, 254), (2, 7), (3, 90)]);
    cpu.state.i_reg = 0x300;
    assert_eq!(cpu.execute(0xF133), Ok(()));
    assert_eq!(&cpu.state.ram[0x300..0x303], &[2, 5, 4]);
    assert_eq!(cpu.execute(0xF233), Ok(()));
    assert_eq!(&cpu.state.ram[0x300..0x303], &[0, 0, 7]);
    assert_eq!(cpu.execute(0xF333), Ok(()));
    assert_eq!(&cpu.state.ram[0x300..0x303], &[0, 9, 0]);
    assert_eq!(cpu.state.ram[0x303], 0);
    assert_eq!(cpu.state.i_reg, 0x300);
}

#[test]
fn decimal_digits_at_the_end_of_memory() {
    let mut cpu = with_registers(&[(1, 123)]);
    cpu.state.i_reg = 4093;
    assert_eq!(cpu.execute(0xF133), Ok(()));
    assert_eq!(&cpu.state.ram[4093..4096], &[1, 2, 3]);
    for i in [4094u16, 4095, 4096, 0xFFFF] {
        let mut cpu = with_registers(&[(1, 123)]);
        cpu.state.i_reg = i;
        let mut before = with_registers(&[(1, 123)]);
        before.state.i_reg = i;
        assert_eq!(cpu.execute(0xF133), Err(Fault::MemoryOutOfRange));
        assert!(unchanged(&cpu.state, &before.state));
    }
}

#[test]
fn registers_are_stored_up_to_and_including_vx() {
    let mut cpu = with_registers(&[(0, 10), (1, 11), (2, 12), (3, 13)]);
    cpu.state.i_reg = 0x400;
    assert_eq!(cpu.execute(0xF255), Ok(()));
    assert_eq!(&cpu.state.ram[0x400..0x404], &[10, 11, 12, 0]);
    assert_eq!(cpu.state.i_reg, 0x400);
    let mut cpu = with_registers(&[(0, 10), (1, 11)]);
    cpu.state.i_reg = 0x400;
    assert_eq!(cpu.execute(0xF055), Ok(()));
    assert_eq!(&cpu.state.ram[0x400..0x402], &[10, 0]);
}

#[test]
fn registers_are_loaded_up_to_and_including_vx() {
    let mut cpu = with_registers(&[(3, 99)]);
    cpu.state.i_reg = 0x400;
    cpu.state.ram[0x400..0x404].copy_from_slice(&[1, 2, 3, 4]);
    assert_eq!(cpu.execute(0xF265), Ok(()));
    assert_eq!(&cpu.state.v_reg[0..4], &[1, 2, 3, 99]);
    assert_eq!(cpu.state.i_reg, 0x400);
}

#[test]
fn all_sixteen_registers_round_trip_through_memory() {
    let mut cpu = Cpu::new();
    for r in 0..16usize {
        cpu.state.v_reg[r] = 0xF0 + r as u8;
    }
    cpu.state.i_reg = 4080;
    assert_eq!(cpu.execute(0xFF55), Ok(()));
    cpu.state.v_reg = [0; 16];
    assert_eq!(cpu.execute(0xFF65), Ok(()));
    for r in 0..16usize {
        assert_eq!(cpu.state.v_reg[r], 0xF0 + r as u8);
        assert_eq!(cpu.state.ram[4080 + r], 0xF0 + r as u8);
    }
}

#[test]
fn register_store_and_load_past_memory_are_faults() {
    for op in [0xF355u16, 0xF365] {
        let mut cpu = with_registers(&[(0, 1), (1, 2), (2, 3), (3, 4)]);
        cpu.state.i_reg = 4093;
        let mut before = with_registers(&[(0, 1), (1, 2), (2, 3), (3, 4)]);
        before.state.i_reg = 4093;
        assert_eq!(cpu.execute(op), Err(Fault::MemoryOutOfRange));
        assert!(unchanged(&cpu.state, &before.state));
        cpu.state.i_reg = 4092;
        assert_eq!(cpu.execute(op), Ok(()));
    }
}

#[test]
fn unknown_words_change_nothing() {
    for op in [0x0000u16, 0x0123, 0x5121, 0x8128, 0x9121, 0xE100, 0xF1FF] {
        let mut cpu = with_registers(&[(1, 3), (2, 250)]);
        let before = with_registers(&[(1, 3), (2, 250)]);
        assert_eq!(cpu.execute(op), Ok(()));
        assert!(unchanged(&cpu.state, &before.state));
    }
}

#[test]
fn an_unknown_word_in_a_cycle_only_advances() {
    let mut cpu = Cpu::new();
    cpu.load_rom(&[0x51, 0x21, 0x60, 0x07]);
    assert_eq!(cpu.tick(), Ok(()));
    assert_eq!(cpu.state.pc, 0x202);
    assert_eq!(cpu.tick(), Ok(()));
    assert_eq!(cpu.state.v_reg[0], 7);
}

#[test]
fn clear_screen_darkens_every_cell() {
    let mut cpu = Cpu::new();
    cpu.state.i_reg = 0;
    assert_eq!(cpu.execute(0xD015), Ok(()));
    assert!(cpu.state.screen.iter().any(|c| *c == chip8::utils::Dstatus::On));
    assert_eq!(cpu.execute(0x00E0), Ok(()));
    assert!(cpu.state.screen.iter().all(|c| *c == chip8::utils::Dstatus::Off));
}

#[test]
fn apply_carries_out_a_decoded_instruction() {
    let mut cpu = with_registers(&[(1, 200), (2, 100)]);
    assert_eq!(cpu.apply(Instruction::AddReg { x: 1, y: 2 }, 0), Ok(()));
    assert_eq!((cpu.state.v_reg[1], cpu.state.v_reg[0xF]), (44, 1));
    assert_eq!(cpu.apply(Instruction::Random { x: 3, nn: 0x3C }, 0xFF), Ok(()));
    assert_eq!(cpu.state.v_reg[3], 0x3C);
    assert_eq!(cpu.apply(Instruction::Return, 0), Err(Fault::StackUnderflow));
    assert_eq!(cpu.apply(Instruction::Unknown, 0), Ok(()));
}

#[test]
fn a_fault_inside_a_cycle_keeps_the_program_counter_on_the_instruction() {
    let mut cpu = Cpu::new();
    cpu.load_rom(&[0x61, 0x20, 0xE1, 0x9E]);
    assert_eq!(cpu.tick(), Ok(()));
    assert_eq!(cpu.tick(), Err(Fault::KeyOutOfRange));
    assert_eq!(cpu.state.pc, 0x202);
    assert_eq!(cpu.tick(), Err(Fault::KeyOutOfRange));
    assert_eq!(cpu.state.pc, 0x202);
}

#[test]
fn a_cycle_with_a_given_byte_runs_a_random_instruction() {
    let mut cpu = Cpu::new();
    cpu.load_rom(&[0xC1, 0x0F, 0xC2, 0x33]);
    assert_eq!(cpu.tick_with(0xAB), Ok(()));
    assert_eq!(cpu.state.v_reg[1], 0x0B);
    assert_eq!(cpu.state.pc, 0x202);
    assert_eq!(cpu.tick(), Ok(()));
    assert_eq!(cpu.state.v_reg[2] & !0x33, 0);
    assert_eq!(cpu.state.pc, 0x204);
}
