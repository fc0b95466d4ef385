use chip8::cpu::CPU;

#[test]
fn immediate_set_all_values() {
    // Every immediate lands in the register unchanged.
    for nn in 0..=255u16 {
        let mut cpu = CPU::new();
        cpu.opcode = 0x6300 | nn;
        cpu.set_immediate();
        assert_eq!(cpu.regs[3], nn as u8);
    }
}

#[test]
fn add_immediate_wraps_without_flag() {
    let mut cpu = CPU::new();
    cpu.regs[4] = 0xFF;
    cpu.regs[15] = 0x77;
    cpu.opcode = 0x7402; // V4 += 0x02
    cpu.add_immediate();
    assert_eq!(cpu.regs[4], 0x01);
    assert_eq!(cpu.regs[15], 0x77); // VF untouched by immediate add
}

#[test]
fn register_add_sets_carry() {
    let mut cpu = CPU::new();
    cpu.regs[0] = 0xFF;
    cpu.regs[1] = 0x02;
    cpu.opcode = 0x8014; // V0 += V1
    cpu.add();
    assert_eq!(cpu.regs[0], 0x01);
    assert_eq!(cpu.regs[15], 1);
}

#[test]
fn register_add_clears_carry() {
    let mut cpu = CPU::new();
    cpu.regs[0] = 0x01;
    cpu.regs[1] = 0x02;
    cpu.regs[15] = 1;
    cpu.opcode = 0x8014;
    cpu.add();
    assert_eq!(cpu.regs[0], 0x03);
    assert_eq!(cpu.regs[15], 0);
}

#[test]
fn subtraction_without_borrow() {
    let mut cpu = CPU::new();
    cpu.regs[0] = 0x05;
    cpu.regs[1] = 0x03;
    cpu.opcode = 0x8015; // V0 -= V1
    cpu.sub_xy();
    assert_eq!(cpu.regs[0], 0x02);
    assert_eq!(cpu.regs[15], 1); // no borrow
}

#[test]
fn subtraction_with_borrow() {
    let mut cpu = CPU::new();
    cpu.regs[0] = 0x03;
    cpu.regs[1] = 0x05;
    cpu.opcode = 0x8015;
    cpu.sub_xy();
    assert_eq!(cpu.regs[0], 0xFE);
    assert_eq!(cpu.regs[15], 0); // borrow occurred
}

#[test]
fn reverse_subtraction_mirrors_operands() {
    let mut cpu = CPU::new();
    cpu.regs[0] = 0x03;
    cpu.regs[1] = 0x05;
    cpu.opcode = 0x8017; // V0 = V1 - V0
    cpu.sub_yx();
    assert_eq!(cpu.regs[0], 0x02);
    assert_eq!(cpu.regs[15], 1);

    let mut cpu = CPU::new();
    cpu.regs[0] = 0x05;
    cpu.regs[1] = 0x03;
    cpu.opcode = 0x8017;
    cpu.sub_yx();
    assert_eq!(cpu.regs[0], 0xFE);
    assert_eq!(cpu.regs[15], 0);
}

#[test]
fn bitwise_ops() {
    let mut cpu = CPU::new();
    cpu.regs[0] = 0b1100;
    cpu.regs[1] = 0b1010;
    cpu.opcode = 0x8011;
    cpu.or();
    assert_eq!(cpu.regs[0], 0b1110);

    cpu.regs[0] = 0b1100;
    cpu.opcode = 0x8012;
    cpu.and();
    assert_eq!(cpu.regs[0], 0b1000);

    cpu.regs[0] = 0b1100;
    cpu.opcode = 0x8013;
    cpu.xor();
    assert_eq!(cpu.regs[0], 0b0110);

    cpu.regs[0] = 0x00;
    cpu.opcode = 0x8010;
    cpu.set();
    assert_eq!(cpu.regs[0], 0b1010);
}

#[test]
fn right_shift_captures_low_bit() {
    let mut cpu = CPU::new();
    cpu.regs[2] = 0x05;
    cpu.opcode = 0x8206;
    cpu.right_shift();
    assert_eq!(cpu.regs[2], 0x02);
    assert_eq!(cpu.regs[15], 1);

    cpu.regs[2] = 0x04;
    cpu.opcode = 0x8206;
    cpu.right_shift();
    assert_eq!(cpu.regs[2], 0x02);
    assert_eq!(cpu.regs[15], 0);
}

#[test]
fn left_shift_captures_high_bit() {
    let mut cpu = CPU::new();
    cpu.regs[2] = 0x81;
    cpu.opcode = 0x820E;
    cpu.left_shift();
    assert_eq!(cpu.regs[2], 0x02);
    assert_eq!(cpu.regs[15], 1);

    cpu.regs[2] = 0x41;
    cpu.opcode = 0x820E;
    cpu.left_shift();
    assert_eq!(cpu.regs[2], 0x82);
    assert_eq!(cpu.regs[15], 0);
}

#[test]
fn conditional_skips() {
    let mut cpu = CPU::new();
    cpu.regs[1] = 0x42;
    cpu.opcode = 0x3142; // skip if V1 == 0x42
    cpu.skip_if();
    assert_eq!(cpu.pc, 0x202);
    cpu.opcode = 0x3141;
    cpu.skip_if();
    assert_eq!(cpu.pc, 0x202); // condition false, no skip

    cpu.opcode = 0x4141; // skip if V1 != 0x41
    cpu.skip_if_not();
    assert_eq!(cpu.pc, 0x204);

    cpu.regs[2] = 0x42;
    cpu.opcode = 0x5120; // skip if V1 == V2
    cpu.skip_if_xy_eq();
    assert_eq!(cpu.pc, 0x206);

    cpu.regs[2] = 0x43;
    cpu.opcode = 0x9120; // skip if V1 != V2
    cpu.skip_if_xy_neq();
    assert_eq!(cpu.pc, 0x208);
}

#[test]
fn jump_and_jump_offset() {
    let mut cpu = CPU::new();
    cpu.opcode = 0x1ABC;
    cpu.jump();
    assert_eq!(cpu.pc, 0x0ABC);

    cpu.regs[0] = 0x10;
    cpu.opcode = 0xB200;
    cpu.jump_offset();
    assert_eq!(cpu.pc, 0x0210);
}

#[test]
fn index_register_ops() {
    let mut cpu = CPU::new();
    cpu.opcode = 0xA123;
    cpu.set_i_immediate();
    assert_eq!(cpu.i, 0x123);

    cpu.regs[6] = 0x10;
    cpu.opcode = 0xF61E;
    cpu.add_i();
    assert_eq!(cpu.i, 0x133);

    // 16-bit wraparound of the index register
    cpu.i = 0xFFFF;
    cpu.regs[6] = 0x02;
    cpu.add_i();
    assert_eq!(cpu.i, 0x0001);
}

#[test]
fn timers_transfer_through_registers() {
    let mut cpu = CPU::new();
    cpu.regs[3] = 42;
    cpu.opcode = 0xF315;
    cpu.set_delay();
    assert_eq!(cpu.delay_timer, 42);

    cpu.opcode = 0xF418;
    cpu.regs[4] = 9;
    cpu.set_sound();
    assert_eq!(cpu.sound_timer, 9);

    cpu.opcode = 0xF507;
    cpu.get_delay();
    assert_eq!(cpu.regs[5], 42);
}

#[test]
fn bcd_decomposition() {
    let mut cpu = CPU::new();
    cpu.regs[7] = 157;
    cpu.i = 0x400;
    cpu.opcode = 0xF733;
    assert!(cpu.store_bcd().is_ok());
    assert_eq!(cpu.mem[0x400], 1);
    assert_eq!(cpu.mem[0x401], 5);
    assert_eq!(cpu.mem[0x402], 7);
}

#[test]
fn bcd_single_digit() {
    let mut cpu = CPU::new();
    cpu.regs[7] = 8;
    cpu.i = 0x400;
    cpu.opcode = 0xF733;
    assert!(cpu.store_bcd().is_ok());
    assert_eq!(cpu.mem[0x400], 0);
    assert_eq!(cpu.mem[0x401], 0);
    assert_eq!(cpu.mem[0x402], 8);
}

#[test]
fn register_dump_and_load() {
    let mut cpu = CPU::new();
    for k in 0..4 {
        cpu.regs[k] = (10 + k) as u8;
    }
    cpu.i = 0x500;
    cpu.opcode = 0xF355; // dump V0..=V3
    assert!(cpu.reg_dump().is_ok());
    assert_eq!(cpu.mem[0x500], 10);
    assert_eq!(cpu.mem[0x501], 11);
    assert_eq!(cpu.mem[0x502], 12);
    assert_eq!(cpu.mem[0x503], 13);
    assert_eq!(cpu.mem[0x504], 0); // one past the dump is untouched

    let mut cpu2 = CPU::new();
    cpu2.mem[0x500] = 20;
    cpu2.mem[0x501] = 21;
    cpu2.mem[0x502] = 22;
    cpu2.i = 0x500;
    cpu2.opcode = 0xF265; // load V0..=V2
    assert!(cpu2.reg_load().is_ok());
    assert_eq!(cpu2.regs[0], 20);
    assert_eq!(cpu2.regs[1], 21);
    assert_eq!(cpu2.regs[2], 22);
    assert_eq!(cpu2.regs[3], 0); // registers past X keep their value
}

#[test]
fn character_lookup_points_into_font() {
    let mut cpu = CPU::new();
    cpu.regs[0] = 0xA;
    cpu.opcode = 0xF029;
    cpu.get_char();
    assert_eq!(cpu.i, 0x50 + 5 * 0xA);
    // The glyph for a hex digit starts with its first row byte.
    assert_eq!(cpu.mem[cpu.i as usize], 0xF0);
}

#[test]
fn masked_random_byte() {
    let mut cpu = CPU::new();
    cpu.regs[3] = 0xAA;
    cpu.opcode = 0xC300; // mask 0x00: every draw collapses to zero
    cpu.set_rand();
    assert_eq!(cpu.regs[3], 0);

    cpu.opcode = 0xC30F; // mask 0x0F: only the low nibble survives
    cpu.set_rand();
    assert!(cpu.regs[3] < 16);
}
