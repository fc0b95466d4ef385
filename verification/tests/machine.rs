use chip8::cpu::{coords_to_index, index_to_coords, Chip8Error, CPU, GFX_COLS, ROM_SIZE};

#[test]
fn fresh_machine_state() {
    let cpu = CPU::new();
    assert_eq!(cpu.pc, 0x200);
    assert_eq!(cpu.sp, 0);
    assert_eq!(cpu.i, 0);
    assert!(cpu.regs.iter().all(|&r| r == 0));
    assert!(cpu.keys.iter().all(|&k| !k));
    assert!(cpu.gfx.iter().all(|&p| !p));
    assert_eq!(cpu.mem.len(), 4096);
    // Font table: glyph 0 begins at 0x50, glyph F ends at 0x9F.
    assert_eq!(cpu.mem[0x50], 0xF0);
    assert_eq!(cpu.mem[0x9F], 0x80);
    // Outside the font table the memory is zero.
    assert_eq!(cpu.mem[0x4F], 0);
    assert_eq!(cpu.mem[0xA0], 0);
    assert_eq!(cpu.mem[0x200], 0);
}

#[test]
fn coordinate_mapping_round_trip() {
    assert_eq!(coords_to_index(3, 2), 2 * GFX_COLS + 3);
    let (x, y) = index_to_coords((2 * GFX_COLS + 3) as u16);
    assert_eq!(x, 3);
    assert_eq!(y, 2);
}

#[test]
fn load_rom_places_program_at_0x200() {
    let mut cpu = CPU::new();
    let rom = vec![0x60, 0x2A, 0x12, 0x00];
    assert!(cpu.load_rom(&rom).is_ok());
    assert_eq!(cpu.mem[0x200], 0x60);
    assert_eq!(cpu.mem[0x201], 0x2A);
    assert_eq!(cpu.mem[0x202], 0x12);
    assert_eq!(cpu.mem[0x203], 0x00);
    assert_eq!(cpu.mem[0x204], 0); // the remainder stays zero
}

#[test]
fn load_rom_rejects_oversized_program() {
    let mut cpu = CPU::new();
    let rom = vec![0u8; ROM_SIZE + 1];
    assert_eq!(cpu.load_rom(&rom), Err(Chip8Error::LoadError));
    assert_eq!(cpu.mem[0x200], 0);
    let exact = vec![0x11u8; ROM_SIZE];
    assert!(cpu.load_rom(&exact).is_ok());
    assert_eq!(cpu.mem[0xFFF], 0x11);
}

#[test]
fn full_cycle_fetch_decode_execute() {
    let mut cpu = CPU::new();
    // 0x632A: set V3 to 0x2A.
    assert!(cpu.load_rom(&vec![0x63, 0x2A]).is_ok());
    assert!(cpu.perform_cycle().is_ok());
    assert_eq!(cpu.regs[3], 0x2A);
    assert_eq!(cpu.pc, 0x202);
    assert_eq!(cpu.opcode, 0x632A);
}

#[test]
fn call_return_round_trip() {
    let mut cpu = CPU::new();
    // At 0x200: call 0x300. At 0x300: return.
    let mut rom = vec![0u8; 0x102];
    rom[0] = 0x23; // 0x2300
    rom[1] = 0x00;
    rom[0x100] = 0x00; // 0x00EE at 0x300
    rom[0x101] = 0xEE;
    assert!(cpu.load_rom(&rom).is_ok());
    assert!(cpu.perform_cycle().is_ok());
    assert_eq!(cpu.pc, 0x300);
    assert_eq!(cpu.sp, 1);
    assert!(cpu.perform_cycle().is_ok());
    assert_eq!(cpu.pc, 0x202); // exactly the instruction after the call
    assert_eq!(cpu.sp, 0);
}

#[test]
fn return_with_empty_stack_is_memory_fault() {
    let mut cpu = CPU::new();
    cpu.opcode = 0x00EE;
    assert_eq!(cpu.subroutine_return(), Err(Chip8Error::MemoryFault));
}

#[test]
fn call_beyond_sixteen_levels_is_memory_fault() {
    let mut cpu = CPU::new();
    cpu.opcode = 0x2300;
    for _ in 0..16 {
        assert!(cpu.subroutine_call().is_ok());
    }
    assert_eq!(cpu.subroutine_call(), Err(Chip8Error::MemoryFault));
    assert_eq!(cpu.sp, 16);
}

#[test]
fn invalid_opcodes_are_reported() {
    for op in [0x8008u16, 0x800F, 0x5FF1, 0x9FFF, 0xE000, 0xF0FF] {
        let mut cpu = CPU::new();
        cpu.opcode = op;
        assert_eq!(cpu.execute(), Err(Chip8Error::InvalidOpcode), "op {op:#06X}");
    }
}

#[test]
fn fetch_past_end_of_memory_is_memory_fault() {
    let mut cpu = CPU::new();
    cpu.pc = 0xFFF;
    assert_eq!(cpu.perform_cycle(), Err(Chip8Error::MemoryFault));
    assert_eq!(cpu.pc, 0xFFF);
}

#[test]
fn draw_past_end_of_memory_is_memory_fault() {
    let mut cpu = CPU::new();
    cpu.i = 0xFFF;
    cpu.opcode = 0xD005; // five rows starting at 0xFFF
    assert_eq!(cpu.draw_sprite(), Err(Chip8Error::MemoryFault));
}

#[test]
fn bcd_past_end_of_memory_is_memory_fault() {
    let mut cpu = CPU::new();
    cpu.i = 0xFFE;
    cpu.opcode = 0xF033;
    assert_eq!(cpu.store_bcd(), Err(Chip8Error::MemoryFault));
    cpu.i = 0xFFD;
    assert!(cpu.store_bcd().is_ok());
}

#[test]
fn register_dump_past_end_of_memory_is_memory_fault() {
    let mut cpu = CPU::new();
    cpu.i = 0xFFD;
    cpu.opcode = 0xF355; // V0..=V3 needs four bytes
    assert_eq!(cpu.reg_dump(), Err(Chip8Error::MemoryFault));
    cpu.opcode = 0xF365;
    assert_eq!(cpu.reg_load(), Err(Chip8Error::MemoryFault));
}

#[test]
fn key_skip_with_out_of_range_index_is_memory_fault() {
    let mut cpu = CPU::new();
    cpu.regs[0] = 16;
    cpu.opcode = 0xE09E;
    assert_eq!(cpu.skip_if_key(), Err(Chip8Error::MemoryFault));
    cpu.opcode = 0xE0A1;
    assert_eq!(cpu.skip_if_not_key(), Err(Chip8Error::MemoryFault));
}

#[test]
fn sprite_draw_xors_and_reports_collision() {
    let mut cpu = CPU::new();
    cpu.mem[0x600] = 0b1111_0000;
    cpu.i = 0x600;
    cpu.regs[0] = 0;
    cpu.regs[1] = 0;
    cpu.opcode = 0xD011; // one row at (0, 0)
    assert!(cpu.draw_sprite().is_ok());
    assert!(cpu.gfx[0] && cpu.gfx[1] && cpu.gfx[2] && cpu.gfx[3]);
    assert!(!cpu.gfx[4]);
    assert_eq!(cpu.regs[15], 0); // nothing was lit before

    // Drawing the same sprite again erases it and reports the collision.
    assert!(cpu.draw_sprite().is_ok());
    assert!(!cpu.gfx[0] && !cpu.gfx[1] && !cpu.gfx[2] && !cpu.gfx[3]);
    assert_eq!(cpu.regs[15], 1);
}

#[test]
fn sprite_wraps_around_right_edge() {
    let mut cpu = CPU::new();
    cpu.mem[0x600] = 0xFF; // all eight pixels of the row
    cpu.i = 0x600;
    cpu.regs[0] = 60; // origin x = 60 on a 64-column grid
    cpu.regs[1] = 0;
    cpu.opcode = 0xD011;
    assert!(cpu.draw_sprite().is_ok());
    for col in [60usize, 61, 62, 63, 0, 1, 2, 3] {
        assert!(cpu.gfx[col], "column {col} should be lit");
    }
    for col in [4usize, 5, 59] {
        assert!(!cpu.gfx[col], "column {col} should be dark");
    }
}

#[test]
fn sprite_wraps_around_bottom_edge() {
    let mut cpu = CPU::new();
    cpu.mem[0x600] = 0x80;
    cpu.mem[0x601] = 0x80;
    cpu.i = 0x600;
    cpu.regs[0] = 0;
    cpu.regs[1] = 31; // last row; the second sprite row wraps to row 0
    cpu.opcode = 0xD012;
    assert!(cpu.draw_sprite().is_ok());
    assert!(cpu.gfx[31 * 64]);
    assert!(cpu.gfx[0]);
}

#[test]
fn sprite_origin_reduces_modulo_grid() {
    let mut cpu = CPU::new();
    cpu.mem[0x600] = 0x80;
    cpu.i = 0x600;
    cpu.regs[0] = 68; // 68 mod 64 == 4
    cpu.regs[1] = 33; // 33 mod 32 == 1
    cpu.opcode = 0xD011;
    assert!(cpu.draw_sprite().is_ok());
    assert!(cpu.gfx[1 * 64 + 4]);
}

#[test]
fn clear_screen_unsets_every_pixel() {
    let mut cpu = CPU::new();
    cpu.mem[0x600] = 0xFF;
    cpu.i = 0x600;
    cpu.opcode = 0xD011;
    assert!(cpu.draw_sprite().is_ok());
    assert!(cpu.gfx.iter().any(|&p| p));
    cpu.clear_screen();
    assert!(cpu.gfx.iter().all(|&p| !p));
}

#[test]
fn key_skips_follow_key_state() {
    let mut cpu = CPU::new();
    cpu.regs[0] = 0x5;
    cpu.set_key(0x5, true);
    cpu.opcode = 0xE09E;
    assert!(cpu.skip_if_key().is_ok());
    assert_eq!(cpu.pc, 0x202);
    cpu.opcode = 0xE0A1;
    assert!(cpu.skip_if_not_key().is_ok());
    assert_eq!(cpu.pc, 0x202); // key held, no skip
    cpu.set_key(0x5, false);
    assert!(cpu.skip_if_not_key().is_ok());
    assert_eq!(cpu.pc, 0x204);
}

#[test]
fn key_wait_stalls_then_advances() {
    let mut cpu = CPU::new();
    // 0xF50A: wait for a key, store it in V5.
    assert!(cpu.load_rom(&vec![0xF5, 0x0A]).is_ok());
    for _ in 0..3 {
        assert!(cpu.perform_cycle().is_ok());
        assert_eq!(cpu.pc, 0x200); // no key: the instruction repeats
    }
    cpu.set_key(0xB, true);
    assert!(cpu.perform_cycle().is_ok());
    assert_eq!(cpu.pc, 0x202); // the very next cycle advances
    assert_eq!(cpu.regs[5], 0xB);
    assert!(cpu.ignore_keypress);
}

#[test]
fn key_wait_stores_lowest_pressed_key() {
    let mut cpu = CPU::new();
    cpu.opcode = 0xF20A;
    cpu.pc = 0x202;
    cpu.set_key(0x9, true);
    cpu.set_key(0x4, true);
    cpu.get_key();
    assert_eq!(cpu.regs[2], 0x4);
    assert_eq!(cpu.pc, 0x202);
}

#[test]
fn key_wait_is_edge_triggered() {
    let mut cpu = CPU::new();
    assert!(cpu.load_rom(&vec![0xF5, 0x0A, 0xF6, 0x0A]).is_ok());
    cpu.set_key(0x1, true);
    assert!(cpu.perform_cycle().is_ok());
    assert_eq!(cpu.regs[5], 0x1);
    assert_eq!(cpu.pc, 0x202);
    // The key stays held: the second wait must not consume it again.
    assert!(cpu.perform_cycle().is_ok());
    assert_eq!(cpu.pc, 0x202);
    assert_eq!(cpu.regs[6], 0);
    // The driver reports the release, clearing the latch; a new press
    // satisfies the wait.
    cpu.ignore_keypress = false;
    cpu.set_key(0x1, false);
    cpu.set_key(0x2, true);
    assert!(cpu.perform_cycle().is_ok());
    assert_eq!(cpu.pc, 0x204);
    assert_eq!(cpu.regs[6], 0x2);
}

#[test]
fn timers_decrement_and_saturate() {
    let mut cpu = CPU::new();
    cpu.delay_timer = 2;
    cpu.sound_timer = 1;
    cpu.update_timers();
    assert_eq!(cpu.delay_timer, 1);
    assert_eq!(cpu.sound_timer, 0);
    cpu.update_timers();
    assert_eq!(cpu.delay_timer, 0);
    assert_eq!(cpu.sound_timer, 0);
    for _ in 0..5 {
        cpu.update_timers();
        assert_eq!(cpu.delay_timer, 0); // never wraps to 255
        assert_eq!(cpu.sound_timer, 0);
    }
}

#[test]
fn sound_signal_follows_sound_timer() {
    let mut cpu = CPU::new();
    assert!(!cpu.should_play_sound());
    cpu.sound_timer = 3;
    assert!(cpu.should_play_sound());
    cpu.update_timers();
    cpu.update_timers();
    cpu.update_timers();
    assert!(!cpu.should_play_sound());
}

#[test]
fn just_drew_reports_draw_instructions_only() {
    let mut cpu = CPU::new();
    assert!(cpu.load_rom(&vec![0xD0, 0x11, 0x63, 0x2A]).is_ok());
    assert!(cpu.perform_cycle().is_ok());
    assert!(cpu.just_drew());
    assert!(cpu.perform_cycle().is_ok());
    assert!(!cpu.just_drew());
}

#[test]
fn display_snapshot_matches_buffer() {
    let mut cpu = CPU::new();
    cpu.mem[0x600] = 0x80;
    cpu.i = 0x600;
    cpu.opcode = 0xD011;
    assert!(cpu.draw_sprite().is_ok());
    let gfx = cpu.get_gfx();
    assert_eq!(gfx.len(), 64 * 32);
    assert!(gfx[0]);
    assert!(!gfx[1]);
}

#[test]
fn legacy_zero_family_jumps() {
    let mut cpu = CPU::new();
    cpu.opcode = 0x0123; // neither clear nor return: a legacy jump
    assert!(cpu.execute().is_ok());
    assert_eq!(cpu.pc, 0x123);
}
