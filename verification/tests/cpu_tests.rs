use gbcore::cartridge::Cartridge;
use gbcore::cpu::CPU;

/// The header checksum formula.
fn checksum_of(rom: &[u8]) -> u8 {
    let mut acc: u8 = 0;
    for i in 0x134..0x14d {
        acc = acc.wrapping_sub(rom[i]).wrapping_sub(1);
    }
    acc
}

/// A processor over a minimal 32 KiB ROM-only image whose bytes from
/// the reset vector on are `program`.
fn cpu_with_program(program: &[u8]) -> CPU {
    let mut rom = vec![0u8; 0x8000];
    rom[0x100..0x100 + program.len()].copy_from_slice(program);
    let cs = checksum_of(&rom);
    rom[0x14d] = cs;
    CPU::new(Cartridge::new(rom).unwrap())
}

fn a_of(cpu: &CPU) -> u8 {
    (cpu.af() >> 8) as u8
}

#[test]
fn add_carry_and_half_carry_exhaustive() {
    let mut cpu = cpu_with_program(&[]);
    for a in 0u16..256 {
        for b in 0u16..256 {
            cpu.set_af(a << 8);
            cpu.set_bc(b << 8);
            cpu.add_r8(0);
            let sum = a + b;
            assert_eq!(a_of(&cpu) as u16, sum & 0xff);
            assert_eq!(cpu.f_c(), sum > 255);
            assert_eq!(cpu.f_h(), (a & 0xf) + (b & 0xf) > 0xf);
            assert_eq!(cpu.f_z(), sum & 0xff == 0);
            assert!(!cpu.f_n());
            assert_eq!(cpu.af() & 0x0f, 0);
        }
    }
}

#[test]
fn sub_carry_and_half_carry_exhaustive() {
    let mut cpu = cpu_with_program(&[]);
    for a in 0u16..256 {
        for b in 0u16..256 {
            cpu.set_af(a << 8);
            cpu.set_bc(b << 8);
            cpu.sub_r8(0);
            assert_eq!(a_of(&cpu), (a as u8).wrapping_sub(b as u8));
            assert_eq!(cpu.f_c(), a < b);
            assert_eq!(cpu.f_h(), (a & 0xf) < (b & 0xf));
            assert_eq!(cpu.f_z(), a == b);
            assert!(cpu.f_n());
            assert_eq!(cpu.af() & 0x0f, 0);
        }
    }
}

#[test]
fn flags_low_nibble_stays_zero() {
    let mut cpu = cpu_with_program(&[]);
    // Even a write of all-ones through the pair leaves the low nibble
    // of the flags register zero.
    cpu.set_af(0xffff);
    assert_eq!(cpu.af() & 0x000f, 0);
    cpu.set_bc(0x3700);
    cpu.adc_r8(0);
    assert_eq!(cpu.af() & 0x000f, 0);
    cpu.daa();
    assert_eq!(cpu.af() & 0x000f, 0);
    cpu.rlc(7);
    assert_eq!(cpu.af() & 0x000f, 0);
    cpu.ccf();
    assert_eq!(cpu.af() & 0x000f, 0);
}

#[test]
fn daa_adjusted_zero_is_idempotent() {
    let mut cpu = cpu_with_program(&[]);
    cpu.set_af(0x0000);
    cpu.daa();
    assert_eq!(a_of(&cpu), 0x00);
    assert!(cpu.f_z());
    assert!(!cpu.f_c());
    assert!(!cpu.f_h());
    // Adjusting again changes nothing.
    cpu.daa();
    assert_eq!(a_of(&cpu), 0x00);
    assert!(cpu.f_z());
}

#[test]
fn daa_corrects_bcd_addition() {
    let mut cpu = cpu_with_program(&[]);
    // 0x15 + 0x27 = 0x3c; the decimal adjust turns it into 0x42.
    cpu.set_af(0x1500);
    cpu.set_bc(0x2700);
    cpu.add_r8(0);
    cpu.daa();
    assert_eq!(a_of(&cpu), 0x42);
    assert!(!cpu.f_c());
    // 0x99 + 0x01: the adjusted sum is 1.00 and the carry latches.
    cpu.set_af(0x9900);
    cpu.set_bc(0x0100);
    cpu.add_r8(0);
    cpu.daa();
    assert_eq!(a_of(&cpu), 0x00);
    assert!(cpu.f_c());
    assert!(cpu.f_z());
}

#[test]
fn adc_and_sbc_chain_the_carry() {
    let mut cpu = cpu_with_program(&[]);
    cpu.set_af(0x1000);
    cpu.set_bc(0x2000);
    cpu.set_f_c(true);
    cpu.adc_r8(0);
    assert_eq!(a_of(&cpu), 0x31);
    cpu.set_af(0x1000);
    cpu.set_f_c(true);
    cpu.sbc_r8(0);
    assert_eq!(a_of(&cpu), 0x10u8.wrapping_sub(0x21));
    assert!(cpu.f_c());
}

#[test]
fn rotates_move_the_edge_bit_into_carry() {
    let mut cpu = cpu_with_program(&[]);
    cpu.set_af(0x8500);
    cpu.rlc(7);
    assert_eq!(a_of(&cpu), 0x0b);
    assert!(cpu.f_c());
    cpu.set_af(0x8500);
    cpu.set_f_c(false);
    cpu.rl(7);
    assert_eq!(a_of(&cpu), 0x0a);
    assert!(cpu.f_c());
    cpu.set_af(0x0100);
    cpu.rrc(7);
    assert_eq!(a_of(&cpu), 0x80);
    assert!(cpu.f_c());
    cpu.set_af(0x0100);
    cpu.set_f_c(false);
    cpu.rr(7);
    assert_eq!(a_of(&cpu), 0x00);
    assert!(cpu.f_c());
    assert!(cpu.f_z());
    // The accumulator short form forces zero off.
    cpu.set_af(0x8000);
    cpu.rlca();
    assert_eq!(a_of(&cpu), 0x01);
    assert!(!cpu.f_z());
    cpu.set_af(0x0000);
    cpu.rlca();
    assert_eq!(a_of(&cpu), 0x00);
    assert!(!cpu.f_z());
}

#[test]
fn shifts_and_swap() {
    let mut cpu = cpu_with_program(&[]);
    cpu.set_af(0x8100);
    cpu.sla(7);
    assert_eq!(a_of(&cpu), 0x02);
    assert!(cpu.f_c());
    cpu.set_af(0x8100);
    cpu.sra(7);
    assert_eq!(a_of(&cpu), 0xc0);
    assert!(cpu.f_c());
    cpu.set_af(0x8100);
    cpu.srl(7);
    assert_eq!(a_of(&cpu), 0x40);
    assert!(cpu.f_c());
    cpu.set_af(0xa500);
    cpu.swap(7);
    assert_eq!(a_of(&cpu), 0x5a);
    assert!(!cpu.f_c());
}

#[test]
fn bit_set_res() {
    let mut cpu = cpu_with_program(&[]);
    cpu.set_bc(0x0400);
    cpu.bit(2, 0);
    assert!(!cpu.f_z());
    cpu.bit(3, 0);
    assert!(cpu.f_z());
    cpu.set(7, 0);
    assert_eq!(cpu.bc() >> 8, 0x84);
    cpu.res(2, 0);
    assert_eq!(cpu.bc() >> 8, 0x80);
}

#[test]
fn inc_dec_keep_carry() {
    let mut cpu = cpu_with_program(&[]);
    cpu.set_f_c(true);
    cpu.set_bc(0x0f00);
    cpu.inc_r8(0);
    assert_eq!(cpu.bc() >> 8, 0x10);
    assert!(cpu.f_h());
    assert!(cpu.f_c());
    cpu.set_bc(0x1000);
    cpu.dec_r8(0);
    assert_eq!(cpu.bc() >> 8, 0x0f);
    assert!(cpu.f_h());
    assert!(cpu.f_n());
    assert!(cpu.f_c());
}

#[test]
fn add_hl_r16_half_carry_out_of_bit_11() {
    let mut cpu = cpu_with_program(&[]);
    cpu.set_hl(0x0fff);
    cpu.set_bc(0x0001);
    cpu.add_hl_r16(0);
    assert_eq!(cpu.hl(), 0x1000);
    assert!(cpu.f_h());
    assert!(!cpu.f_c());
    cpu.set_hl(0xffff);
    cpu.set_bc(0x0001);
    cpu.add_hl_r16(0);
    assert_eq!(cpu.hl(), 0x0000);
    assert!(cpu.f_h());
    assert!(cpu.f_c());
}

#[test]
fn add_sp_signed_offset_flags_on_low_byte() {
    let mut cpu = cpu_with_program(&[0xe8, 0x01]); // ADD SP, +1
    cpu.write_r16(3, 0x00ff);
    let t = cpu.step();
    assert_eq!(cpu.sp(), 0x0100);
    assert!(cpu.f_c());
    assert!(cpu.f_h());
    assert!(!cpu.f_z());
    assert_eq!(t, 16);
}

#[test]
fn nop_step_advances_pc_by_one() {
    let mut cpu = cpu_with_program(&[0x00]);
    assert_eq!(cpu.pc(), 0x100);
    let t = cpu.step();
    assert_eq!(cpu.pc(), 0x101);
    assert_eq!(t, 4);
}

#[test]
fn ld_r16_d16_program() {
    let mut cpu = cpu_with_program(&[0x01, 0x34, 0x12]); // LD BC, 0x1234
    let t = cpu.step();
    assert_eq!(cpu.bc(), 0x1234);
    assert_eq!(cpu.pc(), 0x103);
    assert_eq!(t, 12);
}

#[test]
fn ld_r8_d8_and_alu_program() {
    // LD A, 0x0f; ADD A, 0x01
    let mut cpu = cpu_with_program(&[0x3e, 0x0f, 0xc6, 0x01]);
    let t1 = cpu.step();
    assert_eq!(t1, 8);
    assert_eq!(a_of(&cpu), 0x0f);
    let t2 = cpu.step();
    assert_eq!(t2, 8);
    assert_eq!(a_of(&cpu), 0x10);
    assert!(cpu.f_h());
}

#[test]
fn jp_and_jr_program() {
    let mut cpu = cpu_with_program(&[0xc3, 0x50, 0x01]); // JP 0x0150
    let t = cpu.step();
    assert_eq!(cpu.pc(), 0x0150);
    assert_eq!(t, 16);

    // JR -2 loops back onto itself.
    let mut cpu2 = cpu_with_program(&[0x18, 0xfe]);
    let t2 = cpu2.step();
    assert_eq!(cpu2.pc(), 0x100);
    assert_eq!(t2, 12);

    // A failed condition falls through at the shorter cost.
    let mut cpu3 = cpu_with_program(&[0x38, 0x10]); // JR C, +0x10
    let t3 = cpu3.step();
    assert_eq!(cpu3.pc(), 0x102);
    assert_eq!(t3, 8);
}

#[test]
fn call_and_ret_program() {
    // CALL 0x0110; at 0x0110: RET.
    let mut program = vec![0xcd, 0x10, 0x01];
    program.resize(0x10, 0x00);
    program.push(0xc9); // 0x110: RET
    let mut cpu = cpu_with_program(&program);
    cpu.write_r16(3, 0xd000); // stack in working RAM
    let t1 = cpu.step();
    assert_eq!(t1, 24);
    assert_eq!(cpu.pc(), 0x0110);
    assert_eq!(cpu.sp(), 0xcffe);
    // The pushed return address sits below the old stack pointer.
    assert_eq!(cpu.mmu.read(0xcffe), 0x03);
    assert_eq!(cpu.mmu.read(0xcfff), 0x01);
    let t2 = cpu.step();
    assert_eq!(t2, 16);
    assert_eq!(cpu.pc(), 0x0103);
    assert_eq!(cpu.sp(), 0xd000);
}

#[test]
fn push_pop_round_trip() {
    let mut cpu = cpu_with_program(&[]);
    cpu.write_r16(3, 0xd000);
    cpu.set_bc(0xbeef);
    cpu.push_bc();
    cpu.pop_hl();
    assert_eq!(cpu.hl(), 0xbeef);
    assert_eq!(cpu.sp(), 0xd000);
}

#[test]
fn pop_af_masks_the_low_nibble() {
    let mut cpu = cpu_with_program(&[]);
    cpu.write_r16(3, 0xd000);
    cpu.set_bc(0x12ff);
    cpu.push_bc();
    cpu.pop_af();
    assert_eq!(cpu.af(), 0x12f0);
}

#[test]
fn halt_idles_at_fixed_cost() {
    let mut cpu = cpu_with_program(&[0x76]); // HALT
    let t1 = cpu.step();
    assert_eq!(t1, 4);
    assert!(cpu.halted());
    let pc = cpu.pc();
    let t2 = cpu.step();
    assert_eq!(t2, 4);
    assert_eq!(cpu.pc(), pc);
    assert!(cpu.halted());
}

#[test]
fn unassigned_opcode_is_a_one_byte_no_effect() {
    let mut cpu = cpu_with_program(&[0xd3]); // no assigned handler
    let t = cpu.step();
    assert_eq!(cpu.pc(), 0x101);
    assert_eq!(t, 4);
}

#[test]
fn interrupt_priority_serves_the_lowest_bit() {
    // EI, then NOPs; both interrupt sources 0 and 1 requested and
    // enabled: the dispatch after EI must serve bit 0 only.
    let mut cpu = cpu_with_program(&[0xfb, 0x00, 0x00]);
    cpu.write_r16(3, 0xd000);
    cpu.mmu.write(0xffff, 0b0000_0011);
    cpu.mmu.write(0xff0f, 0b0000_0011);
    let t = cpu.step();
    assert_eq!(cpu.pc(), 0x40);
    assert_eq!(cpu.mmu.read(0xff0f), 0b0000_0010);
    assert!(!cpu.ime());
    assert_eq!(t, 4 + 20);
    // The return address (the byte after EI) was pushed.
    assert_eq!(cpu.sp(), 0xcffe);
    assert_eq!(cpu.mmu.read(0xcffe), 0x01);
    assert_eq!(cpu.mmu.read(0xcfff), 0x01);
}

#[test]
fn interrupt_wakes_a_halted_processor() {
    // EI; HALT; the timer source (bit 2) fires and wakes the core.
    let mut cpu = cpu_with_program(&[0xfb, 0x76]);
    cpu.write_r16(3, 0xd000);
    cpu.mmu.write(0xffff, 0b0000_0100);
    cpu.step(); // EI (nothing pending yet)
    cpu.step(); // HALT
    assert!(cpu.halted());
    cpu.mmu.write(0xff0f, 0b0000_0100);
    let t = cpu.step();
    assert!(!cpu.halted());
    assert_eq!(cpu.pc(), 0x50);
    assert_eq!(cpu.mmu.read(0xff0f), 0);
    assert_eq!(t, 4 + 20);
}

#[test]
fn di_blocks_dispatch() {
    let mut cpu = cpu_with_program(&[0xf3, 0x00]); // DI; NOP
    cpu.write_r16(3, 0xd000);
    cpu.mmu.write(0xffff, 1);
    cpu.mmu.write(0xff0f, 1);
    cpu.step();
    cpu.step();
    assert_eq!(cpu.pc(), 0x102);
    assert_eq!(cpu.mmu.read(0xff0f), 1);
}

#[test]
fn prefixed_opcodes_dispatch_through_the_second_table() {
    // CB 0x37: SWAP A. CB 0x47: BIT 0, A.
    let mut cpu = cpu_with_program(&[0xcb, 0x37, 0xcb, 0x47]);
    cpu.set_af(0xa500);
    let t = cpu.step();
    assert_eq!(t, 8);
    assert_eq!(a_of(&cpu), 0x5a);
    cpu.step();
    assert!(cpu.f_z()); // bit 0 of 0x5a is clear
}

#[test]
fn ld_r8_r8_block_moves_registers() {
    let mut cpu = cpu_with_program(&[0x41]); // LD B, C
    cpu.set_bc(0x00aa);
    let t = cpu.step();
    assert_eq!(t, 4);
    assert_eq!(cpu.bc(), 0xaaaa);
}

#[test]
fn ld_through_hl_costs_a_memory_access() {
    let mut cpu = cpu_with_program(&[0x36, 0x5a, 0x7e]); // LD (HL), 0x5a; LD A, (HL)
    cpu.set_hl(0xc123);
    let t1 = cpu.step();
    assert_eq!(t1, 12);
    assert_eq!(cpu.mmu.read(0xc123), 0x5a);
    let t2 = cpu.step();
    assert_eq!(t2, 8);
    assert_eq!(a_of(&cpu), 0x5a);
}

#[test]
fn ldi_ldd_move_the_pointer() {
    let mut cpu = cpu_with_program(&[0x22, 0x3a]); // LD (HL+), A; LD A, (HL-)
    cpu.set_af(0x7700);
    cpu.set_hl(0xc000);
    cpu.step();
    assert_eq!(cpu.hl(), 0xc001);
    assert_eq!(cpu.mmu.read(0xc000), 0x77);
    cpu.step();
    assert_eq!(cpu.hl(), 0xc000);
}

#[test]
fn io_page_loads() {
    let mut cpu = cpu_with_program(&[0xe0, 0x80, 0xf0, 0x80]); // LD (0xff80), A; LD A, (0xff80)
    cpu.set_af(0x4200);
    cpu.step();
    assert_eq!(cpu.mmu.read(0xff80), 0x42);
    cpu.set_af(0x0000);
    cpu.step();
    assert_eq!(a_of(&cpu), 0x42);
}

#[test]
fn rst_vectors_to_a_fixed_address() {
    let mut cpu = cpu_with_program(&[0xef]); // RST 0x28
    cpu.write_r16(3, 0xd000);
    let t = cpu.step();
    assert_eq!(cpu.pc(), 0x28);
    assert_eq!(t, 16);
}

#[test]
fn ret_cc_costs_depend_on_the_condition() {
    // RET NZ with the zero flag set: not taken.
    let mut cpu = cpu_with_program(&[0xc0]);
    cpu.set_f_z(true);
    let t = cpu.step();
    assert_eq!(t, 8);
    assert_eq!(cpu.pc(), 0x101);
}

#[test]
fn jp_hl_costs_no_extra_quantum() {
    let mut cpu = cpu_with_program(&[0xe9]);
    cpu.set_hl(0x0234);
    let t = cpu.step();
    assert_eq!(cpu.pc(), 0x0234);
    assert_eq!(t, 4);
}

#[test]
fn ld_ind_d16_sp_stores_both_bytes() {
    let mut cpu = cpu_with_program(&[0x08, 0x00, 0xc0]); // LD (0xc000), SP
    cpu.write_r16(3, 0xbeef);
    let t = cpu.step();
    assert_eq!(t, 20);
    assert_eq!(cpu.mmu.read(0xc000), 0xef);
    assert_eq!(cpu.mmu.read(0xc001), 0xbe);
}

#[test]
fn inc_dec_r16_program() {
    let mut cpu = cpu_with_program(&[0x13, 0x2b]); // INC DE; DEC HL
    cpu.set_de(0x00ff);
    cpu.set_hl(0x0000);
    let t1 = cpu.step();
    assert_eq!(t1, 8);
    assert_eq!(cpu.de(), 0x0100);
    let t2 = cpu.step();
    assert_eq!(t2, 8);
    assert_eq!(cpu.hl(), 0xffff);
}

#[test]
fn logic_and_compare_immediates() {
    // AND 0x0f; OR 0x80; XOR 0xff; CP 0x70
    let mut cpu = cpu_with_program(&[0xe6, 0x0f, 0xf6, 0x80, 0xee, 0xff, 0xfe, 0x70]);
    cpu.set_af(0x3c00);
    cpu.step();
    assert_eq!(a_of(&cpu), 0x0c);
    assert!(cpu.f_h());
    cpu.step();
    assert_eq!(a_of(&cpu), 0x8c);
    assert!(!cpu.f_h());
    cpu.step();
    assert_eq!(a_of(&cpu), 0x73);
    cpu.step();
    assert_eq!(a_of(&cpu), 0x73); // compare keeps the accumulator
    assert!(!cpu.f_z());
    assert!(!cpu.f_c()); // 0x73 >= 0x70
    assert!(cpu.f_n());
}

#[test]
fn sources_above_the_five_lines_never_dispatch() {
    let mut cpu = cpu_with_program(&[0xfb, 0x00, 0x00]); // EI; NOP; NOP
    cpu.write_r16(3, 0xd000);
    cpu.mmu.write(0xffff, 0b1110_0000);
    cpu.mmu.write(0xff0f, 0b1110_0000);
    cpu.step();
    cpu.step();
    assert_eq!(cpu.pc(), 0x102);
    assert!(cpu.ime());
    assert_eq!(cpu.mmu.read(0xff0f), 0b1110_0000);
}

#[test]
fn ld_hl_sp_d8_flags_and_value() {
    let mut cpu = cpu_with_program(&[0xf8, 0xff]); // LD HL, SP-1
    cpu.write_r16(3, 0x0000);
    let t = cpu.step();
    assert_eq!(t, 12);
    assert_eq!(cpu.hl(), 0xffff);
    assert_eq!(cpu.sp(), 0x0000);
    assert!(!cpu.f_c()); // low byte 0x00 + 0xff carries nothing out
    assert!(!cpu.f_h());
    assert!(!cpu.f_z());
}

#[test]
fn cpl_scf_ccf_flags() {
    let mut cpu = cpu_with_program(&[]);
    cpu.set_af(0x5a00);
    cpu.cpl();
    assert_eq!(a_of(&cpu), 0xa5);
    assert!(cpu.f_n());
    assert!(cpu.f_h());
    cpu.scf();
    assert!(cpu.f_c());
    assert!(!cpu.f_n());
    assert!(!cpu.f_h());
    cpu.ccf();
    assert!(!cpu.f_c());
    cpu.ccf();
    assert!(cpu.f_c());
}
