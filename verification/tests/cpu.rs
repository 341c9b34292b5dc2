use nesir::arch::cpu::alu::add_with_carry;
use nesir::arch::cpu::alu::compare;
use nesir::arch::cpu::alu::rotate_left;
use nesir::arch::cpu::alu::rotate_right;
use nesir::arch::cpu::alu::shift_left;
use nesir::arch::cpu::alu::shift_right;
use nesir::arch::cpu::alu::subtract_with_borrow;
use nesir::arch::cpu::decode::decode;
use nesir::arch::cpu::status::StatusReg;
use nesir::arch::cpu::status::BREAK;
use nesir::arch::cpu::status::CARRY;
use nesir::arch::cpu::status::INTERRUPT_DISABLE;
use nesir::arch::cpu::status::NEGATIVE;
use nesir::arch::cpu::status::OVERFLOW;
use nesir::arch::cpu::status::UNUSED;
use nesir::arch::cpu::status::ZERO;
use nesir::arch::cpu::AddrMode;
use nesir::arch::cpu::Cpu;
use nesir::arch::cpu::InstructionProcedure;
use nesir::arch::cpu::Op;
use nesir::arch::BusActivity;
use nesir::arch::Fault;
use nesir::arch::Nes;

/// A machine with `program` in work RAM at `at` and the program counter
/// there.
fn machine(program: &[u8], at: u16) -> Nes {
    let mut nes = Nes::new();
    for (i, byte) in program.iter().enumerate() {
        nes.cpu.wram[at as usize + i] = *byte;
    }
    nes.cpu.pc = at;
    nes
}

fn read(addr: u16, data: u8) -> BusActivity {
    BusActivity { addr, data, is_read: true }
}

fn write(addr: u16, data: u8) -> BusActivity {
    BusActivity { addr, data, is_read: false }
}

/// Runs one instruction and gives the bus access of each of its cycles.
fn instruction(nes: &mut Nes) -> Vec<BusActivity> {
    let mut bus = Vec::new();
    let accesses = nes.accesses;
    assert!(nes.cpu.proc.done);
    assert!(nes.is_wf());
    Cpu::cycle(nes);
    bus.push(nes.last_bus);
    while !nes.cpu.proc.done {
        assert!(nes.is_wf());
        Cpu::cycle(nes);
        bus.push(nes.last_bus);
        assert!(bus.len() < 10, "cycle runaway! instruction may be stuck in a loop");
        assert_eq!(nes.accesses, accesses + bus.len() as u64);
    }
    bus
}

#[test]
fn adc_sets_overflow_and_negative() {
    let mut nes = machine(&[0x69, 0x50], 0x0200);
    nes.cpu.acc = 0x50;
    nes.cpu.status.set(CARRY, false);
    let bus = instruction(&mut nes);
    assert_eq!(nes.cpu.acc, 0xA0);
    assert!(nes.cpu.status.contains(NEGATIVE));
    assert!(nes.cpu.status.contains(OVERFLOW));
    assert!(!nes.cpu.status.contains(CARRY));
    assert!(!nes.cpu.status.contains(ZERO));
    assert_eq!(bus, vec![read(0x0200, 0x69), read(0x0201, 0x50)]);
    assert_eq!(nes.cpu.pc, 0x0202);
    assert_eq!(nes.cpu.cyc, 2);
}

#[test]
fn adc_flags_follow_the_sum() {
    for a in [0x00u8, 0x01, 0x7F, 0x80, 0xFF, 0x50, 0xD0] {
        for m in [0x00u8, 0x01, 0x7F, 0x80, 0xFF, 0x10, 0x90] {
            for carry in [false, true] {
                let sum = add_with_carry(a, m, carry);
                let total = a as u16 + m as u16 + carry as u16;
                assert_eq!(sum.value, total as u8);
                assert_eq!(sum.carry, total >= 256);
                assert_eq!(sum.overflow, (a ^ sum.value) & (m ^ sum.value) & 0x80 != 0);
            }
        }
    }
    let sum = add_with_carry(0xFF, 0x01, false);
    assert_eq!((sum.value, sum.carry, sum.overflow), (0x00, true, false));
    let sum = add_with_carry(0x7F, 0x00, true);
    assert_eq!((sum.value, sum.carry, sum.overflow), (0x80, false, true));
}

#[test]
fn sbc_is_subtraction_with_borrow() {
    let d = subtract_with_borrow(0x50, 0x10, true);
    assert_eq!((d.value, d.carry, d.overflow), (0x40, true, false));
    let d = subtract_with_borrow(0x50, 0x10, false);
    assert_eq!((d.value, d.carry, d.overflow), (0x3F, true, false));
    let d = subtract_with_borrow(0x10, 0x20, true);
    assert_eq!((d.value, d.carry, d.overflow), (0xF0, false, false));
    let d = subtract_with_borrow(0x80, 0x01, true);
    assert_eq!((d.value, d.carry, d.overflow), (0x7F, true, true));
}

#[test]
fn shifts_and_rotations() {
    let s = shift_left(0x81);
    assert_eq!((s.value, s.carry), (0x02, true));
    let s = shift_right(0x81);
    assert_eq!((s.value, s.carry), (0x40, true));
    let s = rotate_left(0x81, false);
    assert_eq!((s.value, s.carry), (0x02, true));
    let s = rotate_left(0x40, true);
    assert_eq!((s.value, s.carry), (0x81, false));
    let s = rotate_right(0x01, false);
    assert_eq!((s.value, s.carry), (0x00, true));
    let s = rotate_right(0x02, true);
    assert_eq!((s.value, s.carry), (0x81, false));
}

#[test]
fn comparison_flags() {
    let c = compare(0x10, 0x10);
    assert_eq!((c.carry, c.zero, c.negative), (true, true, false));
    let c = compare(0x10, 0x20);
    assert_eq!((c.carry, c.zero, c.negative), (false, false, true));
    let c = compare(0x80, 0x01);
    assert_eq!((c.carry, c.zero, c.negative), (true, false, false));
}

#[test]
fn asl_zero_page_x_bus_sequence() {
    let mut nes = machine(&[0x16, 0xFF], 0x0200);
    nes.cpu.x = 0x02;
    nes.cpu.wram[0x01] = 0x81;
    nes.cpu.wram[0xFF] = 0x77;
    let bus = instruction(&mut nes);
    assert_eq!(nes.cpu.wram[0x01], 0x02);
    assert!(nes.cpu.status.contains(CARRY));
    assert!(!nes.cpu.status.contains(NEGATIVE));
    assert!(!nes.cpu.status.contains(ZERO));
    assert_eq!(
        bus,
        vec![
            read(0x0200, 0x16),
            read(0x0201, 0xFF),
            read(0x00FF, 0x77),
            read(0x0001, 0x81),
            write(0x0001, 0x81),
            write(0x0001, 0x02),
        ]
    );
    assert_eq!(nes.cpu.cyc, 6);
}

#[test]
fn jmp_indirect_reads_high_byte_in_same_page() {
    let mut nes = machine(&[0x6C, 0xFF, 0x02], 0x0300);
    nes.cpu.wram[0x02FF] = 0x34;
    nes.cpu.wram[0x0200] = 0x12;
    let bus = instruction(&mut nes);
    assert_eq!(nes.cpu.pc, 0x1234);
    assert_eq!(bus.len(), 5);
    assert_eq!(bus[3], read(0x02FF, 0x34));
    assert_eq!(bus[4], read(0x0200, 0x12));
}

#[test]
fn jmp_absolute() {
    let mut nes = machine(&[0x4C, 0x34, 0x12], 0x0300);
    let bus = instruction(&mut nes);
    assert_eq!(nes.cpu.pc, 0x1234);
    assert_eq!(bus.len(), 3);
}

#[test]
fn branch_not_taken_takes_two_cycles() {
    let mut nes = machine(&[0xD0, 0x02], 0x0200);
    nes.cpu.status.set(ZERO, true);
    let bus = instruction(&mut nes);
    assert_eq!(bus.len(), 2);
    assert_eq!(nes.cpu.pc, 0x0202);
}

#[test]
fn branch_to_same_page_takes_three_cycles() {
    let mut nes = machine(&[0xD0, 0x02], 0x0200);
    nes.cpu.status.set(ZERO, false);
    let bus = instruction(&mut nes);
    assert_eq!(bus.len(), 3);
    assert_eq!(nes.cpu.pc, 0x0204);
    assert_eq!(bus[2].addr, 0x0202);
}

#[test]
fn branch_across_a_page_takes_four_cycles() {
    let mut nes = machine(&[0xD0, 0x20], 0x02F0);
    nes.cpu.status.set(ZERO, false);
    let bus = instruction(&mut nes);
    assert_eq!(bus.len(), 4);
    assert_eq!(nes.cpu.pc, 0x0312);
    assert_eq!(bus[2].addr, 0x02F2);
    assert_eq!(bus[3].addr, 0x0212);
}

#[test]
fn branch_backwards() {
    let mut nes = machine(&[0xF0, 0xFC], 0x0210);
    nes.cpu.status.set(ZERO, true);
    let bus = instruction(&mut nes);
    assert_eq!(nes.cpu.pc, 0x020E);
    assert_eq!(bus.len(), 3);
}

#[test]
fn indexed_read_takes_a_cycle_more_across_a_page() {
    let mut nes = machine(&[0xBD, 0xF0, 0x02], 0x0200);
    nes.cpu.x = 0x05;
    nes.cpu.wram[0x02F5] = 0x42;
    let bus = instruction(&mut nes);
    assert_eq!(bus.len(), 4);
    assert_eq!(nes.cpu.acc, 0x42);

}

#[test]
fn indexed_read_reads_the_wrong_page_first() {
    let mut nes = machine(&[0xBD, 0xF0, 0x02], 0x0200);
    nes.cpu.x = 0x15;
    nes.cpu.wram[0x0305] = 0x43;
    let bus = instruction(&mut nes);
    assert_eq!(bus.len(), 5);
    assert_eq!(bus[3].addr, 0x0205);
    assert_eq!(bus[4], read(0x0305, 0x43));
    assert_eq!(nes.cpu.acc, 0x43);
}

#[test]
fn indexed_store_never_skips_the_extra_cycle() {
    let mut nes = machine(&[0x9D, 0xF0, 0x02], 0x0200);
    nes.cpu.x = 0x05;
    nes.cpu.acc = 0x99;
    let bus = instruction(&mut nes);
    assert_eq!(bus.len(), 5);
    assert_eq!(bus[3].addr, 0x02F5);
    assert!(bus[3].is_read);
    assert_eq!(bus[4], write(0x02F5, 0x99));

}

#[test]
fn indirect_y_store_never_skips_the_extra_cycle() {
    let mut nes = machine(&[0x91, 0x10], 0x0200);
    nes.cpu.wram[0x10] = 0xF0;
    nes.cpu.wram[0x11] = 0x02;
    nes.cpu.y = 0x20;
    nes.cpu.acc = 0x77;
    let bus = instruction(&mut nes);
    assert_eq!(bus.len(), 6);
    assert_eq!(bus[4].addr, 0x0210);
    assert_eq!(bus[5], write(0x0310, 0x77));
}

#[test]
fn indirect_x_wraps_in_zero_page() {
    let mut nes = machine(&[0xA1, 0xFE], 0x0200);
    nes.cpu.x = 0x01;
    nes.cpu.wram[0xFF] = 0x34;
    nes.cpu.wram[0x00] = 0x02;
    nes.cpu.wram[0x0234] = 0x5A;
    let bus = instruction(&mut nes);
    assert_eq!(bus.len(), 6);
    assert_eq!(nes.cpu.acc, 0x5A);
    assert_eq!(bus[3].addr, 0x00FF);
    assert_eq!(bus[4].addr, 0x0000);
}

#[test]
fn read_modify_write_cycles() {
    // INC $10, INC $10,X, INC $0310, INC $0310,X
    for (program, cycles) in [
        (vec![0xE6u8, 0x10], 5),
        (vec![0xF6, 0x10], 6),
        (vec![0xEE, 0x10, 0x03], 6),
        (vec![0xFE, 0x10, 0x03], 7),
        (vec![0xE3, 0x10], 8),
        (vec![0xF3, 0x10], 8),
    ] {
        let mut nes = machine(&program, 0x0200);
        let bus = instruction(&mut nes);
        assert_eq!(bus.len(), cycles);
        assert!(!bus[cycles - 1].is_read);
        assert!(!bus[cycles - 2].is_read);
        assert!(bus[cycles - 3].is_read);
    }
}

#[test]
fn php_then_plp_keeps_the_flags() {
    let mut nes = machine(&[0x08, 0x28], 0x0200);
    nes.cpu.status.0 = 0b1100_1011;
    let bus = instruction(&mut nes);
    assert_eq!(bus.len(), 3);
    assert_eq!(nes.cpu.wram[0x01FD], 0b1111_1011);
    assert_eq!(nes.cpu.sp, 0xFC);
    nes.cpu.status.0 = 0;
    let bus = instruction(&mut nes);
    assert_eq!(bus.len(), 4);
    assert_eq!(nes.cpu.status.0, 0b1110_1011);
    assert_eq!(nes.cpu.sp, 0xFD);
    assert_eq!(StatusReg::pull(StatusReg(0x00).push_value(true)).0, 0x20);
    assert_eq!(StatusReg(0xFF).push_value(false), 0xEF);
}

#[test]
fn pha_and_pla() {
    let mut nes = machine(&[0x48, 0xA9, 0x00, 0x68], 0x0200);
    nes.cpu.acc = 0x80;
    assert_eq!(instruction(&mut nes).len(), 3);
    assert_eq!(instruction(&mut nes).len(), 2);
    assert!(nes.cpu.status.contains(ZERO));
    assert_eq!(instruction(&mut nes).len(), 4);
    assert_eq!(nes.cpu.acc, 0x80);
    assert!(nes.cpu.status.contains(NEGATIVE));
    assert!(!nes.cpu.status.contains(ZERO));
}

#[test]
fn jsr_and_rts() {
    let mut nes = machine(&[0x20, 0x00, 0x03], 0x0200);
    nes.cpu.wram[0x0300] = 0x60;
    let bus = instruction(&mut nes);
    assert_eq!(bus.len(), 6);
    assert_eq!(nes.cpu.pc, 0x0300);
    assert_eq!(nes.cpu.wram[0x01FD], 0x02);
    assert_eq!(nes.cpu.wram[0x01FC], 0x02);
    let bus = instruction(&mut nes);
    assert_eq!(bus.len(), 6);
    assert_eq!(nes.cpu.pc, 0x0203);
    assert_eq!(nes.cpu.sp, 0xFD);
}

#[test]
fn brk_pushes_and_rti_returns() {
    let mut nes = machine(&[0x00, 0xEA], 0x0200);
    nes.cpu.status.0 = 0b0010_0001;
    let bus = instruction(&mut nes);
    assert_eq!(bus.len(), 7);
    assert_eq!(nes.cpu.wram[0x01FD], 0x02);
    assert_eq!(nes.cpu.wram[0x01FC], 0x02);
    assert_eq!(nes.cpu.wram[0x01FB], 0b0011_0001);
    assert_eq!(bus[5].addr, 0xFFFE);
    assert_eq!(bus[6].addr, 0xFFFF);
    assert!(nes.cpu.status.contains(INTERRUPT_DISABLE));
    // the empty slot reads as 0: the handler is at $0000
    assert_eq!(nes.cpu.pc, 0x0000);
    nes.cpu.wram[0x0000] = 0x40;
    let bus = instruction(&mut nes);
    assert_eq!(bus.len(), 6);
    assert_eq!(nes.cpu.pc, 0x0202);
    assert_eq!(nes.cpu.status.0, 0b0010_0001);
}

#[test]
fn slo_shifts_then_ors() {
    let mut nes = machine(&[0x07, 0x10], 0x0200);
    nes.cpu.wram[0x10] = 0x81;
    nes.cpu.acc = 0x10;
    assert_eq!(instruction(&mut nes).len(), 5);
    assert_eq!(nes.cpu.wram[0x10], 0x02);
    assert_eq!(nes.cpu.acc, 0x12);
    assert!(nes.cpu.status.contains(CARRY));
}

#[test]
fn lax_loads_both_registers() {
    let mut nes = machine(&[0xA7, 0x10], 0x0200);
    nes.cpu.wram[0x10] = 0x80;
    assert_eq!(instruction(&mut nes).len(), 3);
    assert_eq!((nes.cpu.acc, nes.cpu.x), (0x80, 0x80));
    assert!(nes.cpu.status.contains(NEGATIVE));
}

#[test]
fn sax_stores_the_conjunction() {
    let mut nes = machine(&[0x87, 0x10], 0x0200);
    nes.cpu.acc = 0xF0;
    nes.cpu.x = 0x3C;
    assert_eq!(instruction(&mut nes).len(), 3);
    assert_eq!(nes.cpu.wram[0x10], 0x30);
}

#[test]
fn dcp_decrements_then_compares() {
    let mut nes = machine(&[0xC7, 0x10], 0x0200);
    nes.cpu.wram[0x10] = 0x11;
    nes.cpu.acc = 0x10;
    assert_eq!(instruction(&mut nes).len(), 5);
    assert_eq!(nes.cpu.wram[0x10], 0x10);
    assert!(nes.cpu.status.contains(ZERO));
    assert!(nes.cpu.status.contains(CARRY));
}

#[test]
fn isb_increments_then_subtracts() {
    let mut nes = machine(&[0xE7, 0x10], 0x0200);
    nes.cpu.wram[0x10] = 0x0F;
    nes.cpu.acc = 0x50;
    nes.cpu.status.set(CARRY, true);
    assert_eq!(instruction(&mut nes).len(), 5);
    assert_eq!(nes.cpu.wram[0x10], 0x10);
    assert_eq!(nes.cpu.acc, 0x40);
}

#[test]
fn rra_rotates_then_adds() {
    let mut nes = machine(&[0x67, 0x10], 0x0200);
    nes.cpu.wram[0x10] = 0x03;
    nes.cpu.acc = 0x10;
    nes.cpu.status.set(CARRY, false);
    assert_eq!(instruction(&mut nes).len(), 5);
    assert_eq!(nes.cpu.wram[0x10], 0x01);
    assert_eq!(nes.cpu.acc, 0x12);
}

#[test]
fn rla_and_sre() {
    let mut nes = machine(&[0x27, 0x10, 0x47, 0x10], 0x0200);
    nes.cpu.wram[0x10] = 0x81;
    nes.cpu.acc = 0xFF;
    nes.cpu.status.set(CARRY, true);
    instruction(&mut nes);
    assert_eq!(nes.cpu.wram[0x10], 0x03);
    assert_eq!(nes.cpu.acc, 0x03);
    instruction(&mut nes);
    assert_eq!(nes.cpu.wram[0x10], 0x01);
    assert_eq!(nes.cpu.acc, 0x02);
    assert!(nes.cpu.status.contains(CARRY));
}

#[test]
fn transfers_and_flags() {
    let mut nes = machine(&[0xA2, 0x80, 0x9A, 0xBA, 0x8A, 0xA8, 0xC8, 0x88, 0xCA, 0x38, 0xF8, 0xB8], 0x0200);
    instruction(&mut nes);
    assert_eq!(nes.cpu.x, 0x80);
    let status = nes.cpu.status;
    instruction(&mut nes);
    assert_eq!(nes.cpu.sp, 0x80);
    assert_eq!(nes.cpu.status, status);
    nes.cpu.x = 0;
    instruction(&mut nes);
    assert_eq!(nes.cpu.x, 0x80);
    instruction(&mut nes);
    assert_eq!(nes.cpu.acc, 0x80);
    instruction(&mut nes);
    assert_eq!(nes.cpu.y, 0x80);
    instruction(&mut nes);
    assert_eq!(nes.cpu.y, 0x81);
    instruction(&mut nes);
    assert_eq!(nes.cpu.y, 0x80);
    instruction(&mut nes);
    assert_eq!(nes.cpu.x, 0x7F);
    assert!(!nes.cpu.status.contains(NEGATIVE));
    instruction(&mut nes);
    assert!(nes.cpu.status.contains(CARRY));
    instruction(&mut nes);
    assert_eq!(nes.cpu.status.0 & 0x08, 0x08);
    nes.cpu.status.set(OVERFLOW, true);
    assert_eq!(instruction(&mut nes).len(), 2);
    assert!(!nes.cpu.status.contains(OVERFLOW));
}

#[test]
fn bit_copies_the_top_bits() {
    let mut nes = machine(&[0x24, 0x10], 0x0200);
    nes.cpu.wram[0x10] = 0xC0;
    nes.cpu.acc = 0x01;
    instruction(&mut nes);
    assert!(nes.cpu.status.contains(ZERO));
    assert!(nes.cpu.status.contains(OVERFLOW));
    assert!(nes.cpu.status.contains(NEGATIVE));
}

#[test]
fn invalid_opcode_is_a_fault_and_halts() {
    let mut nes = machine(&[0x02], 0x0200);
    Cpu::cycle(&mut nes);
    assert_eq!(nes.fault, Some(Fault::InvalidOpcode { pc: 0x0200, opcode: 0x02 }));
    let halted = nes.clone();
    Cpu::cycle(&mut nes);
    assert_eq!(nes, halted);
    for opcode in [0x0Bu8, 0x4B, 0x6B, 0x8B, 0x93, 0x9B, 0x9C, 0x9E, 0x9F, 0xAB, 0xCB, 0x12, 0xF2] {
        assert_eq!(decode(opcode), None);
    }
}

#[test]
fn access_to_the_test_window_is_a_fault() {
    let mut nes = machine(&[0xAD, 0x18, 0x40], 0x0200);
    nes.cpu.acc = 0x55;
    instruction(&mut nes);
    assert_eq!(nes.fault, Some(Fault::BusRange { addr: 0x4018 }));
    assert_eq!(nes.cpu.acc, 0x00);

}

#[test]
fn the_first_fault_stands() {
    let mut nes = Nes::new();
    nes.write(0x401F, 0x12);
    assert_eq!(nes.fault, Some(Fault::BusRange { addr: 0x401F }));
    nes.write(0x4018, 0x12);
    assert_eq!(nes.fault, Some(Fault::BusRange { addr: 0x401F }));
}

#[test]
fn ready_line_pauses_the_cpu() {
    let mut nes = machine(&[0xEA], 0x0200);
    nes.cpu.rdy = false;
    let before = nes.clone();
    Cpu::cycle(&mut nes);
    assert_eq!(nes, before);
}

#[test]
fn decode_table() {
    assert_eq!(decode(0x00), Some((Op::Brk, AddrMode::Auto)));
    assert_eq!(decode(0x69), Some((Op::Adc, AddrMode::Immediate)));
    assert_eq!(decode(0x6C), Some((Op::Jmp, AddrMode::Indirect)));
    assert_eq!(decode(0x96), Some((Op::Stx, AddrMode::ZeroY)));
    assert_eq!(decode(0xBE), Some((Op::Ldx, AddrMode::AbsoluteY)));
    assert_eq!(decode(0xBB), Some((Op::Las, AddrMode::AbsoluteY)));
    assert_eq!(decode(0xEB), Some((Op::Sbc, AddrMode::Immediate)));
    assert_eq!(decode(0x89), Some((Op::Nop, AddrMode::Immediate)));
    assert_eq!(decode(0x0A), Some((Op::Asl, AddrMode::Accumulator)));
    assert_eq!(decode(0xFF), Some((Op::Isb, AddrMode::AbsoluteX)));
    let implemented = (0..=255u8).filter(|opcode| decode(*opcode).is_some()).count();
    assert_eq!(implemented, 232);
}

#[test]
fn every_instruction_ends_within_eight_cycles() {
    for opcode in 0..=255u8 {
        if decode(opcode).is_none() {
            continue;
        }
        for x in [0x00u8, 0xFF] {
            let mut nes = machine(&[opcode, 0xFF, 0x02], 0x0200);
            nes.cpu.x = x;
            nes.cpu.y = x;
            let cycles = instruction(&mut nes).len();
            assert!(2 <= cycles && cycles <= 8, "opcode {:02X}", opcode);
            assert_eq!(nes.cpu.cyc, cycles as u64);
        }
    }
}

#[test]
fn status_letters_and_reset_value() {
    assert_eq!(StatusReg::new().0, 0x34);
    assert_eq!(StatusReg::default().0, UNUSED | BREAK | INTERRUPT_DISABLE);
    assert_eq!(StatusReg(0x24).letters(), ['n', 'v', '-', 'b', 'd', 'I', 'z', 'c']);
    assert_eq!(StatusReg(0xC3).letters(), ['N', 'V', '-', 'b', 'd', 'i', 'Z', 'C']);
    let mut status = StatusReg(0x00);
    status.set(CARRY, true);
    status.set_zn(0x80);
    assert_eq!(status.bits(), 0x81);
    status.set(NEGATIVE, false);
    assert_eq!(status.bits(), 0x01);
}

#[test]
fn instruction_procedure_starts_at_the_opcode_fetch() {
    let proc = InstructionProcedure::new(Op::Lda, AddrMode::Zero);
    assert!(!proc.done);
    assert_eq!(proc.cycle, 1);
    assert_eq!((proc.op, proc.mode), (Op::Lda, AddrMode::Zero));
    assert!(!proc.is_wf());
    assert!(Nes::new().cpu.proc.is_wf());
    let mut nes = machine(&[0xA5, 0x10], 0x0200);
    nes.cpu.wram[0x10] = 0x07;
    Cpu::cycle(&mut nes);
    assert_eq!(nes.cpu.proc.cycle, 2);
    InstructionProcedure::step(&mut nes);
    assert_eq!(nes.cpu.proc.cycle, 3);
    assert!(!nes.cpu.proc.done);
    InstructionProcedure::step(&mut nes);
    assert!(nes.cpu.proc.done);
    assert_eq!(nes.cpu.acc, 0x07);
}

#[test]
fn snapshot_at_the_start_of_an_instruction() {
    let mut nes = machine(&[0xA9, 0x01], 0x0200);
    nes.cpu.cyc = 7;
    nes.cpu.status.0 = 0x24;
    nes.cpu.x = 3;
    Cpu::cycle(&mut nes);
    let state = nes.cpu.last_state.unwrap();
    assert_eq!(state.pc, 0x0200);
    assert_eq!(state.opcode, 0xA9);
    assert_eq!((state.sp, state.status, state.acc, state.x, state.y), (0xFD, 0x24, 0, 3, 0));
    assert_eq!(state.cyc, 7);
}

#[test]
fn small_program_multiplies() {
    // LDA #0; LDX #7; loop: CLC; ADC #5; DEX; BNE loop; STA $10; PHA; JSR $0240
    let program = [
        0xA9, 0x00, 0xA2, 0x07, 0x18, 0x69, 0x05, 0xCA, 0xD0, 0xFA, 0x85, 0x10, 0x48, 0x20, 0x40,
        0x02,
    ];
    let mut nes = machine(&program, 0x0200);
    // the subroutine: PLA twice for the return address, PLA for the value, TAY
    for (i, byte) in [0x68u8, 0x68, 0x68, 0xA8].iter().enumerate() {
        nes.cpu.wram[0x0240 + i] = *byte;
    }
    let mut cycles = 0;
    while nes.cpu.pc != 0x020C || !nes.cpu.proc.done {
        cycles += instruction(&mut nes).len();
    }
    assert_eq!(nes.cpu.wram[0x10], 35);
    assert_eq!(cycles, 2 + 2 + 7 * 9 - 1 + 3);
    assert_eq!(nes.cpu.cyc, 69);
    cycles += instruction(&mut nes).len();
    cycles += instruction(&mut nes).len();
    assert_eq!(nes.cpu.pc, 0x0240);
    assert_eq!(nes.cpu.sp, 0xFA);
    for _ in 0..4 {
        cycles += instruction(&mut nes).len();
    }
    assert_eq!(nes.cpu.y, 35);
    assert_eq!(nes.cpu.sp, 0xFD);
    assert_eq!(cycles, 69 + 3 + 6 + 4 + 4 + 4 + 2);
    assert_eq!(nes.accesses, cycles as u64);
}

/// The cycles of the documented opcodes by the data sheet, without the
/// adjustments for a taken branch and a crossed page.
const DATA_SHEET: [(u8, usize); 151] = [
    (0x69, 2), (0x65, 3), (0x75, 4), (0x6D, 4), (0x7D, 4), (0x79, 4), (0x61, 6), (0x71, 5),
    (0x29, 2), (0x25, 3), (0x35, 4), (0x2D, 4), (0x3D, 4), (0x39, 4), (0x21, 6), (0x31, 5),
    (0x0A, 2), (0x06, 5), (0x16, 6), (0x0E, 6), (0x1E, 7),
    (0x90, 2), (0xB0, 2), (0xF0, 2), (0x30, 2), (0xD0, 2), (0x10, 2), (0x50, 2), (0x70, 2),
    (0x24, 3), (0x2C, 4),
    (0x00, 7),
    (0x18, 2), (0xD8, 2), (0x58, 2), (0xB8, 2),
    (0xC9, 2), (0xC5, 3), (0xD5, 4), (0xCD, 4), (0xDD, 4), (0xD9, 4), (0xC1, 6), (0xD1, 5),
    (0xE0, 2), (0xE4, 3), (0xEC, 4), (0xC0, 2), (0xC4, 3), (0xCC, 4),
    (0xC6, 5), (0xD6, 6), (0xCE, 6), (0xDE, 7), (0xCA, 2), (0x88, 2),
    (0x49, 2), (0x45, 3), (0x55, 4), (0x4D, 4), (0x5D, 4), (0x59, 4), (0x41, 6), (0x51, 5),
    (0xE6, 5), (0xF6, 6), (0xEE, 6), (0xFE, 7), (0xE8, 2), (0xC8, 2),
    (0x4C, 3), (0x6C, 5), (0x20, 6),
    (0xA9, 2), (0xA5, 3), (0xB5, 4), (0xAD, 4), (0xBD, 4), (0xB9, 4), (0xA1, 6), (0xB1, 5),
    (0xA2, 2), (0xA6, 3), (0xB6, 4), (0xAE, 4), (0xBE, 4),
    (0xA0, 2), (0xA4, 3), (0xB4, 4), (0xAC, 4), (0xBC, 4),
    (0x4A, 2), (0x46, 5), (0x56, 6), (0x4E, 6), (0x5E, 7),
    (0xEA, 2),
    (0x09, 2), (0x05, 3), (0x15, 4), (0x0D, 4), (0x1D, 4), (0x19, 4), (0x01, 6), (0x11, 5),
    (0x48, 3), (0x08, 3), (0x68, 4), (0x28, 4),
    (0x2A, 2), (0x26, 5), (0x36, 6), (0x2E, 6), (0x3E, 7),
    (0x6A, 2), (0x66, 5), (0x76, 6), (0x6E, 6), (0x7E, 7),
    (0x40, 6), (0x60, 6),
    (0xE9, 2), (0xE5, 3), (0xF5, 4), (0xED, 4), (0xFD, 4), (0xF9, 4), (0xE1, 6), (0xF1, 5),
    (0x38, 2), (0xF8, 2), (0x78, 2),
    (0x85, 3), (0x95, 4), (0x8D, 4), (0x9D, 5), (0x99, 5), (0x81, 6), (0x91, 6),
    (0x86, 3), (0x96, 4), (0x8E, 4), (0x84, 3), (0x94, 4), (0x8C, 4),
    (0xAA, 2), (0xA8, 2), (0xBA, 2), (0x8A, 2), (0x9A, 2), (0x98, 2),
];

/// The flags under which the branch `opcode` is not taken.
fn not_taken(opcode: u8) -> u8 {
    match opcode {
        0x90 | 0xD0 | 0x10 | 0x50 => 0xC3 | 0x20,
        _ => 0x20,
    }
}

fn is_branch(opcode: u8) -> bool {
    opcode & 0x1F == 0x10
}

#[test]
fn documented_opcodes_take_their_data_sheet_cycles() {
    for (opcode, cycles) in DATA_SHEET {
        let mut nes = machine(&[opcode, 0x10, 0x02], 0x0200);
        nes.cpu.wram[0x10] = 0x20;
        nes.cpu.wram[0x11] = 0x03;
        nes.cpu.status.0 = not_taken(opcode);
        assert_eq!(instruction(&mut nes).len(), cycles, "opcode {:02X}", opcode);
    }
}

#[test]
fn taken_branches_take_a_cycle_more() {
    for (opcode, cycles) in DATA_SHEET {
        if is_branch(opcode) {
            let mut nes = machine(&[opcode, 0x10], 0x0200);
            nes.cpu.status.0 = not_taken(opcode) ^ 0xC3;
            assert_eq!(instruction(&mut nes).len(), cycles + 1, "opcode {:02X}", opcode);
            assert_eq!(nes.cpu.pc, 0x0212);
        }
    }
}

#[test]
fn crossed_pages_cost_reads_a_cycle() {
    let mut reads = 0;
    for (opcode, cycles) in DATA_SHEET {
        if is_branch(opcode) {
            continue;
        }
        let mut nes = machine(&[opcode, 0xF0, 0x02], 0x0200);
        nes.cpu.wram[0xF0] = 0xF0;
        nes.cpu.wram[0xF1] = 0x02;
        nes.cpu.x = 0x20;
        nes.cpu.y = 0x20;
        let (_, mode) = decode(opcode).unwrap();
        let crosses = matches!(mode, AddrMode::AbsoluteX | AddrMode::AbsoluteY | AddrMode::IndirectY);
        let stores_or_modifies = matches!(cycles, 7) || matches!(opcode, 0x9D | 0x99 | 0x91);
        let expected = if crosses && !stores_or_modifies {
            reads += 1;
            cycles + 1
        } else {
            cycles
        };
        assert_eq!(instruction(&mut nes).len(), expected, "opcode {:02X}", opcode);
    }
    assert_eq!(reads, 7 * 3 + 2);
}
