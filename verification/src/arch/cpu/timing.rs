use vstd::prelude::*;
use crate::arch::cpu::addressing::effective_addr_spec;
use crate::arch::cpu::addressing::carried_spec;
use crate::arch::cpu::addressing::index_of;
use crate::arch::cpu::addressing::indexed_spec;
use crate::arch::cpu::alu::concat_spec;
use crate::arch::cpu::addressing::is_modify_mode;
use crate::arch::cpu::addressing::is_operand_mode;
use crate::arch::cpu::addressing::read_modify_write_spec;
use crate::arch::cpu::alu::bit;
use crate::arch::cpu::alu::branch_target;
use crate::arch::cpu::control::branch_spec;
use crate::arch::cpu::control::branch_taken;
use crate::arch::cpu::control::high;
use crate::arch::cpu::control::interrupt_spec;
use crate::arch::cpu::control::jmp_spec;
use crate::arch::cpu::control::jsr_spec;
use crate::arch::cpu::control::pla_spec;
use crate::arch::cpu::control::plp_spec;
use crate::arch::cpu::control::push_step;
use crate::arch::cpu::control::rti_spec;
use crate::arch::cpu::control::rts_spec;
use crate::arch::cpu::control::IRQ_VECTOR;
use crate::arch::cpu::control::NMI_VECTOR;
use crate::arch::cpu::decode::decode_spec;
use crate::arch::cpu::instructions::implied_step;
use crate::arch::cpu::instructions::modify_step;
use crate::arch::cpu::instructions::read_step;
use crate::arch::cpu::instructions::store_step;
use crate::arch::cpu::status::is_flag;
use crate::arch::cpu::status::lemma_flag_update;
use crate::arch::cpu::status::lemma_pulled_bits;
use crate::arch::cpu::status::StatusReg;
use crate::arch::cpu::status::UNUSED;
use crate::arch::cpu::AddrMode;
use crate::arch::cpu::Cpu;
use crate::arch::cpu::InstructionProcedure;
use crate::arch::cpu::Op;
use crate::arch::ppu::Ppu;
use crate::arch::Nes;

verus! {

/// The shapes of a micro-program.
#[derive(Copy, Clone, Debug, PartialEq, Eq, Structural)]
pub enum Kind {
    /// Nothing to run.
    Idle,
    /// Reads its operand.
    Read,
    /// Stores a register.
    Store,
    /// Reads its operand, modifies it and writes it back.
    Modify,
    /// Has no operand in memory.
    Implied,
    /// Branches on a flag.
    Branch,
    /// Has a sequence of its own.
    Sequence,
}

/// The shape of the micro-program of `op` in `mode`.
pub open spec fn kind_of(op: Op, mode: AddrMode) -> Kind {
    match op {
        Op::Idle => Kind::Idle,
        Op::Adc
        | Op::And
        | Op::Bit
        | Op::Cmp
        | Op::Cpx
        | Op::Cpy
        | Op::Eor
        | Op::Las
        | Op::Lax
        | Op::Lda
        | Op::Ldx
        | Op::Ldy
        | Op::Ora
        | Op::Sbc => Kind::Read,
        Op::Nop => if mode == AddrMode::Implied {
            Kind::Implied
        } else {
            Kind::Read
        },
        Op::Sax | Op::Sta | Op::Stx | Op::Sty => Kind::Store,
        Op::Dcp | Op::Dec | Op::Inc | Op::Isb | Op::Rla | Op::Rra | Op::Slo | Op::Sre => Kind::Modify,
        Op::Asl | Op::Lsr | Op::Rol | Op::Ror => if mode == AddrMode::Accumulator {
            Kind::Implied
        } else {
            Kind::Modify
        },
        Op::Clc
        | Op::Cld
        | Op::Cli
        | Op::Clv
        | Op::Sec
        | Op::Sed
        | Op::Sei
        | Op::Dex
        | Op::Dey
        | Op::Inx
        | Op::Iny
        | Op::Tax
        | Op::Tay
        | Op::Tsx
        | Op::Txa
        | Op::Txs
        | Op::Tya => Kind::Implied,
        Op::Bcc | Op::Bcs | Op::Beq | Op::Bmi | Op::Bne | Op::Bpl | Op::Bvc | Op::Bvs => Kind::Branch,
        _ => Kind::Sequence,
    }
}

/// Whether `op` has a micro-program in `mode`.
pub open spec fn valid_pair(op: Op, mode: AddrMode) -> bool {
    match kind_of(op, mode) {
        Kind::Read => is_operand_mode(mode),
        Kind::Store => is_operand_mode(mode) && mode != AddrMode::Immediate,
        Kind::Modify => is_modify_mode(mode),
        _ => op != Op::Jmp || mode == AddrMode::Absolute || mode == AddrMode::Indirect,
    }
}

/// The cycle in which a mode has the operand's address when no index
/// carries into the high byte.
pub open spec fn operand_cycle(mode: AddrMode) -> int {
    match mode {
        AddrMode::Immediate => 2,
        AddrMode::Zero => 3,
        AddrMode::ZeroX | AddrMode::ZeroY | AddrMode::Absolute | AddrMode::AbsoluteX | AddrMode::AbsoluteY => 4,
        AddrMode::IndirectY => 5,
        _ => 6,
    }
}

/// Whether the mode adds an index that can carry into the high byte.
pub open spec fn carries(mode: AddrMode) -> bool {
    mode == AddrMode::AbsoluteX || mode == AddrMode::AbsoluteY || mode == AddrMode::IndirectY
}

/// The cycles that `op` takes in `mode` by the data sheet, the opcode
/// fetch included, before the adjustments of `penalty`.
pub open spec fn base_cycles(op: Op, mode: AddrMode) -> int {
    let operand = operand_cycle(mode);
    let indexed = bit(carries(mode));
    match kind_of(op, mode) {
        Kind::Idle => 0,
        Kind::Read => operand,
        Kind::Store => operand + indexed,
        Kind::Modify => operand + indexed + 2,
        Kind::Implied | Kind::Branch => 2,
        Kind::Sequence => match op {
            Op::Pha | Op::Php => 3,
            Op::Pla | Op::Plp => 4,
            Op::Jmp => if mode == AddrMode::Absolute {
                3
            } else {
                5
            },
            Op::Jsr | Op::Rts | Op::Rti => 6,
            _ => 7,
        },
    }
}

/// The most cycles that `op` can take in `mode`.
pub open spec fn max_cycles(op: Op, mode: AddrMode) -> int {
    match kind_of(op, mode) {
        Kind::Read => base_cycles(op, mode) + bit(carries(mode)),
        Kind::Branch => 4,
        _ => base_cycles(op, mode),
    }
}

/// The cycles that the instruction in flight takes beyond
/// `base_cycles`, as far as the machine in its cycle `cycle` decides it.
///
/// An instruction that reads through an indexed mode takes one more
/// when the index carries into the high byte of the address. A branch
/// takes one more when it is taken, and then one more when its target
/// lies in another page. No other instruction takes more.
pub open spec fn penalty(n: Nes) -> int {
    let p = n.cpu.proc;
    let base = base_cycles(p.op, p.mode);
    match kind_of(p.op, p.mode) {
        Kind::Read => if !carries(p.mode) {
            0
        } else if p.cycle <= base {
            bit(p.tmp0 + index_of(n.cpu, p.mode) >= 256)
        } else {
            1
        },
        Kind::Branch => if p.cycle <= 2 {
            bit(branch_taken(p.op, n.cpu.status))
        } else if p.cycle == 3 {
            1 + bit(high(n.cpu.pc) != high(branch_target(n.cpu.pc, p.tmp0)))
        } else {
            2
        },
        _ => 0,
    }
}

impl InstructionProcedure {
    /// The instruction has a micro-program and is done or inside it.
    pub open spec fn wf(self) -> bool {
        valid_pair(self.op, self.mode) && (self.done || 2 <= self.cycle <= max_cycles(
            self.op,
            self.mode,
        ))
    }

    /// What the micro-program of the instruction in flight does in one
    /// cycle.
    pub open spec fn execute_spec(n: Nes) -> Nes {
        let p = n.cpu.proc;
        match kind_of(p.op, p.mode) {
            Kind::Idle => n,
            Kind::Read => read_step(n, p.op),
            Kind::Store => store_step(n, p.op),
            Kind::Modify => modify_step(n, p.op),
            Kind::Implied => implied_step(n, p.op),
            Kind::Branch => branch_spec(n, branch_taken(p.op, n.cpu.status)),
            Kind::Sequence => match p.op {
                Op::Nmi => interrupt_spec(n, NMI_VECTOR, false),
                Op::Irq => interrupt_spec(n, IRQ_VECTOR, false),
                Op::Brk => interrupt_spec(n, IRQ_VECTOR, true),
                Op::Jmp => jmp_spec(n),
                Op::Jsr => jsr_spec(n),
                Op::Rts => rts_spec(n),
                Op::Rti => rti_spec(n),
                Op::Pha => push_step(n, n.cpu.acc),
                Op::Php => push_step(n, n.cpu.status.pushed(true)),
                Op::Pla => pla_spec(n),
                _ => plp_spec(n),
            },
        }
    }

    /// The machine one cycle into the instruction in flight: the
    /// micro-program runs its cycle, and the cycle count moves on.
    pub open spec fn step_spec(n: Nes) -> Nes {
        let m = Self::execute_spec(n);
        m.with_proc(InstructionProcedure { cycle: (m.cpu.proc.cycle + 1) as u8, ..m.cpu.proc })
    }
}

/// A read leaves the CPU's registers and the instruction in flight as
/// they are.
pub proof fn lemma_read_frame(n: Nes, addr: u16)
    ensures
        n.read_spec(addr).0.cpu.same_registers(n.cpu),
{
    reveal(Nes::read_spec);
    if 0x2000 <= addr < 0x4000 {
        Ppu::lemma_port_frame(n, addr, 0);
    }
}

/// A write leaves the CPU's registers and the instruction in flight as
/// they are.
pub proof fn lemma_write_frame(n: Nes, addr: u16, data: u8)
    ensures
        n.write_spec(addr, data).cpu.same_registers(n.cpu),
{
    reveal(Nes::write_spec);
    if 0x2000 <= addr < 0x4000 {
        Ppu::lemma_port_frame(n, addr, data);
    }
}

/// A bus access keeps the PPU well formed and its clock as it is, and
/// is counted.
pub proof fn lemma_bus_keeps_ppu(n: Nes, addr: u16, data: u8)
    ensures
        n.ppu.wf() ==> n.read_spec(addr).0.ppu.wf(),
        n.ppu.wf() ==> n.write_spec(addr, data).ppu.wf(),
        n.read_spec(addr).0.ppu.same_clock(n.ppu),
        n.write_spec(addr, data).ppu.same_clock(n.ppu),
        n.read_spec(addr).0.accesses == n.accesses.wrapping_add(1),
        n.write_spec(addr, data).accesses == n.accesses.wrapping_add(1),
{
    reveal(Nes::read_spec);
    reveal(Nes::write_spec);
    if 0x2000 <= addr < 0x4000 {
        Ppu::lemma_port_keeps_wf(n, addr, data);
    }
}

/// What a bus access may do to the machine: the CPU's registers and the
/// instruction in flight stay as they are, the PPU stays well formed,
/// and its clock stays as it is. The access is counted.
pub open spec fn bus_kept(before: Nes, after: Nes) -> bool {
    &&& after.cpu.same_registers(before.cpu)
    &&& before.ppu.wf() ==> after.ppu.wf()
    &&& after.ppu.same_clock(before.ppu)
    &&& after.accesses == before.accesses.wrapping_add(1)
}

/// No bus access changes the CPU's registers, the instruction in flight
/// or the PPU's clock, and none breaks the PPU.
pub proof fn lemma_bus_frame()
    ensures
        forall|n: Nes, addr: u16| bus_kept(n, (#[trigger] n.read_spec(addr)).0),
        forall|n: Nes, addr: u16, data: u8| bus_kept(n, #[trigger] n.write_spec(addr, data)),
{
    assert forall|n: Nes, addr: u16| bus_kept(n, (#[trigger] n.read_spec(addr)).0) by {
        lemma_read_frame(n, addr);
        lemma_bus_keeps_ppu(n, addr, 0);
    }
    assert forall|n: Nes, addr: u16, data: u8| bus_kept(
        n,
        #[trigger] n.write_spec(addr, data),
    ) by {
        lemma_write_frame(n, addr, data);
        lemma_bus_keeps_ppu(n, addr, data);
    }
}

/// Every opcode that decodes has a micro-program.
pub proof fn lemma_decode_valid(opcode: u8)
    ensures
        decode_spec(opcode) matches Some((op, mode)) ==> valid_pair(op, mode) && op != Op::Idle,
{
}

/// What one cycle of a micro-program may do to the instruction in
/// flight: `after` is the same instruction in the same cycle, and it is
/// done exactly if `before` is in the last cycle that the data sheet and
/// the adjustments give it. The cycle has made one bus access.
pub open spec fn on_time(before: Nes, after: Nes) -> bool {
    let p = before.cpu.proc;
    let q = after.cpu.proc;
    let total = base_cycles(p.op, p.mode) + penalty(before);
    &&& q.op == p.op
    &&& q.mode == p.mode
    &&& q.cycle == p.cycle
    &&& q.done <==> p.cycle == total
    &&& total <= max_cycles(p.op, p.mode)
    &&& p.cycle == max_cycles(p.op, p.mode) ==> q.done
    &&& after.cpu.clock_divider == before.cpu.clock_divider
    &&& before.ppu.wf() ==> after.ppu.wf()
    &&& after.ppu.same_clock(before.ppu)
    &&& after.accesses == before.accesses.wrapping_add(1)
}

/// What one cycle of an addressing mode may do: the instruction in
/// flight is the same instruction in the same cycle and no more done
/// than before, and the operand's address is known exactly if `ready`.
/// The cycle has made one bus access, unless it has the address: then
/// the access is the instruction's.
pub open spec fn addressed(before: Nes, after: (Nes, Option<u16>), ready: bool) -> bool {
    let p = before.cpu.proc;
    let q = after.0.cpu.proc;
    &&& q.op == p.op
    &&& q.mode == p.mode
    &&& q.cycle == p.cycle
    &&& q.done == p.done
    &&& after.0.cpu.status == before.cpu.status
    &&& after.0.cpu.clock_divider == before.cpu.clock_divider
    &&& before.ppu.wf() ==> after.0.ppu.wf()
    &&& after.0.ppu.same_clock(before.ppu)
    &&& after.0.accesses == if ready {
        before.accesses
    } else {
        before.accesses.wrapping_add(1)
    }
    &&& after.1 is Some <==> ready
}

/// Whether the addressing mode of a reading instruction has the
/// operand's address in this cycle: in its `operand_cycle` unless the
/// index carries, and else in the cycle after.
pub open spec fn operand_ready(n: Nes) -> bool {
    let p = n.cpu.proc;
    if carries(p.mode) {
        (p.cycle == operand_cycle(p.mode) && p.tmp0 + index_of(n.cpu, p.mode) < 256) || p.cycle
            == operand_cycle(p.mode) + 1
    } else {
        p.cycle == operand_cycle(p.mode)
    }
}

/// What a cycle of the addressing mode of a reading or storing
/// instruction does to the instruction in flight.
proof fn lemma_effective_addr(n: Nes)
    requires
        is_operand_mode(n.cpu.proc.mode),
        2 <= n.cpu.proc.cycle <= operand_cycle(n.cpu.proc.mode) + bit(carries(n.cpu.proc.mode)),
    ensures
        addressed(n, effective_addr_spec(n), operand_ready(n)),
{
    reveal(effective_addr_spec);
    lemma_bus_frame();
}

/// What a cycle of the addressing mode of a modifying instruction does
/// to the instruction in flight.
proof fn lemma_read_modify_write(n: Nes)
    requires
        is_modify_mode(n.cpu.proc.mode),
        2 <= n.cpu.proc.cycle <= operand_cycle(n.cpu.proc.mode) + bit(carries(n.cpu.proc.mode)) + 2,
    ensures
        addressed(
            n,
            read_modify_write_spec(n),
            n.cpu.proc.cycle == operand_cycle(n.cpu.proc.mode) + bit(carries(n.cpu.proc.mode)) + 2,
        ),
{
    reveal(read_modify_write_spec);
    lemma_bus_frame();
}

/// An instruction that reads its operand is on time.
proof fn lemma_read_on_time(n: Nes)
    requires
        n.cpu.proc.wf(),
        !n.cpu.proc.done,
        kind_of(n.cpu.proc.op, n.cpu.proc.mode) == Kind::Read,
    ensures
        on_time(n, read_step(n, n.cpu.proc.op)),
{
    reveal(read_step);
    lemma_effective_addr(n);
    lemma_bus_frame();
}

/// An instruction that stores a register is on time.
proof fn lemma_store_on_time(n: Nes)
    requires
        n.cpu.proc.wf(),
        !n.cpu.proc.done,
        kind_of(n.cpu.proc.op, n.cpu.proc.mode) == Kind::Store,
    ensures
        on_time(n, store_step(n, n.cpu.proc.op)),
{
    reveal(store_step);
    lemma_effective_addr(n);
    lemma_bus_frame();
}

/// An instruction that modifies its operand is on time.
proof fn lemma_modify_on_time(n: Nes)
    requires
        n.cpu.proc.wf(),
        !n.cpu.proc.done,
        kind_of(n.cpu.proc.op, n.cpu.proc.mode) == Kind::Modify,
    ensures
        on_time(n, modify_step(n, n.cpu.proc.op)),
{
    reveal(modify_step);
    lemma_read_modify_write(n);
    lemma_bus_frame();
}

/// An instruction that has no operand in memory is on time.
proof fn lemma_implied_on_time(n: Nes)
    requires
        n.cpu.proc.wf(),
        !n.cpu.proc.done,
        kind_of(n.cpu.proc.op, n.cpu.proc.mode) == Kind::Implied,
    ensures
        on_time(n, implied_step(n, n.cpu.proc.op)),
{
    reveal(implied_step);
    lemma_bus_frame();
}

/// An instruction that branches is on time.
proof fn lemma_branch_on_time(n: Nes)
    requires
        n.cpu.proc.wf(),
        !n.cpu.proc.done,
        kind_of(n.cpu.proc.op, n.cpu.proc.mode) == Kind::Branch,
    ensures
        on_time(n, branch_spec(n, branch_taken(n.cpu.proc.op, n.cpu.status))),
{
    reveal(branch_spec);
    lemma_bus_frame();
}

/// An instruction that has a sequence of its own is on time.
proof fn lemma_sequence_on_time(n: Nes)
    requires
        n.cpu.proc.wf(),
        !n.cpu.proc.done,
        kind_of(n.cpu.proc.op, n.cpu.proc.mode) == Kind::Sequence,
    ensures
        on_time(n, InstructionProcedure::execute_spec(n)),
{
    reveal(interrupt_spec);
    reveal(jmp_spec);
    reveal(jsr_spec);
    reveal(rts_spec);
    reveal(rti_spec);
    reveal(push_step);
    reveal(pla_spec);
    reveal(plp_spec);
    lemma_bus_frame();
}

/// Every instruction takes the cycles that the data sheet gives it, and
/// one more where an index or a taken branch crosses a page, or a branch
/// is taken: the cycle in which its micro-program marks it done is cycle
/// `base_cycles + penalty`. No micro-program runs on beyond
/// `max_cycles`.
pub proof fn lemma_timing(n: Nes)
    requires
        n.cpu.proc.wf(),
        !n.cpu.proc.done,
    ensures
        on_time(n, InstructionProcedure::execute_spec(n)),
        InstructionProcedure::step_spec(n).cpu.proc.wf(),
{
    match kind_of(n.cpu.proc.op, n.cpu.proc.mode) {
        Kind::Idle => {},
        Kind::Read => lemma_read_on_time(n),
        Kind::Store => lemma_store_on_time(n),
        Kind::Modify => lemma_modify_on_time(n),
        Kind::Implied => lemma_implied_on_time(n),
        Kind::Branch => lemma_branch_on_time(n),
        Kind::Sequence => lemma_sequence_on_time(n),
    }
}

/// No flag that an instruction sets or clears is bit 5, and a pull
/// sets it.
proof fn lemma_bit_5_stays()
    ensures
        forall|status: StatusReg, mask: u8, on: bool|
            is_flag(mask) && mask != UNUSED && status.has(UNUSED) ==> (#[trigger] status.with(
                mask,
                on,
            )).has(UNUSED),
        forall|byte: u8| (#[trigger] StatusReg::pulled(byte)).has(UNUSED),
{
    assert forall|status: StatusReg, mask: u8, on: bool|
        is_flag(mask) && mask != UNUSED && status.has(UNUSED) implies (#[trigger] status.with(
        mask,
        on,
    )).has(UNUSED) by {
        lemma_flag_update(status, mask, on, UNUSED);
    }
    assert forall|byte: u8| (#[trigger] StatusReg::pulled(byte)).has(UNUSED) by {
        lemma_pulled_bits(byte);
    }
}

/// An instruction that reads or stores keeps bit 5.
proof fn lemma_read_keeps_bit_5(n: Nes)
    requires
        n.cpu.status.has(UNUSED),
        is_operand_mode(n.cpu.proc.mode),
        2 <= n.cpu.proc.cycle <= operand_cycle(n.cpu.proc.mode) + bit(carries(n.cpu.proc.mode)),
    ensures
        read_step(n, n.cpu.proc.op).cpu.status.has(UNUSED),
        store_step(n, n.cpu.proc.op).cpu.status.has(UNUSED),
{
    reveal(read_step);
    reveal(store_step);
    lemma_effective_addr(n);
    lemma_bus_frame();
    lemma_bit_5_stays();
}

/// An instruction that modifies its operand keeps bit 5.
proof fn lemma_modify_keeps_bit_5(n: Nes)
    requires
        n.cpu.status.has(UNUSED),
        is_modify_mode(n.cpu.proc.mode),
        2 <= n.cpu.proc.cycle <= operand_cycle(n.cpu.proc.mode) + bit(carries(n.cpu.proc.mode)) + 2,
    ensures
        modify_step(n, n.cpu.proc.op).cpu.status.has(UNUSED),
{
    reveal(modify_step);
    lemma_read_modify_write(n);
    lemma_bus_frame();
    lemma_bit_5_stays();
}

/// An instruction without an operand in memory keeps bit 5.
proof fn lemma_implied_keeps_bit_5(n: Nes)
    requires
        n.cpu.status.has(UNUSED),
    ensures
        implied_step(n, n.cpu.proc.op).cpu.status.has(UNUSED),
{
    reveal(implied_step);
    lemma_bus_frame();
    lemma_bit_5_stays();
}

/// A branch, a jump, a stack instruction and an interrupt sequence keep
/// bit 5.
proof fn lemma_sequence_keeps_bit_5(n: Nes)
    requires
        n.cpu.status.has(UNUSED),
        kind_of(n.cpu.proc.op, n.cpu.proc.mode) == Kind::Sequence || kind_of(
            n.cpu.proc.op,
            n.cpu.proc.mode,
        ) == Kind::Branch,
    ensures
        InstructionProcedure::execute_spec(n).cpu.status.has(UNUSED),
{
    reveal(branch_spec);
    reveal(interrupt_spec);
    reveal(jmp_spec);
    reveal(jsr_spec);
    reveal(rts_spec);
    reveal(rti_spec);
    reveal(push_step);
    reveal(pla_spec);
    reveal(plp_spec);
    lemma_bus_frame();
    lemma_bit_5_stays();
}

/// Bit 5 of the status, once set, stays set through every cycle of
/// every instruction; the reset sequence sets it.
pub proof fn lemma_bit_5(n: Nes)
    requires
        n.cpu.proc.wf(),
    ensures
        n.cpu.status.has(UNUSED) ==> Cpu::cycle_spec(n).cpu.status.has(UNUSED),
        Cpu::reset_spec(n).cpu.status.has(UNUSED),
{
    lemma_bus_frame();
    assert(StatusReg::reset_value().has(UNUSED)) by {
        assert(0b0011_0100u8 & 0b0010_0000u8 != 0) by (bit_vector);
    }
    if n.cpu.status.has(UNUSED) && n.cpu.rdy && n.fault is None {
        let n0 = n.with_cpu(n.cpu.polled());
        if !n0.cpu.proc.done {
            match kind_of(n0.cpu.proc.op, n0.cpu.proc.mode) {
                Kind::Idle => {},
                Kind::Read | Kind::Store => lemma_read_keeps_bit_5(n0),
                Kind::Modify => lemma_modify_keeps_bit_5(n0),
                Kind::Implied => lemma_implied_keeps_bit_5(n0),
                _ => lemma_sequence_keeps_bit_5(n0),
            }
        }
    }
}

/// The operand of an indexed mode is at the base address plus the
/// index, modulo 2^16: the cycle that adds the index to the low byte has
/// that address if the sum does not leave the page, and else the cycle
/// after it has.
pub proof fn lemma_indexed_address(n: Nes, index: u8)
    ensures
        ({
            let p = n.cpu.proc;
            let operand = (concat_spec(p.tmp1, p.tmp0) + index) % 0x1_0000;
            let (after, addr) = indexed_spec(n, index);
            if p.tmp0 + index < 256 {
                addr == Some(operand as u16)
            } else {
                addr is None && carried_spec(after) == operand
            }
        }),
{
    lemma_bus_frame();
}

/// In the cycle in which an indexed mode adds its index, an instruction
/// that reads ends exactly if the index does not carry into the high
/// byte; one that stores or modifies never ends there, carry or not.
pub proof fn lemma_page_cross(n: Nes)
    requires
        n.cpu.proc.wf(),
        !n.cpu.proc.done,
        carries(n.cpu.proc.mode),
        n.cpu.proc.cycle == operand_cycle(n.cpu.proc.mode),
    ensures
        ({
            let p = n.cpu.proc;
            let done = InstructionProcedure::execute_spec(n).cpu.proc.done;
            match kind_of(p.op, p.mode) {
                Kind::Read => done <==> p.tmp0 + index_of(n.cpu, p.mode) < 256,
                Kind::Store | Kind::Modify => !done,
                _ => true,
            }
        }),
{
    lemma_timing(n);
}

} // verus!
