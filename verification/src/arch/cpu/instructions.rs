use vstd::prelude::*;
use crate::arch::cpu::addressing::effective_addr;
use crate::arch::cpu::addressing::effective_addr_spec;
use crate::arch::cpu::addressing::is_modify_mode;
use crate::arch::cpu::addressing::is_operand_mode;
use crate::arch::cpu::addressing::read_modify_write;
use crate::arch::cpu::addressing::read_modify_write_spec;
use crate::arch::cpu::alu::add_with_carry;
use crate::arch::cpu::alu::asl_spec;
use crate::arch::cpu::alu::compare;
use crate::arch::cpu::alu::compare_spec;
use crate::arch::cpu::alu::difference_spec;
use crate::arch::cpu::alu::lsr_spec;
use crate::arch::cpu::alu::rol_spec;
use crate::arch::cpu::alu::ror_spec;
use crate::arch::cpu::alu::rotate_left;
use crate::arch::cpu::alu::rotate_right;
use crate::arch::cpu::alu::shift_left;
use crate::arch::cpu::alu::shift_right;
use crate::arch::cpu::alu::subtract_with_borrow;
use crate::arch::cpu::alu::sum_spec;
use crate::arch::cpu::alu::Compared;
use crate::arch::cpu::alu::Shifted;
use crate::arch::cpu::alu::Sum;
use crate::arch::cpu::status::StatusReg;
use crate::arch::cpu::status::CARRY;
use crate::arch::cpu::status::DECIMAL;
use crate::arch::cpu::status::INTERRUPT_DISABLE;
use crate::arch::cpu::status::NEGATIVE;
use crate::arch::cpu::status::OVERFLOW;
use crate::arch::cpu::status::ZERO;
use crate::arch::cpu::AddrMode;
use crate::arch::cpu::Cpu;
use crate::arch::cpu::Op;
use crate::arch::Nes;

verus! {

/// The status after an addition or a subtraction: C and V from the sum,
/// Z and N from its value.
pub open spec fn status_of_sum(status: StatusReg, sum: Sum) -> StatusReg {
    status.with(CARRY, sum.carry).with(OVERFLOW, sum.overflow).with_zn(sum.value)
}

/// The status after a comparison.
pub open spec fn status_of_comparison(status: StatusReg, c: Compared) -> StatusReg {
    status.with(CARRY, c.carry).with(ZERO, c.zero).with(NEGATIVE, c.negative)
}

/// The CPU with `value` in the accumulator, and Z and N of it.
pub open spec fn loaded_acc(cpu: Cpu, value: u8) -> Cpu {
    Cpu { acc: value, status: cpu.status.with_zn(value), ..cpu }
}

/// The CPU with `value` in X, and Z and N of it.
pub open spec fn loaded_x(cpu: Cpu, value: u8) -> Cpu {
    Cpu { x: value, status: cpu.status.with_zn(value), ..cpu }
}

/// The CPU with `value` in Y, and Z and N of it.
pub open spec fn loaded_y(cpu: Cpu, value: u8) -> Cpu {
    Cpu { y: value, status: cpu.status.with_zn(value), ..cpu }
}

/// The CPU after `A + m + C`.
pub open spec fn added(cpu: Cpu, m: u8) -> Cpu {
    let sum = sum_spec(cpu.acc, m, cpu.status.has(CARRY));
    Cpu { acc: sum.value, status: status_of_sum(cpu.status, sum), ..cpu }
}

/// The CPU after `A - m - (1 - C)`.
pub open spec fn subtracted(cpu: Cpu, m: u8) -> Cpu {
    let sum = difference_spec(cpu.acc, m, cpu.status.has(CARRY));
    Cpu { acc: sum.value, status: status_of_sum(cpu.status, sum), ..cpu }
}

/// The CPU after the comparison of `register` with `m`.
pub open spec fn compared(cpu: Cpu, register: u8, m: u8) -> Cpu {
    Cpu { status: status_of_comparison(cpu.status, compare_spec(register, m)), ..cpu }
}

/// The registers after an instruction that reads its operand has read
/// the byte `m`.
pub open spec fn read_result(op: Op, cpu: Cpu, m: u8) -> Cpu {
    match op {
        Op::Adc => added(cpu, m),
        Op::Sbc => subtracted(cpu, m),
        Op::And => loaded_acc(cpu, cpu.acc & m),
        Op::Ora => loaded_acc(cpu, cpu.acc | m),
        Op::Eor => loaded_acc(cpu, cpu.acc ^ m),
        Op::Bit => Cpu {
            status: cpu.status.with(ZERO, m & cpu.acc == 0).with(OVERFLOW, m & 0x40 != 0).with(
                NEGATIVE,
                m >= 0x80,
            ),
            ..cpu
        },
        Op::Cmp => compared(cpu, cpu.acc, m),
        Op::Cpx => compared(cpu, cpu.x, m),
        Op::Cpy => compared(cpu, cpu.y, m),
        Op::Lda => loaded_acc(cpu, m),
        Op::Ldx => loaded_x(cpu, m),
        Op::Ldy => loaded_y(cpu, m),
        Op::Lax => Cpu { acc: m, x: m, status: cpu.status.with_zn(m), ..cpu },
        Op::Las => Cpu {
            acc: m & cpu.sp,
            x: m & cpu.sp,
            sp: m & cpu.sp,
            status: cpu.status.with_zn(m & cpu.sp),
            ..cpu
        },
        _ => cpu,
    }
}

/// The byte that a store instruction writes.
pub open spec fn store_value(op: Op, cpu: Cpu) -> u8 {
    match op {
        Op::Sta => cpu.acc,
        Op::Stx => cpu.x,
        Op::Sty => cpu.y,
        Op::Sax => cpu.acc & cpu.x,
        _ => 0,
    }
}

/// The CPU after a shift or rotation whose result goes to memory: C from
/// the bit that left, Z and N from the result.
pub open spec fn shifted_memory(cpu: Cpu, s: Shifted) -> (Cpu, u8) {
    (Cpu { status: cpu.status.with(CARRY, s.carry).with_zn(s.value), ..cpu }, s.value)
}

/// The registers after an instruction that modifies its operand, which
/// held `m`, and the byte that it writes back.
///
/// The undocumented ones do what the documented one does to memory and
/// then combine the result with the accumulator: `SLO` is `ASL` then
/// `ORA`, `RLA` is `ROL` then `AND`, `SRE` is `LSR` then `EOR`, `RRA` is
/// `ROR` then `ADC`, `DCP` is `DEC` then `CMP`, `ISB` is `INC` then `SBC`.
pub open spec fn modify_result(op: Op, cpu: Cpu, m: u8) -> (Cpu, u8) {
    let carry = cpu.status.has(CARRY);
    match op {
        Op::Asl => shifted_memory(cpu, asl_spec(m)),
        Op::Lsr => shifted_memory(cpu, lsr_spec(m)),
        Op::Rol => shifted_memory(cpu, rol_spec(m, carry)),
        Op::Ror => shifted_memory(cpu, ror_spec(m, carry)),
        Op::Inc => (Cpu { status: cpu.status.with_zn(m.wrapping_add(1)), ..cpu }, m.wrapping_add(1)),
        Op::Dec => (Cpu { status: cpu.status.with_zn(m.wrapping_sub(1)), ..cpu }, m.wrapping_sub(1)),
        Op::Slo => {
            let s = asl_spec(m);
            let c = Cpu { status: cpu.status.with(CARRY, s.carry), ..cpu };
            (loaded_acc(c, c.acc | s.value), s.value)
        },
        Op::Rla => {
            let s = rol_spec(m, carry);
            let c = Cpu { status: cpu.status.with(CARRY, s.carry), ..cpu };
            (loaded_acc(c, c.acc & s.value), s.value)
        },
        Op::Sre => {
            let s = lsr_spec(m);
            let c = Cpu { status: cpu.status.with(CARRY, s.carry), ..cpu };
            (loaded_acc(c, c.acc ^ s.value), s.value)
        },
        Op::Rra => {
            let s = ror_spec(m, carry);
            let c = Cpu { status: cpu.status.with(CARRY, s.carry), ..cpu };
            (added(c, s.value), s.value)
        },
        Op::Dcp => (compared(cpu, cpu.acc, m.wrapping_sub(1)), m.wrapping_sub(1)),
        Op::Isb => (subtracted(cpu, m.wrapping_add(1)), m.wrapping_add(1)),
        _ => (cpu, m),
    }
}

/// The CPU after a shift or rotation of the accumulator.
pub open spec fn shifted_acc(cpu: Cpu, s: Shifted) -> Cpu {
    Cpu { acc: s.value, status: cpu.status.with(CARRY, s.carry).with_zn(s.value), ..cpu }
}

/// The registers after an instruction without an operand in memory.
pub open spec fn implied_result(op: Op, cpu: Cpu) -> Cpu {
    match op {
        Op::Clc => Cpu { status: cpu.status.with(CARRY, false), ..cpu },
        Op::Cld => Cpu { status: cpu.status.with(DECIMAL, false), ..cpu },
        Op::Cli => Cpu { status: cpu.status.with(INTERRUPT_DISABLE, false), ..cpu },
        Op::Clv => Cpu { status: cpu.status.with(OVERFLOW, false), ..cpu },
        Op::Sec => Cpu { status: cpu.status.with(CARRY, true), ..cpu },
        Op::Sed => Cpu { status: cpu.status.with(DECIMAL, true), ..cpu },
        Op::Sei => Cpu { status: cpu.status.with(INTERRUPT_DISABLE, true), ..cpu },
        Op::Dex => loaded_x(cpu, cpu.x.wrapping_sub(1)),
        Op::Dey => loaded_y(cpu, cpu.y.wrapping_sub(1)),
        Op::Inx => loaded_x(cpu, cpu.x.wrapping_add(1)),
        Op::Iny => loaded_y(cpu, cpu.y.wrapping_add(1)),
        Op::Tax => loaded_x(cpu, cpu.acc),
        Op::Tay => loaded_y(cpu, cpu.acc),
        Op::Tsx => loaded_x(cpu, cpu.sp),
        Op::Txa => loaded_acc(cpu, cpu.x),
        Op::Tya => loaded_acc(cpu, cpu.y),
        Op::Txs => Cpu { sp: cpu.x, ..cpu },
        Op::Asl => shifted_acc(cpu, asl_spec(cpu.acc)),
        Op::Lsr => shifted_acc(cpu, lsr_spec(cpu.acc)),
        Op::Rol => shifted_acc(cpu, rol_spec(cpu.acc, cpu.status.has(CARRY))),
        Op::Ror => shifted_acc(cpu, ror_spec(cpu.acc, cpu.status.has(CARRY))),
        _ => cpu,
    }
}

/// One cycle of an instruction that reads its operand: the addressing
/// mode runs, and in the cycle in which it names the operand the
/// instruction reads it, takes its effect on the registers, and is done.
#[verifier::opaque]
pub open spec fn read_step(n: Nes, op: Op) -> Nes {
    let (n1, ea) = effective_addr_spec(n);
    match ea {
        Some(addr) => {
            let (n2, data) = n1.read_spec(addr);
            n2.with_cpu(read_result(op, n2.cpu, data)).finished()
        },
        None => n1,
    }
}

/// Whether a store has to wait one more cycle although the address is
/// known: in an indexed mode the cycle that could add a carry is spent
/// even when there is none.
pub open spec fn store_waits(n: Nes) -> bool {
    let p = n.cpu.proc;
    ((p.mode == AddrMode::AbsoluteX || p.mode == AddrMode::AbsoluteY) && p.cycle == 4) || (p.mode
        == AddrMode::IndirectY && p.cycle == 5)
}

/// One cycle of an instruction that stores a register: the addressing
/// mode runs, and in the cycle in which it names the operand the
/// instruction writes and is done, or reads at the address and waits.
#[verifier::opaque]
pub open spec fn store_step(n: Nes, op: Op) -> Nes {
    let (n1, ea) = effective_addr_spec(n);
    match ea {
        Some(addr) => if store_waits(n1) {
            n1.after_read(addr)
        } else {
            n1.write_spec(addr, store_value(op, n1.cpu)).finished()
        },
        None => n1,
    }
}

/// One cycle of an instruction that modifies its operand: the
/// addressing mode runs, reads the operand and writes it back; in the
/// cycle after that the instruction takes its effect on the registers,
/// writes the new byte, and is done.
#[verifier::opaque]
pub open spec fn modify_step(n: Nes, op: Op) -> Nes {
    let (n1, ea) = read_modify_write_spec(n);
    match ea {
        Some(addr) => {
            let (cpu, value) = modify_result(op, n1.cpu, n1.cpu.proc.tmp0);
            n1.with_cpu(cpu).with_tmp0(value).write_spec(addr, value).finished()
        },
        None => n1,
    }
}

/// One cycle of an instruction without an operand in memory: in cycle 2
/// it takes its effect, reads the byte at the program counter, and is
/// done.
#[verifier::opaque]
pub open spec fn implied_step(n: Nes, op: Op) -> Nes {
    if n.cpu.proc.cycle == 2 {
        n.with_cpu(implied_result(op, n.cpu)).after_read(n.cpu.pc).finished()
    } else {
        n
    }
}

/// Puts a sum into the accumulator and the flags.
fn take_sum(nes: &mut Nes, sum: Sum)
    ensures
        *final(nes) == old(nes).with_cpu(
            Cpu { acc: sum.value, status: status_of_sum(old(nes).cpu.status, sum), ..old(nes).cpu },
        ),
{
    nes.cpu.status.set(CARRY, sum.carry);
    nes.cpu.status.set(OVERFLOW, sum.overflow);
    nes.cpu.status.set_zn(sum.value);
    nes.cpu.acc = sum.value;
}

/// Puts a comparison into the flags.
fn take_comparison(nes: &mut Nes, c: Compared)
    ensures
        *final(nes) == old(nes).with_cpu(
            Cpu { status: status_of_comparison(old(nes).cpu.status, c), ..old(nes).cpu },
        ),
{
    nes.cpu.status.set(CARRY, c.carry);
    nes.cpu.status.set(ZERO, c.zero);
    nes.cpu.status.set(NEGATIVE, c.negative);
}

/// Puts a byte into the accumulator and sets Z and N from it.
fn load_acc(nes: &mut Nes, value: u8)
    ensures
        *final(nes) == old(nes).with_cpu(loaded_acc(old(nes).cpu, value)),
{
    nes.cpu.acc = value;
    nes.cpu.status.set_zn(value);
}

/// Puts a byte into X and sets Z and N from it.
fn load_x(nes: &mut Nes, value: u8)
    ensures
        *final(nes) == old(nes).with_cpu(loaded_x(old(nes).cpu, value)),
{
    nes.cpu.x = value;
    nes.cpu.status.set_zn(value);
}

/// Puts a byte into Y and sets Z and N from it.
fn load_y(nes: &mut Nes, value: u8)
    ensures
        *final(nes) == old(nes).with_cpu(loaded_y(old(nes).cpu, value)),
{
    nes.cpu.y = value;
    nes.cpu.status.set_zn(value);
}

pub(crate) fn adc(nes: &mut Nes)
    requires
        is_operand_mode(old(nes).cpu.proc.mode),
    ensures
        *final(nes) == read_step(*old(nes), Op::Adc),
{
    proof {
        reveal(read_step);
    }
    if let Some(addr) = effective_addr(nes) {
        let data = nes.read(addr);

        let sum = add_with_carry(nes.cpu.acc, data, nes.cpu.status.contains(CARRY));
        take_sum(nes, sum);

        nes.cpu.proc.done = true;
    }
}

pub(crate) fn and(nes: &mut Nes)
    requires
        is_operand_mode(old(nes).cpu.proc.mode),
    ensures
        *final(nes) == read_step(*old(nes), Op::And),
{
    proof {
        reveal(read_step);
    }
    if let Some(addr) = effective_addr(nes) {
        let data = nes.read(addr);
        load_acc(nes, nes.cpu.acc & data);

        nes.cpu.proc.done = true;
    }
}

pub(crate) fn bit(nes: &mut Nes)
    requires
        is_operand_mode(old(nes).cpu.proc.mode),
    ensures
        *final(nes) == read_step(*old(nes), Op::Bit),
{
    proof {
        reveal(read_step);
    }
    if let Some(addr) = effective_addr(nes) {
        let tmp = nes.read(addr);

        nes.cpu.status.set(ZERO, tmp & nes.cpu.acc == 0);
        nes.cpu.status.set(OVERFLOW, tmp & 0x40 != 0);
        nes.cpu.status.set(NEGATIVE, tmp >= 0x80);

        nes.cpu.proc.done = true;
    }
}

pub(crate) fn cmp(nes: &mut Nes)
    requires
        is_operand_mode(old(nes).cpu.proc.mode),
    ensures
        *final(nes) == read_step(*old(nes), Op::Cmp),
{
    proof {
        reveal(read_step);
    }
    if let Some(addr) = effective_addr(nes) {
        let data = nes.read(addr);
        take_comparison(nes, compare(nes.cpu.acc, data));

        nes.cpu.proc.done = true;
    }
}

pub(crate) fn cpx(nes: &mut Nes)
    requires
        is_operand_mode(old(nes).cpu.proc.mode),
    ensures
        *final(nes) == read_step(*old(nes), Op::Cpx),
{
    proof {
        reveal(read_step);
    }
    if let Some(addr) = effective_addr(nes) {
        let data = nes.read(addr);
        take_comparison(nes, compare(nes.cpu.x, data));

        nes.cpu.proc.done = true;
    }
}

pub(crate) fn cpy(nes: &mut Nes)
    requires
        is_operand_mode(old(nes).cpu.proc.mode),
    ensures
        *final(nes) == read_step(*old(nes), Op::Cpy),
{
    proof {
        reveal(read_step);
    }
    if let Some(addr) = effective_addr(nes) {
        let data = nes.read(addr);
        take_comparison(nes, compare(nes.cpu.y, data));

        nes.cpu.proc.done = true;
    }
}

pub(crate) fn eor(nes: &mut Nes)
    requires
        is_operand_mode(old(nes).cpu.proc.mode),
    ensures
        *final(nes) == read_step(*old(nes), Op::Eor),
{
    proof {
        reveal(read_step);
    }
    if let Some(addr) = effective_addr(nes) {
        let data = nes.read(addr);
        load_acc(nes, nes.cpu.acc ^ data);

        nes.cpu.proc.done = true;
    }
}

pub(crate) fn las(nes: &mut Nes)
    requires
        is_operand_mode(old(nes).cpu.proc.mode),
    ensures
        *final(nes) == read_step(*old(nes), Op::Las),
{
    proof {
        reveal(read_step);
    }
    if let Some(addr) = effective_addr(nes) {
        let tmp = nes.read(addr) & nes.cpu.sp;
        nes.cpu.acc = tmp;
        nes.cpu.x = tmp;
        nes.cpu.sp = tmp;

        nes.cpu.status.set_zn(tmp);

        nes.cpu.proc.done = true;
    }
}

pub(crate) fn lax(nes: &mut Nes)
    requires
        is_operand_mode(old(nes).cpu.proc.mode),
    ensures
        *final(nes) == read_step(*old(nes), Op::Lax),
{
    proof {
        reveal(read_step);
    }
    if let Some(addr) = effective_addr(nes) {
        let tmp = nes.read(addr);
        nes.cpu.acc = tmp;
        nes.cpu.x = tmp;

        nes.cpu.status.set_zn(tmp);

        nes.cpu.proc.done = true;
    }
}

pub(crate) fn lda(nes: &mut Nes)
    requires
        is_operand_mode(old(nes).cpu.proc.mode),
    ensures
        *final(nes) == read_step(*old(nes), Op::Lda),
{
    proof {
        reveal(read_step);
    }
    if let Some(addr) = effective_addr(nes) {
        let data = nes.read(addr);
        load_acc(nes, data);

        nes.cpu.proc.done = true;
    }
}

pub(crate) fn ldx(nes: &mut Nes)
    requires
        is_operand_mode(old(nes).cpu.proc.mode),
    ensures
        *final(nes) == read_step(*old(nes), Op::Ldx),
{
    proof {
        reveal(read_step);
    }
    if let Some(addr) = effective_addr(nes) {
        let data = nes.read(addr);
        load_x(nes, data);

        nes.cpu.proc.done = true;
    }
}

pub(crate) fn ldy(nes: &mut Nes)
    requires
        is_operand_mode(old(nes).cpu.proc.mode),
    ensures
        *final(nes) == read_step(*old(nes), Op::Ldy),
{
    proof {
        reveal(read_step);
    }
    if let Some(addr) = effective_addr(nes) {
        let data = nes.read(addr);
        load_y(nes, data);

        nes.cpu.proc.done = true;
    }
}

pub(crate) fn nop(nes: &mut Nes)
    requires
        old(nes).cpu.proc.mode == AddrMode::Implied || is_operand_mode(old(nes).cpu.proc.mode),
    ensures
        *final(nes) == if old(nes).cpu.proc.mode == AddrMode::Implied {
            implied_step(*old(nes), Op::Nop)
        } else {
            read_step(*old(nes), Op::Nop)
        },
{
    proof {
        reveal(implied_step);
        reveal(read_step);
    }
    if nes.cpu.proc.mode == AddrMode::Implied {
        if nes.cpu.proc.cycle == 2 {
            nes.read(nes.cpu.pc);
            nes.cpu.proc.done = true;
        }
    } else if let Some(addr) = effective_addr(nes) {
        nes.read(addr);
        nes.cpu.proc.done = true;
    }
}

pub(crate) fn ora(nes: &mut Nes)
    requires
        is_operand_mode(old(nes).cpu.proc.mode),
    ensures
        *final(nes) == read_step(*old(nes), Op::Ora),
{
    proof {
        reveal(read_step);
    }
    if let Some(addr) = effective_addr(nes) {
        let data = nes.read(addr);
        load_acc(nes, nes.cpu.acc | data);

        nes.cpu.proc.done = true;
    }
}

pub(crate) fn sbc(nes: &mut Nes)
    requires
        is_operand_mode(old(nes).cpu.proc.mode),
    ensures
        *final(nes) == read_step(*old(nes), Op::Sbc),
{
    proof {
        reveal(read_step);
    }
    if let Some(addr) = effective_addr(nes) {
        let data = nes.read(addr);

        let sum = subtract_with_borrow(nes.cpu.acc, data, nes.cpu.status.contains(CARRY));
        take_sum(nes, sum);

        nes.cpu.proc.done = true;
    }
}

/// The cycle in which a store instruction has the operand's address:
/// write `value` and be done, or wait as `store_waits` says.
fn store(nes: &mut Nes, addr: u16, value: u8)
    ensures
        *final(nes) == if store_waits(*old(nes)) {
            old(nes).after_read(addr)
        } else {
            old(nes).write_spec(addr, value).finished()
        },
{
    if ((nes.cpu.proc.mode == AddrMode::AbsoluteX || nes.cpu.proc.mode == AddrMode::AbsoluteY)
        && nes.cpu.proc.cycle == 4) || (nes.cpu.proc.mode == AddrMode::IndirectY
        && nes.cpu.proc.cycle == 5) {
        nes.read(addr);
        return ;  // consume extra cycle write-instruction using AbsoluteX, AbsoluteY, or IndirectY
    }
    nes.write(addr, value);

    nes.cpu.proc.done = true;
}

pub(crate) fn sax(nes: &mut Nes)
    requires
        is_operand_mode(old(nes).cpu.proc.mode),
    ensures
        *final(nes) == store_step(*old(nes), Op::Sax),
{
    proof {
        reveal(store_step);
    }
    if let Some(addr) = effective_addr(nes) {
        store(nes, addr, nes.cpu.acc & nes.cpu.x);
    }
}

pub(crate) fn sta(nes: &mut Nes)
    requires
        is_operand_mode(old(nes).cpu.proc.mode),
    ensures
        *final(nes) == store_step(*old(nes), Op::Sta),
{
    proof {
        reveal(store_step);
    }
    if let Some(addr) = effective_addr(nes) {
        store(nes, addr, nes.cpu.acc);
    }
}

pub(crate) fn stx(nes: &mut Nes)
    requires
        is_operand_mode(old(nes).cpu.proc.mode),
    ensures
        *final(nes) == store_step(*old(nes), Op::Stx),
{
    proof {
        reveal(store_step);
    }
    if let Some(addr) = effective_addr(nes) {
        store(nes, addr, nes.cpu.x);
    }
}

pub(crate) fn sty(nes: &mut Nes)
    requires
        is_operand_mode(old(nes).cpu.proc.mode),
    ensures
        *final(nes) == store_step(*old(nes), Op::Sty),
{
    proof {
        reveal(store_step);
    }
    if let Some(addr) = effective_addr(nes) {
        store(nes, addr, nes.cpu.y);
    }
}

/// The last cycle of an instruction that modifies its operand: the new
/// byte goes to the first scratch byte and to memory.
fn write_back(nes: &mut Nes, addr: u16, value: u8)
    ensures
        *final(nes) == old(nes).with_tmp0(value).write_spec(addr, value).finished(),
{
    nes.cpu.proc.tmp0 = value;
    nes.write(addr, value);

    nes.cpu.proc.done = true;
}

/// The cycle of an instruction without an operand in memory, after its
/// effect: a read at the program counter.
pub(crate) fn finish_implied(nes: &mut Nes)
    ensures
        *final(nes) == old(nes).after_read(old(nes).cpu.pc).finished(),
{
    nes.read(nes.cpu.pc);
    nes.cpu.proc.done = true;
}

/// Puts a shifted byte into the accumulator and the flags, and ends the
/// instruction.
fn shift_acc(nes: &mut Nes, s: Shifted)
    ensures
        *final(nes) == old(nes).with_cpu(shifted_acc(old(nes).cpu, s)).after_read(
            old(nes).cpu.pc,
        ).finished(),
{
    nes.cpu.status.set(CARRY, s.carry);
    nes.cpu.acc = s.value;
    nes.cpu.status.set_zn(s.value);

    finish_implied(nes);
}

/// Puts the flags of a shifted byte in place and writes the byte back.
fn shift_memory(nes: &mut Nes, addr: u16, s: Shifted)
    ensures
        *final(nes) == old(nes).with_cpu(shifted_memory(old(nes).cpu, s).0).with_tmp0(
            s.value,
        ).write_spec(addr, s.value).finished(),
{
    nes.cpu.status.set(CARRY, s.carry);
    nes.cpu.status.set_zn(s.value);
    write_back(nes, addr, s.value);
}

pub(crate) fn asl(nes: &mut Nes)
    requires
        old(nes).cpu.proc.mode == AddrMode::Accumulator || is_modify_mode(old(nes).cpu.proc.mode),
    ensures
        *final(nes) == if old(nes).cpu.proc.mode == AddrMode::Accumulator {
            implied_step(*old(nes), Op::Asl)
        } else {
            modify_step(*old(nes), Op::Asl)
        },
{
    proof {
        reveal(implied_step);
        reveal(modify_step);
    }
    match nes.cpu.proc.mode {
        AddrMode::Accumulator => {
            match nes.cpu.proc.cycle {
                2 => shift_acc(nes, shift_left(nes.cpu.acc)),
                _ => (),
            }
        },
        _ => {
            if let Some(addr) = read_modify_write(nes) {
                shift_memory(nes, addr, shift_left(nes.cpu.proc.tmp0));
            }
        },
    }
}

pub(crate) fn lsr(nes: &mut Nes)
    requires
        old(nes).cpu.proc.mode == AddrMode::Accumulator || is_modify_mode(old(nes).cpu.proc.mode),
    ensures
        *final(nes) == if old(nes).cpu.proc.mode == AddrMode::Accumulator {
            implied_step(*old(nes), Op::Lsr)
        } else {
            modify_step(*old(nes), Op::Lsr)
        },
{
    proof {
        reveal(implied_step);
        reveal(modify_step);
    }
    match nes.cpu.proc.mode {
        AddrMode::Accumulator => {
            match nes.cpu.proc.cycle {
                2 => shift_acc(nes, shift_right(nes.cpu.acc)),
                _ => (),
            }
        },
        _ => {
            if let Some(addr) = read_modify_write(nes) {
                shift_memory(nes, addr, shift_right(nes.cpu.proc.tmp0));
            }
        },
    }
}

pub(crate) fn rol(nes: &mut Nes)
    requires
        old(nes).cpu.proc.mode == AddrMode::Accumulator || is_modify_mode(old(nes).cpu.proc.mode),
    ensures
        *final(nes) == if old(nes).cpu.proc.mode == AddrMode::Accumulator {
            implied_step(*old(nes), Op::Rol)
        } else {
            modify_step(*old(nes), Op::Rol)
        },
{
    proof {
        reveal(implied_step);
        reveal(modify_step);
    }
    match nes.cpu.proc.mode {
        AddrMode::Accumulator => {
            match nes.cpu.proc.cycle {
                2 => {
                    let c = nes.cpu.status.contains(CARRY);
                    shift_acc(nes, rotate_left(nes.cpu.acc, c))
                },
                _ => (),
            }
        },
        _ => {
            if let Some(addr) = read_modify_write(nes) {
                let c = nes.cpu.status.contains(CARRY);
                shift_memory(nes, addr, rotate_left(nes.cpu.proc.tmp0, c));
            }
        },
    }
}

pub(crate) fn ror(nes: &mut Nes)
    requires
        old(nes).cpu.proc.mode == AddrMode::Accumulator || is_modify_mode(old(nes).cpu.proc.mode),
    ensures
        *final(nes) == if old(nes).cpu.proc.mode == AddrMode::Accumulator {
            implied_step(*old(nes), Op::Ror)
        } else {
            modify_step(*old(nes), Op::Ror)
        },
{
    proof {
        reveal(implied_step);
        reveal(modify_step);
    }
    match nes.cpu.proc.mode {
        AddrMode::Accumulator => {
            match nes.cpu.proc.cycle {
                2 => {
                    let c = nes.cpu.status.contains(CARRY);
                    shift_acc(nes, rotate_right(nes.cpu.acc, c))
                },
                _ => (),
            }
        },
        _ => {
            if let Some(addr) = read_modify_write(nes) {
                let c = nes.cpu.status.contains(CARRY);
                shift_memory(nes, addr, rotate_right(nes.cpu.proc.tmp0, c));
            }
        },
    }
}

pub(crate) fn dec(nes: &mut Nes)
    requires
        is_modify_mode(old(nes).cpu.proc.mode),
    ensures
        *final(nes) == modify_step(*old(nes), Op::Dec),
{
    proof {
        reveal(modify_step);
    }
    if let Some(addr) = read_modify_write(nes) {
        let value = nes.cpu.proc.tmp0.wrapping_sub(1);

        nes.cpu.status.set_zn(value);
        write_back(nes, addr, value);
    }
}

pub(crate) fn inc(nes: &mut Nes)
    requires
        is_modify_mode(old(nes).cpu.proc.mode),
    ensures
        *final(nes) == modify_step(*old(nes), Op::Inc),
{
    proof {
        reveal(modify_step);
    }
    if let Some(addr) = read_modify_write(nes) {
        let value = nes.cpu.proc.tmp0.wrapping_add(1);

        nes.cpu.status.set_zn(value);
        write_back(nes, addr, value);
    }
}

pub(crate) fn dcp(nes: &mut Nes)
    requires
        is_modify_mode(old(nes).cpu.proc.mode),
    ensures
        *final(nes) == modify_step(*old(nes), Op::Dcp),
{
    proof {
        reveal(modify_step);
    }
    if let Some(addr) = read_modify_write(nes) {
        let value = nes.cpu.proc.tmp0.wrapping_sub(1);

        take_comparison(nes, compare(nes.cpu.acc, value));
        write_back(nes, addr, value);
    }
}

pub(crate) fn isb(nes: &mut Nes)
    requires
        is_modify_mode(old(nes).cpu.proc.mode),
    ensures
        *final(nes) == modify_step(*old(nes), Op::Isb),
{
    proof {
        reveal(modify_step);
    }
    if let Some(addr) = read_modify_write(nes) {
        let value = nes.cpu.proc.tmp0.wrapping_add(1);

        let sum = subtract_with_borrow(nes.cpu.acc, value, nes.cpu.status.contains(CARRY));
        take_sum(nes, sum);

        write_back(nes, addr, value);
    }
}

pub(crate) fn slo(nes: &mut Nes)
    requires
        is_modify_mode(old(nes).cpu.proc.mode),
    ensures
        *final(nes) == modify_step(*old(nes), Op::Slo),
{
    proof {
        reveal(modify_step);
    }
    if let Some(addr) = read_modify_write(nes) {
        let s = shift_left(nes.cpu.proc.tmp0);
        nes.cpu.status.set(CARRY, s.carry);

        load_acc(nes, nes.cpu.acc | s.value);
        write_back(nes, addr, s.value);
    }
}

pub(crate) fn rla(nes: &mut Nes)
    requires
        is_modify_mode(old(nes).cpu.proc.mode),
    ensures
        *final(nes) == modify_step(*old(nes), Op::Rla),
{
    proof {
        reveal(modify_step);
    }
    if let Some(addr) = read_modify_write(nes) {
        let c = nes.cpu.status.contains(CARRY);
        let s = rotate_left(nes.cpu.proc.tmp0, c);
        nes.cpu.status.set(CARRY, s.carry);

        load_acc(nes, nes.cpu.acc & s.value);
        write_back(nes, addr, s.value);
    }
}

pub(crate) fn sre(nes: &mut Nes)
    requires
        is_modify_mode(old(nes).cpu.proc.mode),
    ensures
        *final(nes) == modify_step(*old(nes), Op::Sre),
{
    proof {
        reveal(modify_step);
    }
    if let Some(addr) = read_modify_write(nes) {
        let s = shift_right(nes.cpu.proc.tmp0);
        nes.cpu.status.set(CARRY, s.carry);

        load_acc(nes, nes.cpu.acc ^ s.value);
        write_back(nes, addr, s.value);
    }
}

pub(crate) fn rra(nes: &mut Nes)
    requires
        is_modify_mode(old(nes).cpu.proc.mode),
    ensures
        *final(nes) == modify_step(*old(nes), Op::Rra),
{
    proof {
        reveal(modify_step);
    }
    if let Some(addr) = read_modify_write(nes) {
        let c = nes.cpu.status.contains(CARRY);
        let s = rotate_right(nes.cpu.proc.tmp0, c);
        nes.cpu.status.set(CARRY, s.carry);

        let sum = add_with_carry(nes.cpu.acc, s.value, nes.cpu.status.contains(CARRY));
        take_sum(nes, sum);
        write_back(nes, addr, s.value);
    }
}

} // verus!
