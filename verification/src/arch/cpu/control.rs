use vstd::prelude::*;
use crate::arch::cpu::alu::addr_concat;
use crate::arch::cpu::alu::branch_target;
use crate::arch::cpu::alu::branch_to;
use crate::arch::cpu::alu::concat_spec;
use crate::arch::cpu::alu::high_byte;
use crate::arch::cpu::alu::low_byte;
use crate::arch::cpu::status::StatusReg;
use crate::arch::cpu::status::CARRY;
use crate::arch::cpu::status::INTERRUPT_DISABLE;
use crate::arch::cpu::status::NEGATIVE;
use crate::arch::cpu::status::OVERFLOW;
use crate::arch::cpu::status::ZERO;
use crate::arch::cpu::AddrMode;
use crate::arch::cpu::Cpu;
use crate::arch::cpu::Op;
use crate::arch::Nes;

verus! {

/// The vector of the non-maskable interrupt.
pub const NMI_VECTOR: u16 = 0xFFFA;

/// The vector of reset.
pub const RESET_VECTOR: u16 = 0xFFFC;

/// The vector of `BRK` and of the maskable interrupt.
pub const IRQ_VECTOR: u16 = 0xFFFE;

/// The high byte of an address.
pub open spec fn high(addr: u16) -> u8 {
    (addr / 256) as u8
}

/// The low byte of an address.
pub open spec fn low(addr: u16) -> u8 {
    (addr % 256) as u8
}

/// The address after `addr` within the page of `addr`: from the last
/// byte of a page it is the first byte of the same page.
pub open spec fn next_in_same_page(addr: u16) -> u16 {
    concat_spec(high(addr), low(addr).wrapping_add(1))
}

/// Whether a branch instruction branches under `status`.
pub open spec fn branch_taken(op: Op, status: StatusReg) -> bool {
    match op {
        Op::Bcc => !status.has(CARRY),
        Op::Bcs => status.has(CARRY),
        Op::Beq => status.has(ZERO),
        Op::Bne => !status.has(ZERO),
        Op::Bmi => status.has(NEGATIVE),
        Op::Bpl => !status.has(NEGATIVE),
        Op::Bvc => !status.has(OVERFLOW),
        Op::Bvs => status.has(OVERFLOW),
        _ => false,
    }
}

/// One cycle of a branch.
///
/// Cycle 2 fetches the offset and ends the instruction if the branch is
/// not taken. Cycle 3 reads at the program counter and ends it if the
/// target lies in the page of the program counter. Cycle 4 reads at the
/// target's low byte in the page of the program counter.
#[verifier::opaque]
pub open spec fn branch_spec(n: Nes, taken: bool) -> Nes {
    let p = n.cpu.proc;
    if p.cycle == 2 {
        if taken {
            n.fetch_tmp0()
        } else {
            n.fetch_tmp0().finished()
        }
    } else if p.cycle == 3 {
        let target = branch_target(n.cpu.pc, p.tmp0);
        let n1 = n.after_read(n.cpu.pc).with_tmp_addr(target);
        if high(n.cpu.pc) == high(target) {
            n1.with_pc(target).finished()
        } else {
            n1
        }
    } else if p.cycle == 4 {
        n.after_read(concat_spec(high(n.cpu.pc), low(p.tmp_addr))).with_pc(p.tmp_addr).finished()
    } else {
        n
    }
}

/// One cycle of `JMP`.
///
/// Absolute: cycles 2 and 3 fetch the target. Indirect: cycles 2 and 3
/// fetch a pointer, cycle 4 reads the target's low byte at the pointer,
/// cycle 5 its high byte at the next address within the pointer's page.
#[verifier::opaque]
pub open spec fn jmp_spec(n: Nes) -> Nes {
    let p = n.cpu.proc;
    match p.mode {
        AddrMode::Absolute => if p.cycle == 2 {
            n.fetch_tmp0()
        } else if p.cycle == 3 {
            let (n1, pch) = n.read_spec(n.cpu.pc);
            n1.with_pc(concat_spec(pch, p.tmp0)).finished()
        } else {
            n
        },
        AddrMode::Indirect => if p.cycle == 2 {
            n.fetch_tmp0()
        } else if p.cycle == 3 {
            n.fetch_tmp1()
        } else if p.cycle == 4 {
            let pointer = concat_spec(p.tmp1, p.tmp0);
            n.with_tmp_addr(pointer).read_tmp0(pointer)
        } else if p.cycle == 5 {
            let (n1, pch) = n.read_spec(next_in_same_page(p.tmp_addr));
            n1.with_tmp1(pch).with_pc(concat_spec(pch, p.tmp0)).finished()
        } else {
            n
        },
        _ => n,
    }
}

/// One cycle of `JSR`: fetch the target's low byte, read at the stack,
/// push the program counter, which is at the instruction's last byte,
/// high byte first, and fetch the target's high byte.
#[verifier::opaque]
pub open spec fn jsr_spec(n: Nes) -> Nes {
    let p = n.cpu.proc;
    if p.cycle == 2 {
        n.fetch_tmp0()
    } else if p.cycle == 3 {
        n.after_read(n.stack_addr())
    } else if p.cycle == 4 {
        n.push_spec(high(n.cpu.pc))
    } else if p.cycle == 5 {
        n.push_spec(low(n.cpu.pc))
    } else if p.cycle == 6 {
        let (n1, pch) = n.fetch_spec();
        n1.with_tmp1(pch).with_pc(concat_spec(pch, p.tmp0)).finished()
    } else {
        n
    }
}

/// One cycle of `RTS`: fetch, read at the stack, pull the return
/// address, low byte first, read there, and go on behind it.
#[verifier::opaque]
pub open spec fn rts_spec(n: Nes) -> Nes {
    let p = n.cpu.proc;
    if p.cycle == 2 {
        n.after_fetch()
    } else if p.cycle == 3 {
        n.after_read(n.stack_addr())
    } else if p.cycle == 4 {
        n.pull_spec().0.with_tmp0(n.pull_spec().1)
    } else if p.cycle == 5 {
        n.pull_spec().0.with_tmp1(n.pull_spec().1)
    } else if p.cycle == 6 {
        let target = concat_spec(p.tmp1, p.tmp0);
        n.after_read(target).with_pc(target.wrapping_add(1)).finished()
    } else {
        n
    }
}

/// One cycle of `RTI`: fetch, read at the stack, pull the status, then
/// pull the program counter, low byte first.
#[verifier::opaque]
pub open spec fn rti_spec(n: Nes) -> Nes {
    let p = n.cpu.proc;
    if p.cycle == 2 {
        n.after_fetch()
    } else if p.cycle == 3 {
        n.after_read(n.stack_addr())
    } else if p.cycle == 4 {
        let (n1, byte) = n.pull_spec();
        n1.with_cpu(Cpu { status: StatusReg::pulled(byte), ..n1.cpu })
    } else if p.cycle == 5 {
        n.pull_spec().0.with_tmp0(n.pull_spec().1)
    } else if p.cycle == 6 {
        let (n1, pch) = n.pull_spec();
        n1.with_tmp1(pch).with_pc(concat_spec(pch, p.tmp0)).finished()
    } else {
        n
    }
}

/// One cycle of a push instruction, which pushes `value`.
#[verifier::opaque]
pub open spec fn push_step(n: Nes, value: u8) -> Nes {
    let p = n.cpu.proc;
    if p.cycle == 2 {
        n.after_read(n.cpu.pc)
    } else if p.cycle == 3 {
        n.push_spec(value).finished()
    } else {
        n
    }
}

/// One cycle of `PLA`.
#[verifier::opaque]
pub open spec fn pla_spec(n: Nes) -> Nes {
    let p = n.cpu.proc;
    if p.cycle == 2 {
        n.after_read(n.cpu.pc)
    } else if p.cycle == 3 {
        n.after_read(n.stack_addr())
    } else if p.cycle == 4 {
        let (n1, byte) = n.pull_spec();
        n1.with_cpu(Cpu { acc: byte, status: n1.cpu.status.with_zn(byte), ..n1.cpu }).finished()
    } else {
        n
    }
}

/// One cycle of `PLP`.
#[verifier::opaque]
pub open spec fn plp_spec(n: Nes) -> Nes {
    let p = n.cpu.proc;
    if p.cycle == 2 {
        n.after_read(n.cpu.pc)
    } else if p.cycle == 3 {
        n.after_read(n.stack_addr())
    } else if p.cycle == 4 {
        let (n1, byte) = n.pull_spec();
        n1.with_cpu(Cpu { status: StatusReg::pulled(byte), ..n1.cpu }).finished()
    } else {
        n
    }
}

/// One cycle of the entry into an interrupt handler, for `BRK`
/// (`software`) and for the interrupt lines alike.
///
/// Cycle 2 reads at the program counter, and `BRK` moves it on past its
/// padding byte. Cycles 3 to 5 push the program counter, high byte
/// first, and the status, with bit 4 telling `BRK` from a line. Cycles 6
/// and 7 read the handler's address at `vector`, and I is set.
#[verifier::opaque]
pub open spec fn interrupt_spec(n: Nes, vector: u16, software: bool) -> Nes {
    let p = n.cpu.proc;
    if p.cycle == 2 {
        if software {
            n.after_fetch()
        } else {
            n.after_read(n.cpu.pc)
        }
    } else if p.cycle == 3 {
        n.push_spec(high(n.cpu.pc))
    } else if p.cycle == 4 {
        n.push_spec(low(n.cpu.pc))
    } else if p.cycle == 5 {
        n.push_spec(n.cpu.status.pushed(software))
    } else if p.cycle == 6 {
        n.read_tmp0(vector)
    } else if p.cycle == 7 {
        let (n1, pch) = n.read_spec(vector.wrapping_add(1));
        n1.with_tmp1(pch).with_cpu(
            Cpu {
                pc: concat_spec(pch, p.tmp0),
                status: n1.cpu.status.with(INTERRUPT_DISABLE, true),
                ..n1.with_tmp1(pch).cpu
            },
        ).finished()
    } else {
        n
    }
}

pub(crate) fn branch(nes: &mut Nes, to_branch: bool)
    ensures
        *final(nes) == branch_spec(*old(nes), to_branch),
{
    proof {
        reveal(branch_spec);
    }
    match nes.cpu.proc.cycle {
        2 => {
            nes.cpu.proc.tmp0 = Cpu::fetch(nes);
            if !to_branch {  // if to_branch is false, do not branch
                nes.cpu.proc.done = true;
            }
        },
        3 => {
            nes.read(nes.cpu.pc);
            nes.cpu.proc.tmp_addr = branch_to(nes.cpu.pc, nes.cpu.proc.tmp0);
            if high_byte(nes.cpu.pc) == high_byte(nes.cpu.proc.tmp_addr) {  // branch to same page
                nes.cpu.pc = nes.cpu.proc.tmp_addr;

                nes.cpu.proc.done = true;
            }
        },
        4 => {
            nes.read(addr_concat(high_byte(nes.cpu.pc), low_byte(nes.cpu.proc.tmp_addr)));  // read from PC + 2 + offset (without carry)

            nes.cpu.pc = nes.cpu.proc.tmp_addr;

            nes.cpu.proc.done = true;
        },
        _ => (),
    }
}

pub(crate) fn bcc(nes: &mut Nes)
    ensures
        *final(nes) == branch_spec(*old(nes), branch_taken(Op::Bcc, old(nes).cpu.status)),
{
    proof {
        reveal(branch_spec);
    }
    branch(nes, !nes.cpu.status.contains(CARRY));
}

pub(crate) fn bcs(nes: &mut Nes)
    ensures
        *final(nes) == branch_spec(*old(nes), branch_taken(Op::Bcs, old(nes).cpu.status)),
{
    proof {
        reveal(branch_spec);
    }
    branch(nes, nes.cpu.status.contains(CARRY));
}

pub(crate) fn beq(nes: &mut Nes)
    ensures
        *final(nes) == branch_spec(*old(nes), branch_taken(Op::Beq, old(nes).cpu.status)),
{
    proof {
        reveal(branch_spec);
    }
    branch(nes, nes.cpu.status.contains(ZERO));
}

pub(crate) fn bmi(nes: &mut Nes)
    ensures
        *final(nes) == branch_spec(*old(nes), branch_taken(Op::Bmi, old(nes).cpu.status)),
{
    proof {
        reveal(branch_spec);
    }
    branch(nes, nes.cpu.status.contains(NEGATIVE));
}

pub(crate) fn bne(nes: &mut Nes)
    ensures
        *final(nes) == branch_spec(*old(nes), branch_taken(Op::Bne, old(nes).cpu.status)),
{
    proof {
        reveal(branch_spec);
    }
    branch(nes, !nes.cpu.status.contains(ZERO));
}

pub(crate) fn bpl(nes: &mut Nes)
    ensures
        *final(nes) == branch_spec(*old(nes), branch_taken(Op::Bpl, old(nes).cpu.status)),
{
    proof {
        reveal(branch_spec);
    }
    branch(nes, !nes.cpu.status.contains(NEGATIVE));
}

pub(crate) fn bvc(nes: &mut Nes)
    ensures
        *final(nes) == branch_spec(*old(nes), branch_taken(Op::Bvc, old(nes).cpu.status)),
{
    proof {
        reveal(branch_spec);
    }
    branch(nes, !nes.cpu.status.contains(OVERFLOW));
}

pub(crate) fn bvs(nes: &mut Nes)
    ensures
        *final(nes) == branch_spec(*old(nes), branch_taken(Op::Bvs, old(nes).cpu.status)),
{
    proof {
        reveal(branch_spec);
    }
    branch(nes, nes.cpu.status.contains(OVERFLOW));
}

/// `JMP` with its target behind the opcode.
fn jmp_absolute(nes: &mut Nes)
    requires
        old(nes).cpu.proc.mode == AddrMode::Absolute,
    ensures
        *final(nes) == jmp_spec(*old(nes)),
{
    proof {
        reveal(jmp_spec);
    }
    match nes.cpu.proc.cycle {
        2 => nes.cpu.proc.tmp0 = Cpu::fetch(nes),
        3 => {
            let pch = nes.read(nes.cpu.pc);
            nes.cpu.pc = addr_concat(pch, nes.cpu.proc.tmp0);

            nes.cpu.proc.done = true;
        },
        _ => (),
    }
}

/// `JMP` with a pointer to its target behind the opcode.
fn jmp_indirect(nes: &mut Nes)
    requires
        old(nes).cpu.proc.mode == AddrMode::Indirect,
    ensures
        *final(nes) == jmp_spec(*old(nes)),
{
    proof {
        reveal(jmp_spec);
    }
    match nes.cpu.proc.cycle {
        2 => nes.cpu.proc.tmp0 = Cpu::fetch(nes),
        3 => nes.cpu.proc.tmp1 = Cpu::fetch(nes),
        4 => {
            nes.cpu.proc.tmp_addr = addr_concat(nes.cpu.proc.tmp1, nes.cpu.proc.tmp0);
            nes.cpu.proc.tmp0 = nes.read(nes.cpu.proc.tmp_addr);
        },
        5 => {
            let pointer = nes.cpu.proc.tmp_addr;
            nes.cpu.proc.tmp1 = nes.read(
                addr_concat(high_byte(pointer), low_byte(pointer).wrapping_add(1)),
            );

            nes.cpu.pc = addr_concat(nes.cpu.proc.tmp1, nes.cpu.proc.tmp0);

            nes.cpu.proc.done = true;
        },
        _ => (),
    }
}

pub(crate) fn jmp(nes: &mut Nes)
    requires
        old(nes).cpu.proc.mode == AddrMode::Absolute || old(nes).cpu.proc.mode
            == AddrMode::Indirect,
    ensures
        *final(nes) == jmp_spec(*old(nes)),
{
    proof {
        reveal(jmp_spec);
    }
    match nes.cpu.proc.mode {
        AddrMode::Absolute => jmp_absolute(nes),
        _ => jmp_indirect(nes),
    }
}

pub(crate) fn jsr(nes: &mut Nes)
    ensures
        *final(nes) == jsr_spec(*old(nes)),
{
    proof {
        reveal(jsr_spec);
    }
    match nes.cpu.proc.cycle {
        2 => nes.cpu.proc.tmp0 = Cpu::fetch(nes),
        3 => {
            nes.read(0x100 + nes.cpu.sp as u16);
        },  // discarded read, may be useful later for monitoring bus activity
        4 => Cpu::stack_push(nes, high_byte(nes.cpu.pc)),
        5 => Cpu::stack_push(nes, low_byte(nes.cpu.pc)),
        6 => {
            nes.cpu.proc.tmp1 = Cpu::fetch(nes);

            nes.cpu.pc = addr_concat(nes.cpu.proc.tmp1, nes.cpu.proc.tmp0);

            nes.cpu.proc.done = true;
        },
        _ => (),
    }
}

pub(crate) fn rts(nes: &mut Nes)
    ensures
        *final(nes) == rts_spec(*old(nes)),
{
    proof {
        reveal(rts_spec);
    }
    match nes.cpu.proc.cycle {
        2 => {
            Cpu::fetch(nes);
        },
        3 => {
            nes.read(0x100 + nes.cpu.sp as u16);
        },
        4 => nes.cpu.proc.tmp0 = Cpu::stack_pull(nes),
        5 => nes.cpu.proc.tmp1 = Cpu::stack_pull(nes),
        6 => {
            let target = addr_concat(nes.cpu.proc.tmp1, nes.cpu.proc.tmp0);
            nes.read(target);
            nes.cpu.pc = target.wrapping_add(1);

            nes.cpu.proc.done = true;
        },
        _ => (),
    }
}

pub(crate) fn rti(nes: &mut Nes)
    ensures
        *final(nes) == rti_spec(*old(nes)),
{
    proof {
        reveal(rti_spec);
    }
    match nes.cpu.proc.cycle {
        2 => {
            Cpu::fetch(nes);
        },
        3 => {
            nes.read(0x100 + nes.cpu.sp as u16);
        },
        4 => {
            let byte = Cpu::stack_pull(nes);
            nes.cpu.status = StatusReg::pull(byte);
        },
        5 => nes.cpu.proc.tmp0 = Cpu::stack_pull(nes),
        6 => {
            nes.cpu.proc.tmp1 = Cpu::stack_pull(nes);

            nes.cpu.pc = addr_concat(nes.cpu.proc.tmp1, nes.cpu.proc.tmp0);

            nes.cpu.proc.done = true;
        },
        _ => (),
    }
}

pub(crate) fn pha(nes: &mut Nes)
    ensures
        *final(nes) == push_step(*old(nes), old(nes).cpu.acc),
{
    proof {
        reveal(push_step);
    }
    match nes.cpu.proc.cycle {
        2 => {
            nes.read(nes.cpu.pc);
        },
        3 => {
            Cpu::stack_push(nes, nes.cpu.acc);

            nes.cpu.proc.done = true;
        },
        _ => (),
    }
}

pub(crate) fn php(nes: &mut Nes)
    ensures
        *final(nes) == push_step(*old(nes), old(nes).cpu.status.pushed(true)),
{
    proof {
        reveal(push_step);
    }
    match nes.cpu.proc.cycle {
        2 => {
            nes.read(nes.cpu.pc);
        },
        3 => {
            Cpu::stack_push(nes, nes.cpu.status.push_value(true));

            nes.cpu.proc.done = true;
        },
        _ => (),
    }
}

pub(crate) fn pla(nes: &mut Nes)
    ensures
        *final(nes) == pla_spec(*old(nes)),
{
    proof {
        reveal(pla_spec);
    }
    match nes.cpu.proc.cycle {
        2 => {
            nes.read(nes.cpu.pc);
        },
        3 => {
            nes.read(0x100 + nes.cpu.sp as u16);
        },
        4 => {
            nes.cpu.acc = Cpu::stack_pull(nes);

            nes.cpu.status.set_zn(nes.cpu.acc);

            nes.cpu.proc.done = true;
        },
        _ => (),
    }
}

pub(crate) fn plp(nes: &mut Nes)
    ensures
        *final(nes) == plp_spec(*old(nes)),
{
    proof {
        reveal(plp_spec);
    }
    match nes.cpu.proc.cycle {
        2 => {
            nes.read(nes.cpu.pc);
        },
        3 => {
            nes.read(0x100 + nes.cpu.sp as u16);
        },
        4 => {
            let byte = Cpu::stack_pull(nes);
            nes.cpu.status = StatusReg::pull(byte);

            nes.cpu.proc.done = true;
        },
        _ => (),
    }
}

/// The first half of the entry into a handler: the read at the program
/// counter and the three pushes.
fn interrupt_pushes(nes: &mut Nes, vector: u16, software: bool)
    requires
        2 <= old(nes).cpu.proc.cycle <= 5,
    ensures
        *final(nes) == interrupt_spec(*old(nes), vector, software),
{
    proof {
        reveal(interrupt_spec);
    }
    match nes.cpu.proc.cycle {
        2 => {
            if software {
                Cpu::fetch(nes);
            } else {
                nes.read(nes.cpu.pc);
            }
        },
        3 => Cpu::stack_push(nes, high_byte(nes.cpu.pc)),
        4 => Cpu::stack_push(nes, low_byte(nes.cpu.pc)),
        _ => Cpu::stack_push(nes, nes.cpu.status.push_value(software)),
    }
}

pub(crate) fn interrupt(nes: &mut Nes, vector: u16, software: bool)
    ensures
        *final(nes) == interrupt_spec(*old(nes), vector, software),
{
    proof {
        reveal(interrupt_spec);
    }
    match nes.cpu.proc.cycle {
        2 | 3 | 4 | 5 => interrupt_pushes(nes, vector, software),
        6 => nes.cpu.proc.tmp0 = nes.read(vector),
        7 => {
            nes.cpu.proc.tmp1 = nes.read(vector.wrapping_add(1));

            nes.cpu.pc = addr_concat(nes.cpu.proc.tmp1, nes.cpu.proc.tmp0);
            nes.cpu.status.set(INTERRUPT_DISABLE, true);  // masswerk has conflicting statements, and 6502_cpu.txt says the I flag should be set here

            nes.cpu.proc.done = true;
        },
        _ => (),
    }
}

pub(crate) fn brk(nes: &mut Nes)
    ensures
        *final(nes) == interrupt_spec(*old(nes), IRQ_VECTOR, true),
{
    proof {
        reveal(interrupt_spec);
    }
    interrupt(nes, IRQ_VECTOR, true);
}

/// The high byte of the target of an indirect `JMP` is read at the next
/// address within the pointer's page: one above the pointer, except that
/// a pointer at the last byte of a page is followed by the first byte of
/// the same page.
pub proof fn lemma_indirect_wrap(pointer: u16)
    ensures
        next_in_same_page(pointer) == if pointer % 256 == 255 {
            pointer - 255
        } else {
            pointer + 1
        },
        high(next_in_same_page(pointer)) == high(pointer),
{
}

} // verus!
