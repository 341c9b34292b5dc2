use vstd::prelude::*;
use vstd::pervasive::unreached;
use crate::arch::cpu::alu::addr_concat;
use crate::arch::cpu::alu::concat_spec;
use crate::arch::cpu::AddrMode;
use crate::arch::cpu::Cpu;
use crate::arch::Nes;

verus! {

/// The modes that name an operand in memory.
pub open spec fn is_operand_mode(mode: AddrMode) -> bool {
    match mode {
        AddrMode::Immediate
        | AddrMode::Zero
        | AddrMode::ZeroX
        | AddrMode::ZeroY
        | AddrMode::Absolute
        | AddrMode::AbsoluteX
        | AddrMode::AbsoluteY
        | AddrMode::IndirectX
        | AddrMode::IndirectY => true,
        _ => false,
    }
}

/// The modes in which an instruction can read, modify and write back.
pub open spec fn is_modify_mode(mode: AddrMode) -> bool {
    match mode {
        AddrMode::Zero
        | AddrMode::ZeroX
        | AddrMode::Absolute
        | AddrMode::AbsoluteX
        | AddrMode::AbsoluteY
        | AddrMode::IndirectX
        | AddrMode::IndirectY => true,
        _ => false,
    }
}

/// The index register of a mode: Y for the modes named after it, X for
/// the others.
pub open spec fn index_of(cpu: Cpu, mode: AddrMode) -> u8 {
    match mode {
        AddrMode::AbsoluteY | AddrMode::ZeroY | AddrMode::IndirectY => cpu.y,
        _ => cpu.x,
    }
}

/// The machine after the cycle of a mode that adds the index to the low
/// byte of the base address `{tmp1, tmp0}`, and the operand's address if
/// it is already known.
///
/// The address is formed without the carry. If there is none, it is the
/// operand's address. Otherwise it lies one page too low: it is read,
/// and the next cycle adds the carry, which the second scratch byte
/// keeps.
pub open spec fn indexed_spec(n: Nes, index: u8) -> (Nes, Option<u16>) {
    let p = n.cpu.proc;
    let sum = p.tmp0 + index;
    let addr = concat_spec(p.tmp1, (sum % 256) as u8);
    let carry: u8 = if sum >= 256 {
        1
    } else {
        0
    };
    let n1 = n.with_tmp_addr(addr).with_tmp1(carry);
    if sum < 256 {
        (n1, Some(addr))
    } else {
        (n1.after_read(addr), None)
    }
}

/// The operand's address one cycle after `indexed_spec`: the carry is
/// added to the high byte.
pub open spec fn carried_spec(n: Nes) -> u16 {
    let p = n.cpu.proc;
    ((p.tmp_addr + 256 * p.tmp1) % 0x1_0000) as u16
}

/// The zero-page address one above the low byte of `addr`, within the
/// zero page.
pub open spec fn next_in_page_spec(addr: u16) -> u16 {
    concat_spec(0, ((addr % 256) as u8).wrapping_add(1))
}

/// The zero-page address one above the low byte of `addr`.
fn next_in_page(addr: u16) -> (next: u16)
    ensures
        next == next_in_page_spec(addr),
{
    addr_concat(0x00, ((addr % 256) as u8).wrapping_add(1))
}

/// The index register of the mode of the instruction in flight.
fn index_register(nes: &Nes) -> (index: u8)
    ensures
        index == index_of(nes.cpu, nes.cpu.proc.mode),
{
    match nes.cpu.proc.mode {
        AddrMode::AbsoluteY | AddrMode::ZeroY | AddrMode::IndirectY => nes.cpu.y,
        _ => nes.cpu.x,
    }
}

/// The cycle of an indexed mode that adds the index to the low byte.
fn indexed(nes: &mut Nes, index: u8) -> (addr: Option<u16>)
    ensures
        (*final(nes), addr) == indexed_spec(*old(nes), index),
{
    let sum: u16 = nes.cpu.proc.tmp0 as u16 + index as u16;
    let carry = sum >= 256;
    nes.cpu.proc.tmp_addr = addr_concat(nes.cpu.proc.tmp1, (sum % 256) as u8);
    nes.cpu.proc.tmp1 = if carry {
        1
    } else {
        0
    };

    if !carry {
        Some(nes.cpu.proc.tmp_addr)
    } else {
        nes.read(nes.cpu.proc.tmp_addr);
        None
    }
}

/// The operand's address once the carry is added.
fn carried(nes: &Nes) -> (addr: u16)
    ensures
        addr == carried_spec(*nes),
{
    ((nes.cpu.proc.tmp_addr as u32 + 256 * (nes.cpu.proc.tmp1 as u32)) % 0x1_0000) as u16
}

/// Immediate: the operand is the byte at the program counter, which
/// moves on.
pub open spec fn immediate_spec(n: Nes) -> (Nes, Option<u16>) {
    let p = n.cpu.proc;
    if p.cycle == 2 {
        (n.with_pc(n.cpu.pc.wrapping_add(1)), Some(n.cpu.pc))
    } else {
        (n, None)
    }
}

fn immediate(nes: &mut Nes) -> (addr: Option<u16>)
    ensures
        (*final(nes), addr) == immediate_spec(*old(nes)),
{
    match nes.cpu.proc.cycle {
        2 => {
            let pc = nes.cpu.pc;
            nes.cpu.pc = nes.cpu.pc.wrapping_add(1);

            Some(pc)
        },
        _ => None,
    }
}

/// Zero page: cycle 2 fetches `op1`; the operand is at `{$00, op1}`.
pub open spec fn zero_page_spec(n: Nes) -> (Nes, Option<u16>) {
    let p = n.cpu.proc;
    if p.cycle == 2 {
        (n.fetch_tmp0(), None)
    } else if p.cycle == 3 {
        (n, Some(concat_spec(0, p.tmp0)))
    } else {
        (n, None)
    }
}

fn zero_page(nes: &mut Nes) -> (addr: Option<u16>)
    ensures
        (*final(nes), addr) == zero_page_spec(*old(nes)),
{
    match nes.cpu.proc.cycle {
        2 => {
            nes.cpu.proc.tmp0 = Cpu::fetch(nes);
            None
        },
        3 => Some(addr_concat(0x00, nes.cpu.proc.tmp0)),
        _ => None,
    }
}

/// Zero page indexed: cycle 2 fetches `op1`, cycle 3 reads at
/// `{$00, op1}`; the operand is at `{$00, op1 + index}`, within the zero
/// page.
pub open spec fn zero_page_indexed_spec(n: Nes) -> (Nes, Option<u16>) {
    let p = n.cpu.proc;
    if p.cycle == 2 {
        (n.fetch_tmp0(), None)
    } else if p.cycle == 3 {
        (n.after_read(concat_spec(0, p.tmp0)), None)
    } else if p.cycle == 4 {
        (n, Some(concat_spec(0, p.tmp0.wrapping_add(index_of(n.cpu, p.mode)))))
    } else {
        (n, None)
    }
}

fn zero_page_indexed(nes: &mut Nes) -> (addr: Option<u16>)
    ensures
        (*final(nes), addr) == zero_page_indexed_spec(*old(nes)),
{
    match nes.cpu.proc.cycle {
        2 => {
            nes.cpu.proc.tmp0 = Cpu::fetch(nes);
            None
        },
        3 => {
            nes.read(addr_concat(0x00, nes.cpu.proc.tmp0));
            None
        },
        4 => {
            let index = index_register(nes);
            Some(addr_concat(0x00, nes.cpu.proc.tmp0.wrapping_add(index)))
        },
        _ => None,
    }
}

/// Absolute: cycles 2 and 3 fetch `op1` and `op2`; the operand is at
/// `{op2, op1}`.
pub open spec fn absolute_spec(n: Nes) -> (Nes, Option<u16>) {
    let p = n.cpu.proc;
    if p.cycle == 2 {
        (n.fetch_tmp0(), None)
    } else if p.cycle == 3 {
        (n.fetch_tmp1(), None)
    } else if p.cycle == 4 {
        (n, Some(concat_spec(p.tmp1, p.tmp0)))
    } else {
        (n, None)
    }
}

fn absolute(nes: &mut Nes) -> (addr: Option<u16>)
    ensures
        (*final(nes), addr) == absolute_spec(*old(nes)),
{
    match nes.cpu.proc.cycle {
        2 => {
            nes.cpu.proc.tmp0 = Cpu::fetch(nes);
            None
        },
        3 => {
            nes.cpu.proc.tmp1 = Cpu::fetch(nes);
            None
        },
        4 => Some(addr_concat(nes.cpu.proc.tmp1, nes.cpu.proc.tmp0)),
        _ => None,
    }
}

/// Absolute indexed: cycles 2 and 3 fetch `op1` and `op2`; the operand
/// is at `{op2, op1} + index`. Cycle 4 has it unless the sum crosses a
/// page; then cycle 4 reads one page too low and cycle 5 has it.
pub open spec fn absolute_indexed_spec(n: Nes) -> (Nes, Option<u16>) {
    let p = n.cpu.proc;
    if p.cycle == 2 {
        (n.fetch_tmp0(), None)
    } else if p.cycle == 3 {
        (n.fetch_tmp1(), None)
    } else if p.cycle == 4 {
        indexed_spec(n, index_of(n.cpu, p.mode))
    } else if p.cycle == 5 {
        (n, Some(carried_spec(n)))
    } else {
        (n, None)
    }
}

fn absolute_indexed(nes: &mut Nes) -> (addr: Option<u16>)
    ensures
        (*final(nes), addr) == absolute_indexed_spec(*old(nes)),
{
    match nes.cpu.proc.cycle {
        2 => {
            nes.cpu.proc.tmp0 = Cpu::fetch(nes);
            None
        },
        3 => {
            nes.cpu.proc.tmp1 = Cpu::fetch(nes);
            None
        },
        4 => {
            let index = index_register(nes);
            indexed(nes, index)
        },
        5 => Some(carried(nes)),
        _ => None,
    }
}

/// (Indirect,X): cycle 2 fetches `op1`, cycle 3 reads at `{$00, op1}`,
/// cycles 4 and 5 read the operand's address at `op1 + X` and
/// `op1 + X + 1`, both within the zero page.
pub open spec fn indirect_x_spec(n: Nes) -> (Nes, Option<u16>) {
    let p = n.cpu.proc;
    if p.cycle == 2 {
        (n.fetch_tmp0(), None)
    } else if p.cycle == 3 {
        (n.after_read(concat_spec(0, p.tmp0)), None)
    } else if p.cycle == 4 {
        let pointer = concat_spec(0, p.tmp0.wrapping_add(n.cpu.x));
        (n.with_tmp_addr(pointer).read_tmp0(pointer), None)
    } else if p.cycle == 5 {
        (n.read_tmp1(next_in_page_spec(p.tmp_addr)), None)
    } else if p.cycle == 6 {
        (n, Some(concat_spec(p.tmp1, p.tmp0)))
    } else {
        (n, None)
    }
}

fn indirect_x(nes: &mut Nes) -> (addr: Option<u16>)
    ensures
        (*final(nes), addr) == indirect_x_spec(*old(nes)),
{
    match nes.cpu.proc.cycle {
        2 => {
            nes.cpu.proc.tmp0 = Cpu::fetch(nes);
            None
        },
        3 => {
            nes.read(addr_concat(0x00, nes.cpu.proc.tmp0));
            None
        },
        4 => {
            nes.cpu.proc.tmp_addr = addr_concat(0x00, nes.cpu.proc.tmp0.wrapping_add(nes.cpu.x));
            nes.cpu.proc.tmp0 = nes.read(nes.cpu.proc.tmp_addr);
            None
        },
        5 => {
            nes.cpu.proc.tmp1 = nes.read(next_in_page(nes.cpu.proc.tmp_addr));
            None
        },
        6 => Some(addr_concat(nes.cpu.proc.tmp1, nes.cpu.proc.tmp0)),
        _ => None,
    }
}

/// (Indirect),Y: cycle 2 fetches `op1`, cycles 3 and 4 read the base
/// address at `op1` and `op1 + 1`, within the zero page; the operand is
/// at the base address plus Y. Cycle 5 has it unless the sum crosses a
/// page; then cycle 5 reads one page too low and cycle 6 has it.
pub open spec fn indirect_y_spec(n: Nes) -> (Nes, Option<u16>) {
    let p = n.cpu.proc;
    if p.cycle == 2 {
        (n.after_fetch().with_tmp_addr(concat_spec(0, n.fetch_spec().1)), None)
    } else if p.cycle == 3 {
        (n.read_tmp0(p.tmp_addr), None)
    } else if p.cycle == 4 {
        (n.read_tmp1(next_in_page_spec(p.tmp_addr)), None)
    } else if p.cycle == 5 {
        indexed_spec(n, n.cpu.y)
    } else if p.cycle == 6 {
        (n, Some(carried_spec(n)))
    } else {
        (n, None)
    }
}

fn indirect_y(nes: &mut Nes) -> (addr: Option<u16>)
    ensures
        (*final(nes), addr) == indirect_y_spec(*old(nes)),
{
    match nes.cpu.proc.cycle {
        2 => {
            let pointer = Cpu::fetch(nes);
            nes.cpu.proc.tmp_addr = addr_concat(0x00, pointer);
            None
        },
        3 => {
            nes.cpu.proc.tmp0 = nes.read(nes.cpu.proc.tmp_addr);
            None
        },
        4 => {
            nes.cpu.proc.tmp1 = nes.read(next_in_page(nes.cpu.proc.tmp_addr));
            None
        },
        5 => {
            let index = nes.cpu.y;
            indexed(nes, index)
        },
        6 => Some(carried(nes)),
        _ => None,
    }
}

/// The machine after one cycle of the addressing mode of an instruction
/// that reads or stores, and the operand's address in the cycle in which
/// the instruction accesses the operand. Cycle 2 follows the opcode
/// fetch.
#[verifier::opaque]
pub open spec fn effective_addr_spec(n: Nes) -> (Nes, Option<u16>) {
    match n.cpu.proc.mode {
        AddrMode::Immediate => immediate_spec(n),
        AddrMode::Zero => zero_page_spec(n),
        AddrMode::ZeroX | AddrMode::ZeroY => zero_page_indexed_spec(n),
        AddrMode::Absolute => absolute_spec(n),
        AddrMode::AbsoluteX | AddrMode::AbsoluteY => absolute_indexed_spec(n),
        AddrMode::IndirectX => indirect_x_spec(n),
        AddrMode::IndirectY => indirect_y_spec(n),
        _ => (n, None),
    }
}

pub(crate) fn effective_addr(nes: &mut Nes) -> (addr: Option<u16>)
    requires
        is_operand_mode(old(nes).cpu.proc.mode),
    ensures
        (*final(nes), addr) == effective_addr_spec(*old(nes)),
{
    proof {
        reveal(effective_addr_spec);
    }
    match nes.cpu.proc.mode {
        AddrMode::Immediate => immediate(nes),
        AddrMode::Zero => zero_page(nes),
        AddrMode::ZeroX | AddrMode::ZeroY => zero_page_indexed(nes),
        AddrMode::Absolute => absolute(nes),
        AddrMode::AbsoluteX | AddrMode::AbsoluteY => absolute_indexed(nes),  // All write instructions should make sure they use 5 cycles for this mode
        AddrMode::IndirectX => indirect_x(nes),
        AddrMode::IndirectY => indirect_y(nes),
        _ => unreached(),
    }
}

/// The last three cycles of every read-modify-write mode, the first of
/// them `first`: read the operand at the scratch address into the first
/// scratch byte, write the same byte back, and hand the address to the
/// instruction.
pub open spec fn modify_tail_spec(n: Nes, first: u8) -> (Nes, Option<u16>) {
    let p = n.cpu.proc;
    if p.cycle == first {
        (n.read_tmp0(p.tmp_addr), None)
    } else if p.cycle == first + 1 {
        (n.write_spec(p.tmp_addr, p.tmp0), None)
    } else if p.cycle == first + 2 {
        (n, Some(p.tmp_addr))
    } else {
        (n, None)
    }
}

fn modify_tail(nes: &mut Nes, first: u8) -> (addr: Option<u16>)
    requires
        first <= 6,
    ensures
        (*final(nes), addr) == modify_tail_spec(*old(nes), first),
{
    if nes.cpu.proc.cycle == first {
        nes.cpu.proc.tmp0 = nes.read(nes.cpu.proc.tmp_addr);
        None
    } else if nes.cpu.proc.cycle == first + 1 {
        nes.write(nes.cpu.proc.tmp_addr, nes.cpu.proc.tmp0);
        None
    } else if nes.cpu.proc.cycle == first + 2 {
        Some(nes.cpu.proc.tmp_addr)
    } else {
        None
    }
}

/// The cycle of an indexed read-modify-write mode that adds the index
/// to the base address `{tmp1, tmp0}`: a read at the sum without the
/// carry, while the scratch address takes the sum with it.
pub open spec fn modify_indexed_spec(n: Nes, index: u8) -> Nes {
    let p = n.cpu.proc;
    let early = concat_spec(p.tmp1, p.tmp0.wrapping_add(index));
    let addr = concat_spec(p.tmp1, p.tmp0).wrapping_add(index as u16);
    n.with_tmp_addr(addr).after_read(early)
}

fn modify_indexed(nes: &mut Nes, index: u8)
    ensures
        *final(nes) == modify_indexed_spec(*old(nes), index),
{
    let early = addr_concat(nes.cpu.proc.tmp1, nes.cpu.proc.tmp0.wrapping_add(index));
    nes.cpu.proc.tmp_addr = addr_concat(nes.cpu.proc.tmp1, nes.cpu.proc.tmp0).wrapping_add(
        index as u16,
    );
    nes.read(early);
}

/// Zero page, to modify: the operand is at `{$00, op1}`.
pub open spec fn modify_zero_page_spec(n: Nes) -> (Nes, Option<u16>) {
    let p = n.cpu.proc;
    if p.cycle == 2 {
        (n.after_fetch().with_tmp_addr(concat_spec(0, n.fetch_spec().1)), None)
    } else {
        modify_tail_spec(n, 3)
    }
}

fn modify_zero_page(nes: &mut Nes) -> (addr: Option<u16>)
    ensures
        (*final(nes), addr) == modify_zero_page_spec(*old(nes)),
{
    match nes.cpu.proc.cycle {
        2 => {
            let pointer = Cpu::fetch(nes);
            nes.cpu.proc.tmp_addr = addr_concat(0x00, pointer);
            None
        },
        _ => modify_tail(nes, 3),
    }
}

/// Zero page,X, to modify: the operand is at `{$00, op1 + X}`, after a
/// read at `{$00, op1}`.
pub open spec fn modify_zero_page_x_spec(n: Nes) -> (Nes, Option<u16>) {
    let p = n.cpu.proc;
    if p.cycle == 2 {
        (n.fetch_tmp0(), None)
    } else if p.cycle == 3 {
        let base = concat_spec(0, p.tmp0);
        let addr = concat_spec(0, p.tmp0.wrapping_add(n.cpu.x));
        (n.with_tmp_addr(addr).after_read(base), None)
    } else {
        modify_tail_spec(n, 4)
    }
}

fn modify_zero_page_x(nes: &mut Nes) -> (addr: Option<u16>)
    ensures
        (*final(nes), addr) == modify_zero_page_x_spec(*old(nes)),
{
    match nes.cpu.proc.cycle {
        2 => {
            nes.cpu.proc.tmp0 = Cpu::fetch(nes);
            None
        },
        3 => {
            let base = addr_concat(0x00, nes.cpu.proc.tmp0);
            nes.cpu.proc.tmp_addr = addr_concat(0x00, nes.cpu.proc.tmp0.wrapping_add(nes.cpu.x));
            nes.read(base);
            None
        },
        _ => modify_tail(nes, 4),
    }
}

/// Absolute, to modify: the operand is at `{op2, op1}`.
pub open spec fn modify_absolute_spec(n: Nes) -> (Nes, Option<u16>) {
    let p = n.cpu.proc;
    if p.cycle == 2 {
        (n.fetch_tmp0(), None)
    } else if p.cycle == 3 {
        (n.after_fetch().with_tmp_addr(concat_spec(n.fetch_spec().1, p.tmp0)), None)
    } else {
        modify_tail_spec(n, 4)
    }
}

fn modify_absolute(nes: &mut Nes) -> (addr: Option<u16>)
    ensures
        (*final(nes), addr) == modify_absolute_spec(*old(nes)),
{
    match nes.cpu.proc.cycle {
        2 => {
            nes.cpu.proc.tmp0 = Cpu::fetch(nes);
            None
        },
        3 => {
            let high = Cpu::fetch(nes);
            nes.cpu.proc.tmp_addr = addr_concat(high, nes.cpu.proc.tmp0);
            None
        },
        _ => modify_tail(nes, 4),
    }
}

/// Absolute indexed, to modify: the operand is at `{op2, op1} + index`.
/// Cycle 4 reads at that address without the carry into the high byte,
/// whether there is a carry or not.
pub open spec fn modify_absolute_indexed_spec(n: Nes) -> (Nes, Option<u16>) {
    let p = n.cpu.proc;
    if p.cycle == 2 {
        (n.fetch_tmp0(), None)
    } else if p.cycle == 3 {
        (n.fetch_tmp1(), None)
    } else if p.cycle == 4 {
        (modify_indexed_spec(n, index_of(n.cpu, p.mode)), None)
    } else {
        modify_tail_spec(n, 5)
    }
}

fn modify_absolute_indexed(nes: &mut Nes) -> (addr: Option<u16>)
    ensures
        (*final(nes), addr) == modify_absolute_indexed_spec(*old(nes)),
{
    match nes.cpu.proc.cycle {
        2 => {
            nes.cpu.proc.tmp0 = Cpu::fetch(nes);
            None
        },
        3 => {
            nes.cpu.proc.tmp1 = Cpu::fetch(nes);
            None
        },
        4 => {
            let index = index_register(nes);
            modify_indexed(nes, index);
            None
        },
        _ => modify_tail(nes, 5),
    }
}

/// (Indirect,X), to modify: the operand's address is read at `op1 + X`
/// and `op1 + X + 1`, both within the zero page, after a read at
/// `{$00, op1}`.
pub open spec fn modify_indirect_x_spec(n: Nes) -> (Nes, Option<u16>) {
    let p = n.cpu.proc;
    if p.cycle == 2 {
        (n.fetch_tmp0(), None)
    } else if p.cycle == 3 {
        (n.after_read(concat_spec(0, p.tmp0)), None)
    } else if p.cycle == 4 {
        let pointer = concat_spec(0, p.tmp0.wrapping_add(n.cpu.x));
        (n.with_tmp_addr(pointer).read_tmp0(pointer), None)
    } else if p.cycle == 5 {
        let high = n.read_spec(next_in_page_spec(p.tmp_addr));
        (high.0.with_tmp_addr(concat_spec(high.1, p.tmp0)), None)
    } else {
        modify_tail_spec(n, 6)
    }
}

fn modify_indirect_x(nes: &mut Nes) -> (addr: Option<u16>)
    ensures
        (*final(nes), addr) == modify_indirect_x_spec(*old(nes)),
{
    match nes.cpu.proc.cycle {
        2 => {
            nes.cpu.proc.tmp0 = Cpu::fetch(nes);
            None
        },
        3 => {
            nes.read(addr_concat(0x00, nes.cpu.proc.tmp0));
            None
        },
        4 => {
            nes.cpu.proc.tmp_addr = addr_concat(0x00, nes.cpu.proc.tmp0.wrapping_add(nes.cpu.x));
            nes.cpu.proc.tmp0 = nes.read(nes.cpu.proc.tmp_addr);
            None
        },
        5 => {
            let low = nes.cpu.proc.tmp0;
            let high = nes.read(next_in_page(nes.cpu.proc.tmp_addr));
            nes.cpu.proc.tmp_addr = addr_concat(high, low);
            None
        },
        _ => modify_tail(nes, 6),
    }
}

/// (Indirect),Y, to modify: the base address is read at `op1` and
/// `op1 + 1`, within the zero page, and the operand is at the base
/// address plus Y. Cycle 5 reads at that address without the carry into
/// the high byte, whether there is a carry or not.
pub open spec fn modify_indirect_y_spec(n: Nes) -> (Nes, Option<u16>) {
    let p = n.cpu.proc;
    if p.cycle == 2 {
        (n.after_fetch().with_tmp_addr(concat_spec(0, n.fetch_spec().1)), None)
    } else if p.cycle == 3 {
        (n.read_tmp0(p.tmp_addr), None)
    } else if p.cycle == 4 {
        (n.read_tmp1(next_in_page_spec(p.tmp_addr)), None)
    } else if p.cycle == 5 {
        (modify_indexed_spec(n, n.cpu.y), None)
    } else {
        modify_tail_spec(n, 6)
    }
}

fn modify_indirect_y(nes: &mut Nes) -> (addr: Option<u16>)
    ensures
        (*final(nes), addr) == modify_indirect_y_spec(*old(nes)),
{
    match nes.cpu.proc.cycle {
        2 => {
            let pointer = Cpu::fetch(nes);
            nes.cpu.proc.tmp_addr = addr_concat(0x00, pointer);
            None
        },
        3 => {
            nes.cpu.proc.tmp0 = nes.read(nes.cpu.proc.tmp_addr);
            None
        },
        4 => {
            nes.cpu.proc.tmp1 = nes.read(next_in_page(nes.cpu.proc.tmp_addr));
            None
        },
        5 => {
            let index = nes.cpu.y;
            modify_indexed(nes, index);
            None
        },
        _ => modify_tail(nes, 6),
    }
}

/// The machine after one cycle of the addressing mode of an instruction
/// that reads, modifies and writes back, and the operand's address in
/// the cycle of the final write.
///
/// The operand is where `effective_addr_spec` has it. An indexed mode
/// always spends the cycle that adds the carry. Once the address is
/// known, one cycle reads the operand, the next writes the same byte
/// back, and the one after that is the instruction's.
#[verifier::opaque]
pub open spec fn read_modify_write_spec(n: Nes) -> (Nes, Option<u16>) {
    match n.cpu.proc.mode {
        AddrMode::Zero => modify_zero_page_spec(n),
        AddrMode::ZeroX => modify_zero_page_x_spec(n),
        AddrMode::Absolute => modify_absolute_spec(n),
        AddrMode::AbsoluteX | AddrMode::AbsoluteY => modify_absolute_indexed_spec(n),
        AddrMode::IndirectX => modify_indirect_x_spec(n),
        AddrMode::IndirectY => modify_indirect_y_spec(n),
        _ => (n, None),
    }
}

pub(crate) fn read_modify_write(nes: &mut Nes) -> (addr: Option<u16>)
    requires
        is_modify_mode(old(nes).cpu.proc.mode),
    ensures
        (*final(nes), addr) == read_modify_write_spec(*old(nes)),
{
    proof {
        reveal(read_modify_write_spec);
    }
    match nes.cpu.proc.mode {
        AddrMode::Zero => modify_zero_page(nes),
        AddrMode::ZeroX => modify_zero_page_x(nes),
        AddrMode::Absolute => modify_absolute(nes),
        AddrMode::AbsoluteX | AddrMode::AbsoluteY => modify_absolute_indexed(nes),
        AddrMode::IndirectX => modify_indirect_x(nes),
        AddrMode::IndirectY => modify_indirect_y(nes),
        _ => unreached(),
    }
}

} // verus!
