use vstd::prelude::*;
use vstd::array::spec_array_fill_for_copy_type;
use crate::arch::cpu::alu::addr_concat;
use crate::arch::cpu::alu::concat_spec;
use crate::arch::cpu::control::IRQ_VECTOR;
use crate::arch::cpu::control::NMI_VECTOR;
use crate::arch::cpu::control::RESET_VECTOR;
use crate::arch::cpu::decode::decode;
use crate::arch::cpu::decode::decode_spec;
use crate::arch::cpu::status::StatusReg;
use crate::arch::cpu::status::INTERRUPT_DISABLE;
use crate::arch::cpu::timing::kind_of;
use crate::arch::cpu::timing::lemma_bus_frame;
use crate::arch::cpu::timing::lemma_decode_valid;
use crate::arch::cpu::timing::lemma_timing;
use crate::arch::cpu::timing::Kind;
use crate::arch::Fault;
use crate::arch::ClockDivider;
use crate::arch::Nes;

pub mod addressing;
pub mod alu;
pub mod control;
pub mod decode;
pub mod instructions;
pub mod registers;
pub mod status;
pub mod timing;

verus! {

/// How an instruction finds its operand.
#[derive(Copy, Clone, Debug, PartialEq, Eq, Structural)]
pub enum AddrMode {
    Accumulator,
    Absolute,
    AbsoluteX,
    AbsoluteY,
    Immediate,
    Implied,
    Indirect,
    IndirectX,
    IndirectY,
    Relative,
    Zero,
    ZeroX,
    ZeroY,
    /// Mode is automatically handled by instruction (e.g. some instructions can only be used in one mode)
    Auto,
}

/// The micro-programs: one for each instruction that the CPU executes,
/// one for the two interrupt sequences, and `Idle` for the slot that no
/// instruction has entered yet.
#[derive(Copy, Clone, Debug, PartialEq, Eq, Structural)]
pub enum Op {
    Idle,
    Nmi,
    Irq,
    Adc,
    And,
    Asl,
    Bcc,
    Bcs,
    Beq,
    Bit,
    Bmi,
    Bne,
    Bpl,
    Brk,
    Bvc,
    Bvs,
    Clc,
    Cld,
    Cli,
    Clv,
    Cmp,
    Cpx,
    Cpy,
    Dcp,
    Dec,
    Dex,
    Dey,
    Eor,
    Inc,
    Inx,
    Iny,
    Isb,
    Jmp,
    Jsr,
    Las,
    Lax,
    Lda,
    Ldx,
    Ldy,
    Lsr,
    Nop,
    Ora,
    Pha,
    Php,
    Pla,
    Plp,
    Rla,
    Rra,
    Rol,
    Ror,
    Rti,
    Rts,
    Sax,
    Sbc,
    Sec,
    Sed,
    Sei,
    Slo,
    Sre,
    Sta,
    Stx,
    Sty,
    Tax,
    Tay,
    Tsx,
    Txa,
    Txs,
    Tya,
}

/// Describes the state of execution for an instruction.
///
/// To achive low-level cycle-stepping of CPU instructions, this struct holds
/// the relavant data of whatever instruction is currently being executed by the CPU. This can
/// also be thought of as the state of the CPU's "pipeline".
///
/// The temporary fields are _not_ based on any real storage within the CPU; rather they are there
/// for emulation purposes so that the emulator can exit and resume an instruction after each cycle.
#[derive(Copy, Clone, Debug, PartialEq, Eq, Structural)]
pub struct InstructionProcedure {
    pub done: bool,
    pub op: Op,
    pub mode: AddrMode,
    pub cycle: u8,
    pub tmp0: u8,
    pub tmp1: u8,
    pub tmp_addr: u16,
}

/// The registers at the start of an instruction, as a trace log shows
/// them.
#[derive(Debug, Default, Copy, Clone, PartialEq, Eq, Structural)]
pub struct TestState {
    pub pc: u16,
    pub opcode: u8,
    pub sp: u8,
    pub status: u8,
    pub acc: u8,
    pub x: u8,
    pub y: u8,
    pub cyc: u64,
}

/// The CPU: its registers, its lines, the instruction in flight, and the
/// console's 2 KiB of work RAM.
#[derive(Clone, Debug, PartialEq, Eq)]
pub struct Cpu {
    pub wram: [u8; 0x800],
    pub pc: u16,
    pub sp: u8,
    pub status: StatusReg,
    pub acc: u8,
    pub x: u8,
    pub y: u8,
    /// active-low
    pub rdy: bool,
    /// active-low
    pub nmi: bool,
    /// active-low
    pub irq: bool,
    /// The NMI line has been high since the last NMI was taken.
    pub nmi_armed: bool,
    /// The NMI line has gone low while armed, and no NMI was taken since.
    pub nmi_pending: bool,
    /// Predecode Register (PD)
    pub predecode: u8,
    pub proc: InstructionProcedure,
    pub clock_divider: ClockDivider<12>,
    pub cyc: u64,
    pub last_state: Option<TestState>,
}

impl InstructionProcedure {
    /// A micro-program at its first cycle, the opcode fetch.
    pub open spec fn start(op: Op, mode: AddrMode) -> InstructionProcedure {
        InstructionProcedure { done: false, op, mode, cycle: 1, tmp0: 0, tmp1: 0, tmp_addr: 0 }
    }

    /// The slot before any instruction has entered it.
    pub open spec fn idle() -> InstructionProcedure {
        InstructionProcedure { done: true, ..Self::start(Op::Idle, AddrMode::Implied) }
    }

    pub fn new(step_func: Op, addr_mode: AddrMode) -> (p: Self)
        ensures
            p == Self::start(step_func, addr_mode),
    {
        Self {
            done: false,
            op: step_func,
            mode: addr_mode,
            cycle: 1,
            tmp0: 0,
            tmp1: 0,
            tmp_addr: 0,
        }
    }
}

impl Cpu {
    /// The CPU at power-up: registers clear, the stack index at `$FD`,
    /// the status at its reset value, all lines high, no instruction in
    /// flight.
    pub open spec fn power_on() -> Cpu {
        Cpu {
            wram: spec_array_fill_for_copy_type::<u8, 0x800>(0u8),
            pc: 0,
            sp: 0xFD,
            status: StatusReg::reset_value(),
            acc: 0,
            x: 0,
            y: 0,
            rdy: true,
            nmi: true,
            irq: true,
            nmi_armed: true,
            nmi_pending: false,
            predecode: 0,
            proc: InstructionProcedure::idle(),
            clock_divider: ClockDivider { counter: 0 },
            cyc: 0,
            last_state: None,
        }
    }

    pub fn new() -> (cpu: Cpu)
        ensures
            cpu == Self::power_on(),
    {
        let mut proc = InstructionProcedure::new(Op::Idle, AddrMode::Implied);
        proc.done = true;

        Cpu {
            wram: [0u8; 0x800],
            pc: 0,
            sp: 0xFD,  // actually this is potentialy random at power-on // software typically initializes this to 0xFF
            status: StatusReg::new(),
            acc: 0,
            x: 0,
            y: 0,
            rdy: true,
            nmi: true,
            irq: true,
            nmi_armed: true,
            nmi_pending: false,
            predecode: 0,
            proc,
            clock_divider: ClockDivider::new(0),
            cyc: 0,
            last_state: None,
        }
    }
}

impl Default for Cpu {
    fn default() -> (cpu: Self)
        ensures
            cpu == Self::power_on(),
    {
        Cpu::new()
    }
}

impl Nes {
    /// The machine with `cpu` in place of its CPU.
    pub open spec fn with_cpu(self, cpu: Cpu) -> Nes {
        Nes { cpu, ..self }
    }

    /// The machine with `proc` as the instruction in flight.
    pub open spec fn with_proc(self, proc: InstructionProcedure) -> Nes {
        self.with_cpu(Cpu { proc, ..self.cpu })
    }

    /// The machine with the program counter at `pc`.
    pub open spec fn with_pc(self, pc: u16) -> Nes {
        self.with_cpu(Cpu { pc, ..self.cpu })
    }

    /// The machine with `value` in the first scratch byte.
    pub open spec fn with_tmp0(self, value: u8) -> Nes {
        self.with_proc(InstructionProcedure { tmp0: value, ..self.cpu.proc })
    }

    /// The machine with `value` in the second scratch byte.
    pub open spec fn with_tmp1(self, value: u8) -> Nes {
        self.with_proc(InstructionProcedure { tmp1: value, ..self.cpu.proc })
    }

    /// The machine with `addr` in the scratch address.
    pub open spec fn with_tmp_addr(self, addr: u16) -> Nes {
        self.with_proc(InstructionProcedure { tmp_addr: addr, ..self.cpu.proc })
    }

    /// The machine with the instruction in flight marked done.
    pub open spec fn finished(self) -> Nes {
        self.with_proc(InstructionProcedure { done: true, ..self.cpu.proc })
    }

    /// The machine after a read at `addr` whose byte is dropped.
    pub open spec fn after_read(self, addr: u16) -> Nes {
        self.read_spec(addr).0
    }

    /// The machine after a read at `addr` into the first scratch byte.
    pub open spec fn read_tmp0(self, addr: u16) -> Nes {
        self.read_spec(addr).0.with_tmp0(self.read_spec(addr).1)
    }

    /// The machine after a read at `addr` into the second scratch byte.
    pub open spec fn read_tmp1(self, addr: u16) -> Nes {
        self.read_spec(addr).0.with_tmp1(self.read_spec(addr).1)
    }

    /// The machine after a read at the program counter, which moves on
    /// by one, and the byte read.
    pub open spec fn fetch_spec(self) -> (Nes, u8) {
        let (n, data) = self.read_spec(self.cpu.pc);
        (n.with_pc(n.cpu.pc.wrapping_add(1)), data)
    }

    /// The machine after a fetch whose byte is dropped.
    pub open spec fn after_fetch(self) -> Nes {
        self.fetch_spec().0
    }

    /// The machine after a fetch into the first scratch byte.
    pub open spec fn fetch_tmp0(self) -> Nes {
        self.fetch_spec().0.with_tmp0(self.fetch_spec().1)
    }

    /// The machine after a fetch into the second scratch byte.
    pub open spec fn fetch_tmp1(self) -> Nes {
        self.fetch_spec().0.with_tmp1(self.fetch_spec().1)
    }

    /// The address of the stack's free slot, in page 1.
    pub open spec fn stack_addr(self) -> u16 {
        (0x100 + self.cpu.sp) as u16
    }

    /// The machine after a push: `data` is written to the free slot and
    /// the stack index moves down, from `$00` to `$FF`.
    pub open spec fn push_spec(self, data: u8) -> Nes {
        let n = self.write_spec(self.stack_addr(), data);
        n.with_cpu(Cpu { sp: n.cpu.sp.wrapping_sub(1), ..n.cpu })
    }

    /// The machine after a pull: the stack index moves up, from `$FF` to
    /// `$00`, and the slot that it then names is read.
    pub open spec fn pull_spec(self) -> (Nes, u8) {
        let n = self.with_cpu(Cpu { sp: self.cpu.sp.wrapping_add(1), ..self.cpu });
        n.read_spec(n.stack_addr())
    }
}

impl Cpu {
    /// All of `self` but the work RAM, the predecode register and the NMI
    /// line, which a bus access can change, is as in `other`.
    pub open spec fn same_registers(self, other: Cpu) -> bool {
        self == Cpu { wram: self.wram, predecode: self.predecode, nmi: self.nmi, ..other }
    }

    pub(crate) fn fetch(nes: &mut Nes) -> (data: u8)
        ensures
            (*final(nes), data) == old(nes).fetch_spec(),
            final(nes).cpu.same_registers(Cpu { pc: final(nes).cpu.pc, ..old(nes).cpu }),
            old(nes).ppu.wf() ==> final(nes).ppu.wf(),
    {
        let fetch = nes.read(nes.cpu.pc);
        nes.cpu.pc = nes.cpu.pc.wrapping_add(1);

        fetch
    }

    pub(crate) fn stack_push(nes: &mut Nes, data: u8)
        ensures
            *final(nes) == old(nes).push_spec(data),
            final(nes).cpu.same_registers(Cpu { sp: final(nes).cpu.sp, ..old(nes).cpu }),
            old(nes).ppu.wf() ==> final(nes).ppu.wf(),
    {
        nes.write(0x100 + nes.cpu.sp as u16, data);
        nes.cpu.sp = nes.cpu.sp.wrapping_sub(1);
    }

    pub(crate) fn stack_pull(nes: &mut Nes) -> (data: u8)
        ensures
            (*final(nes), data) == old(nes).pull_spec(),
            final(nes).cpu.same_registers(Cpu { sp: final(nes).cpu.sp, ..old(nes).cpu }),
            old(nes).ppu.wf() ==> final(nes).ppu.wf(),
    {
        nes.cpu.sp = nes.cpu.sp.wrapping_add(1);
        nes.read(0x100 + nes.cpu.sp as u16)
    }
}

impl InstructionProcedure {
    /// One cycle of an instruction that reads its operand.
    fn execute_read(nes: &mut Nes)
        requires
            old(nes).cpu.proc.wf(),
            kind_of(old(nes).cpu.proc.op, old(nes).cpu.proc.mode) == Kind::Read,
        ensures
            *final(nes) == Self::execute_spec(*old(nes)),
    {
        match nes.cpu.proc.op {
            Op::Adc => instructions::adc(nes),
            Op::And => instructions::and(nes),
            Op::Bit => instructions::bit(nes),
            Op::Cmp => instructions::cmp(nes),
            Op::Cpx => instructions::cpx(nes),
            Op::Cpy => instructions::cpy(nes),
            Op::Eor => instructions::eor(nes),
            Op::Las => instructions::las(nes),
            Op::Lax => instructions::lax(nes),
            Op::Lda => instructions::lda(nes),
            Op::Ldx => instructions::ldx(nes),
            Op::Ldy => instructions::ldy(nes),
            Op::Ora => instructions::ora(nes),
            Op::Sbc => instructions::sbc(nes),
            _ => instructions::nop(nes),
        }
    }

    /// One cycle of an instruction that modifies its operand.
    fn execute_modify(nes: &mut Nes)
        requires
            old(nes).cpu.proc.wf(),
            kind_of(old(nes).cpu.proc.op, old(nes).cpu.proc.mode) == Kind::Modify,
        ensures
            *final(nes) == Self::execute_spec(*old(nes)),
    {
        match nes.cpu.proc.op {
            Op::Asl => instructions::asl(nes),
            Op::Lsr => instructions::lsr(nes),
            Op::Rol => instructions::rol(nes),
            Op::Ror => instructions::ror(nes),
            Op::Dcp => instructions::dcp(nes),
            Op::Dec => instructions::dec(nes),
            Op::Inc => instructions::inc(nes),
            Op::Isb => instructions::isb(nes),
            Op::Rla => instructions::rla(nes),
            Op::Rra => instructions::rra(nes),
            Op::Slo => instructions::slo(nes),
            _ => instructions::sre(nes),
        }
    }

    /// One cycle of an instruction without an operand in memory.
    fn execute_implied(nes: &mut Nes)
        requires
            old(nes).cpu.proc.wf(),
            kind_of(old(nes).cpu.proc.op, old(nes).cpu.proc.mode) == Kind::Implied,
        ensures
            *final(nes) == Self::execute_spec(*old(nes)),
    {
        match nes.cpu.proc.op {
            Op::Asl => instructions::asl(nes),
            Op::Lsr => instructions::lsr(nes),
            Op::Rol => instructions::rol(nes),
            Op::Ror => instructions::ror(nes),
            Op::Nop => instructions::nop(nes),
            Op::Clc => registers::clc(nes),
            Op::Cld => registers::cld(nes),
            Op::Cli => registers::cli(nes),
            Op::Clv => registers::clv(nes),
            Op::Sec => registers::sec(nes),
            Op::Sed => registers::sed(nes),
            Op::Sei => registers::sei(nes),
            Op::Dex => registers::dex(nes),
            Op::Dey => registers::dey(nes),
            Op::Inx => registers::inx(nes),
            Op::Iny => registers::iny(nes),
            Op::Tax => registers::tax(nes),
            Op::Tay => registers::tay(nes),
            Op::Tsx => registers::tsx(nes),
            Op::Txa => registers::txa(nes),
            Op::Txs => registers::txs(nes),
            _ => registers::tya(nes),
        }
    }

    /// One cycle of a branch.
    fn execute_branch(nes: &mut Nes)
        requires
            kind_of(old(nes).cpu.proc.op, old(nes).cpu.proc.mode) == Kind::Branch,
        ensures
            *final(nes) == Self::execute_spec(*old(nes)),
    {
        match nes.cpu.proc.op {
            Op::Bcc => control::bcc(nes),
            Op::Bcs => control::bcs(nes),
            Op::Beq => control::beq(nes),
            Op::Bmi => control::bmi(nes),
            Op::Bne => control::bne(nes),
            Op::Bpl => control::bpl(nes),
            Op::Bvc => control::bvc(nes),
            _ => control::bvs(nes),
        }
    }

    /// One cycle of an instruction with a sequence of its own, or of the
    /// entry into an interrupt handler.
    fn execute_sequence(nes: &mut Nes)
        requires
            old(nes).cpu.proc.wf(),
            kind_of(old(nes).cpu.proc.op, old(nes).cpu.proc.mode) == Kind::Sequence,
        ensures
            *final(nes) == Self::execute_spec(*old(nes)),
    {
        match nes.cpu.proc.op {
            Op::Nmi => control::interrupt(nes, NMI_VECTOR, false),
            Op::Irq => control::interrupt(nes, IRQ_VECTOR, false),
            Op::Brk => control::brk(nes),
            Op::Jmp => control::jmp(nes),
            Op::Jsr => control::jsr(nes),
            Op::Rts => control::rts(nes),
            Op::Rti => control::rti(nes),
            Op::Pha => control::pha(nes),
            Op::Php => control::php(nes),
            Op::Pla => control::pla(nes),
            _ => control::plp(nes),
        }
    }

    /// The shape of the micro-program of the instruction in flight.
    fn kind(&self) -> (k: Kind)
        ensures
            k == kind_of(self.op, self.mode),
    {
        match self.op {
            Op::Idle => Kind::Idle,
            Op::Adc
            | Op::And
            | Op::Bit
            | Op::Cmp
            | Op::Cpx
            | Op::Cpy
            | Op::Eor
            | Op::Las
            | Op::Lax
            | Op::Lda
            | Op::Ldx
            | Op::Ldy
            | Op::Ora
            | Op::Sbc => Kind::Read,
            Op::Nop => if self.mode == AddrMode::Implied {
                Kind::Implied
            } else {
                Kind::Read
            },
            Op::Sax | Op::Sta | Op::Stx | Op::Sty => Kind::Store,
            Op::Dcp | Op::Dec | Op::Inc | Op::Isb | Op::Rla | Op::Rra | Op::Slo | Op::Sre => Kind::Modify,
            Op::Asl | Op::Lsr | Op::Rol | Op::Ror => if self.mode == AddrMode::Accumulator {
                Kind::Implied
            } else {
                Kind::Modify
            },
            Op::Clc
            | Op::Cld
            | Op::Cli
            | Op::Clv
            | Op::Sec
            | Op::Sed
            | Op::Sei
            | Op::Dex
            | Op::Dey
            | Op::Inx
            | Op::Iny
            | Op::Tax
            | Op::Tay
            | Op::Tsx
            | Op::Txa
            | Op::Txs
            | Op::Tya => Kind::Implied,
            Op::Bcc | Op::Bcs | Op::Beq | Op::Bmi | Op::Bne | Op::Bpl | Op::Bvc | Op::Bvs => Kind::Branch,
            _ => Kind::Sequence,
        }
    }

    /// Runs one cycle of the instruction in flight.
    pub fn step(nes: &mut Nes)
        requires
            old(nes).cpu.proc.wf(),
            !old(nes).cpu.proc.done,
        ensures
            *final(nes) == Self::step_spec(*old(nes)),
            final(nes).cpu.proc.wf(),
            final(nes).cpu.clock_divider == old(nes).cpu.clock_divider,
            old(nes).ppu.wf() ==> final(nes).ppu.wf(),
    {
        proof {
            lemma_timing(*nes);
        }
        match nes.cpu.proc.kind() {
            Kind::Idle => (),
            Kind::Read => Self::execute_read(nes),
            Kind::Store => match nes.cpu.proc.op {
                Op::Sax => instructions::sax(nes),
                Op::Sta => instructions::sta(nes),
                Op::Stx => instructions::stx(nes),
                _ => instructions::sty(nes),
            },
            Kind::Modify => Self::execute_modify(nes),
            Kind::Implied => Self::execute_implied(nes),
            Kind::Branch => Self::execute_branch(nes),
            Kind::Sequence => Self::execute_sequence(nes),
        }
        nes.cpu.proc.cycle += 1;
    }
}

impl Cpu {
    /// The CPU after it has looked at the NMI line: a high line arms the
    /// edge detector, and a low line that finds it armed makes an NMI
    /// pending.
    pub open spec fn polled(self) -> Cpu {
        if self.nmi {
            Cpu { nmi_armed: true, ..self }
        } else if self.nmi_armed {
            Cpu { nmi_pending: true, ..self }
        } else {
            self
        }
    }

    /// The registers as a trace shows them for the instruction whose
    /// opcode was fetched at `pc`.
    pub open spec fn snapshot(self, pc: u16, opcode: u8) -> TestState {
        TestState {
            pc,
            opcode,
            sp: self.sp,
            status: self.status.0,
            acc: self.acc,
            x: self.x,
            y: self.y,
            cyc: self.cyc,
        }
    }

    /// The machine after the first cycle of the entry into an interrupt
    /// handler, which takes the place of an opcode fetch: a read at the
    /// program counter, which stays. The pending NMI, if it is one, is
    /// taken, and the edge detector waits for the line to go high.
    pub open spec fn interrupt_begun(n: Nes, op: Op) -> Nes {
        let n1 = n.after_read(n.cpu.pc);
        let proc = InstructionProcedure { cycle: 2, ..InstructionProcedure::start(op, AddrMode::Auto) };
        if op == Op::Nmi {
            n1.with_cpu(Cpu { proc, nmi_pending: false, nmi_armed: false, ..n1.cpu })
        } else {
            n1.with_proc(proc)
        }
    }

    /// The machine after an opcode fetch: the opcode's micro-program is
    /// in flight at cycle 2 and the registers are noted for the trace, or
    /// the opcode has none and that is a fault.
    pub open spec fn fetched(n: Nes) -> Nes {
        let (n1, opcode) = n.fetch_spec();
        match decode_spec(opcode) {
            Some((op, mode)) => n1.with_cpu(
                Cpu {
                    proc: InstructionProcedure { cycle: 2, ..InstructionProcedure::start(op, mode) },
                    last_state: Some(n1.cpu.snapshot(n.cpu.pc, opcode)),
                    ..n1.cpu
                },
            ),
            None => n1.faulted(Fault::InvalidOpcode { pc: n.cpu.pc, opcode }),
        }
    }

    /// The machine after the cycle that follows a finished instruction:
    /// the entry into the NMI handler if an NMI is pending, into the IRQ
    /// handler if the IRQ line is low and I is clear, and an opcode fetch
    /// otherwise.
    pub open spec fn begun(n: Nes) -> Nes {
        if n.cpu.nmi_pending {
            Self::interrupt_begun(n, Op::Nmi)
        } else if !n.cpu.irq && !n.cpu.status.has(INTERRUPT_DISABLE) {
            Self::interrupt_begun(n, Op::Irq)
        } else {
            Self::fetched(n)
        }
    }

    /// The machine one CPU cycle later.
    ///
    /// While the ready line is low or a fault stands, nothing happens.
    /// Otherwise the CPU looks at the NMI line, then starts an
    /// instruction if none is in flight and else runs one cycle of the
    /// one in flight, and counts the cycle.
    pub open spec fn cycle_spec(n: Nes) -> Nes {
        if !n.cpu.rdy || n.fault is Some {
            n
        } else {
            let n0 = n.with_cpu(n.cpu.polled());
            let n1 = if n0.cpu.proc.done {
                Self::begun(n0)
            } else {
                InstructionProcedure::step_spec(n0)
            };
            n1.with_cpu(Cpu { cyc: n1.cpu.cyc.wrapping_add(1), ..n1.cpu })
        }
    }

    /// The machine one master tick later, as far as the CPU goes: every
    /// twelfth tick is a CPU cycle.
    pub open spec fn tick_spec(n: Nes) -> Nes {
        let (divider, fired) = n.cpu.clock_divider.tick_spec();
        let n1 = n.with_cpu(Cpu { clock_divider: divider, ..n.cpu });
        if fired {
            Self::cycle_spec(n1)
        } else {
            n1
        }
    }

    /// The machine after the reset sequence: the fault is cleared and the
    /// count of bus accesses starts anew, the program counter is read
    /// from the reset vector, the stack index is `$FD`, the status has I,
    /// B and bit 5 set, no instruction is in flight and no NMI pending,
    /// and the byte at the program counter is in the predecode register.
    pub open spec fn reset_spec(n: Nes) -> Nes {
        let n0 = Nes { fault: None, accesses: 0, ..n };
        let (n1, low) = n0.read_spec(RESET_VECTOR);
        let (n2, high) = n1.read_spec((RESET_VECTOR + 1) as u16);
        let pc = concat_spec(high, low);
        let n3 = n2.with_cpu(
            Cpu {
                pc,
                sp: 0xFD,
                status: StatusReg::reset_value(),
                proc: InstructionProcedure::idle(),
                nmi_armed: true,
                nmi_pending: false,
                ..n2.cpu
            },
        );
        n3.after_read(pc)
    }

    /// The dividers are in range and the instruction in flight is inside
    /// its micro-program.
    pub open spec fn wf(self) -> bool {
        self.clock_divider.wf() && self.proc.wf()
    }

    /// Runs the reset sequence.
    pub fn init_pc(nes: &mut Nes)
        ensures
            *final(nes) == Self::reset_spec(*old(nes)),
            final(nes).cpu.proc.wf(),
            final(nes).cpu.clock_divider == old(nes).cpu.clock_divider,
            old(nes).ppu.wf() ==> final(nes).ppu.wf(),
    {
        nes.fault = None;
        nes.accesses = 0;
        let low = nes.read(RESET_VECTOR);
        let high = nes.read(RESET_VECTOR + 1);
        nes.cpu.pc = addr_concat(high, low);
        nes.cpu.sp = 0xFD;
        nes.cpu.status = StatusReg::new();
        nes.cpu.proc = InstructionProcedure::new(Op::Idle, AddrMode::Implied);
        nes.cpu.proc.done = true;
        nes.cpu.nmi_armed = true;
        nes.cpu.nmi_pending = false;
        nes.read(nes.cpu.pc);  // loads predecode register
    }

    #[inline(always)]
    pub fn tick(nes: &mut Nes)
        requires
            old(nes).cpu.wf(),
        ensures
            *final(nes) == Self::tick_spec(*old(nes)),
            final(nes).cpu.wf(),
            old(nes).ppu.wf() ==> final(nes).ppu.wf(),
    {
        if nes.cpu.clock_divider.tick() {
            Cpu::cycle(nes);
        }
    }

    /// Looks at the NMI line.
    fn poll(nes: &mut Nes)
        ensures
            *final(nes) == old(nes).with_cpu(old(nes).cpu.polled()),
    {
        if nes.cpu.nmi {
            nes.cpu.nmi_armed = true;
        } else if nes.cpu.nmi_armed {
            nes.cpu.nmi_pending = true;
        }
    }

    /// Starts the entry into an interrupt handler.
    fn begin_interrupt(nes: &mut Nes, op: Op)
        requires
            op == Op::Nmi || op == Op::Irq,
        ensures
            *final(nes) == Self::interrupt_begun(*old(nes), op),
            final(nes).cpu.proc.wf(),
            final(nes).cpu.clock_divider == old(nes).cpu.clock_divider,
            old(nes).ppu.wf() ==> final(nes).ppu.wf(),
    {
        nes.read(nes.cpu.pc);
        nes.cpu.proc = InstructionProcedure::new(op, AddrMode::Auto);
        nes.cpu.proc.cycle = 2;
        if op == Op::Nmi {
            nes.cpu.nmi_pending = false;
            nes.cpu.nmi_armed = false;
        }
    }

    /// Fetches and decodes an opcode.
    fn begin_instruction(nes: &mut Nes)
        requires
            old(nes).cpu.proc.wf(),
            old(nes).cpu.proc.done,
        ensures
            *final(nes) == Self::fetched(*old(nes)),
            final(nes).cpu.proc.wf(),
            final(nes).cpu.clock_divider == old(nes).cpu.clock_divider,
            old(nes).ppu.wf() ==> final(nes).ppu.wf(),
    {
        let pc = nes.cpu.pc;
        let opcode = Cpu::fetch(nes);
        proof {
            lemma_decode_valid(opcode);
        }
        match decode(opcode) {
            Some((op, mode)) => {
                nes.cpu.proc = InstructionProcedure::new(op, mode);
                nes.cpu.last_state = Some(
                    TestState {
                        pc,
                        opcode,
                        sp: nes.cpu.sp,
                        status: nes.cpu.status.bits(),
                        acc: nes.cpu.acc,
                        x: nes.cpu.x,
                        y: nes.cpu.y,
                        cyc: nes.cpu.cyc,
                    },
                );
                nes.cpu.proc.cycle = 2;  // the decode above costs 1 cycle
            },
            None => nes.raise(Fault::InvalidOpcode { pc, opcode }),
        }
    }

    pub fn cycle(nes: &mut Nes)
        requires
            old(nes).cpu.proc.wf(),
        ensures
            *final(nes) == Self::cycle_spec(*old(nes)),
            final(nes).cpu.proc.wf(),
            final(nes).cpu.clock_divider == old(nes).cpu.clock_divider,
            old(nes).ppu.wf() ==> final(nes).ppu.wf(),
    {
        if !nes.cpu.rdy || nes.fault.is_some() {
            return ;
        }
        Cpu::poll(nes);

        if nes.cpu.proc.done {
            if nes.cpu.nmi_pending {
                Cpu::begin_interrupt(nes, Op::Nmi);
            } else if !nes.cpu.irq && !nes.cpu.status.contains(INTERRUPT_DISABLE) {
                Cpu::begin_interrupt(nes, Op::Irq);
            } else {
                Cpu::begin_instruction(nes);
            }
        } else {
            InstructionProcedure::step(nes);
        }

        nes.cpu.cyc = nes.cpu.cyc.wrapping_add(1);
    }
}

impl InstructionProcedure {
    /// Whether the instruction in flight is well formed.
    pub fn is_wf(&self) -> (b: bool)
        ensures
            b == self.wf(),
    {
        let kind = self.kind();
        let operand = match self.mode {
            AddrMode::Immediate
            | AddrMode::Zero
            | AddrMode::ZeroX
            | AddrMode::ZeroY
            | AddrMode::Absolute
            | AddrMode::AbsoluteX
            | AddrMode::AbsoluteY
            | AddrMode::IndirectX
            | AddrMode::IndirectY => true,
            _ => false,
        };
        let valid = match kind {
            Kind::Read => operand,
            Kind::Store => operand && self.mode != AddrMode::Immediate,
            Kind::Modify => operand && self.mode != AddrMode::Immediate && self.mode
                != AddrMode::ZeroY,
            _ => self.op != Op::Jmp || self.mode == AddrMode::Absolute || self.mode
                == AddrMode::Indirect,
        };
        valid && (self.done || (2 <= self.cycle && self.cycle <= self.longest()))
    }

    /// The most cycles that the instruction in flight can take.
    fn longest(&self) -> (cycles: u8)
        ensures
            cycles == timing::max_cycles(self.op, self.mode),
    {
        let operand: u8 = match self.mode {
            AddrMode::Immediate => 2,
            AddrMode::Zero => 3,
            AddrMode::ZeroX
            | AddrMode::ZeroY
            | AddrMode::Absolute
            | AddrMode::AbsoluteX
            | AddrMode::AbsoluteY => 4,
            AddrMode::IndirectY => 5,
            _ => 6,
        };
        let indexed: u8 = match self.mode {
            AddrMode::AbsoluteX | AddrMode::AbsoluteY | AddrMode::IndirectY => 1,
            _ => 0,
        };
        match self.kind() {
            Kind::Idle => 0,
            Kind::Read => operand + indexed,
            Kind::Store => operand + indexed,
            Kind::Modify => operand + indexed + 2,
            Kind::Implied => 2,
            Kind::Branch => 4,
            Kind::Sequence => match self.op {
                Op::Pha | Op::Php => 3,
                Op::Pla | Op::Plp => 4,
                Op::Jmp => if self.mode == AddrMode::Absolute {
                    3
                } else {
                    5
                },
                Op::Jsr | Op::Rts | Op::Rti => 6,
                _ => 7,
            },
        }
    }
}

/// A read leaves the cartridge as it is: neither of the two mappings
/// changes when it is read.
pub proof fn lemma_read_keeps_mapper(n: Nes, addr: u16)
    ensures
        n.read_spec(addr).0.cart == n.cart,
{
    reveal(Nes::read_spec);
}

/// The reset sequence leaves the cartridge as it is.
pub proof fn lemma_reset_keeps_mapper(n: Nes)
    ensures
        Cpu::reset_spec(n).cart == n.cart,
{
    let n0 = Nes { fault: None, accesses: 0, ..n };
    lemma_read_keeps_mapper(n0, RESET_VECTOR);
    let n1 = n0.read_spec(RESET_VECTOR).0;
    lemma_read_keeps_mapper(n1, (RESET_VECTOR + 1) as u16);
    let n2 = n1.read_spec((RESET_VECTOR + 1) as u16);
    let pc = concat_spec(n2.1, n0.read_spec(RESET_VECTOR).1);
    let n3 = n2.0.with_cpu(
        Cpu {
            pc,
            sp: 0xFD,
            status: StatusReg::reset_value(),
            proc: InstructionProcedure::idle(),
            nmi_armed: true,
            nmi_pending: false,
            ..n2.0.cpu
        },
    );
    lemma_read_keeps_mapper(n3, pc);
}

/// Whether a read at `addr` changes nothing but the record of the
/// access: every address outside the PPU's ports is such.
pub open spec fn plain_read(addr: u16) -> bool {
    !(0x2000 <= addr < 0x4000)
}

/// A second reset changes nothing, when the reset vector points
/// outside the PPU's ports: the machine after a reset, and so the
/// machine after a cartridge was loaded, is the machine that a reset of
/// it gives.
pub proof fn lemma_reset_idempotent(n: Nes)
    requires
        plain_read(Cpu::reset_spec(n).cpu.pc),
    ensures
        Cpu::reset_spec(Cpu::reset_spec(n)) == Cpu::reset_spec(n),
{
    reveal(Nes::read_spec);
}

/// A CPU cycle keeps the instruction in flight inside its
/// micro-program and the PPU well formed, and touches neither divider
/// nor the beam. Unless the CPU stands still, the cycle makes exactly
/// one bus access.
pub proof fn lemma_cycle_kept(n: Nes)
    requires
        n.cpu.proc.wf(),
    ensures
        Cpu::cycle_spec(n).cpu.proc.wf(),
        Cpu::cycle_spec(n).cpu.clock_divider == n.cpu.clock_divider,
        n.ppu.wf() ==> Cpu::cycle_spec(n).ppu.wf(),
        Cpu::cycle_spec(n).ppu.same_clock(n.ppu),
        Cpu::cycle_spec(n).accesses == if n.cpu.rdy && n.fault is None {
            n.accesses.wrapping_add(1)
        } else {
            n.accesses
        },
{
    lemma_bus_frame();
    if n.cpu.rdy && n.fault is None {
        let n0 = n.with_cpu(n.cpu.polled());
        if n0.cpu.proc.done {
            lemma_decode_valid(n0.fetch_spec().1);
        } else {
            lemma_timing(n0);
        }
    }
}

/// When no instruction is in flight and the NMI line is low with the
/// edge detector armed, or an NMI is pending, the next cycle of a running
/// CPU is no opcode fetch: it starts the NMI sequence, reads at the
/// program counter and leaves it where it is.
pub proof fn lemma_nmi_taken(n: Nes)
    requires
        n.cpu.proc.done,
        n.cpu.rdy,
        n.fault is None,
        n.cpu.nmi_pending || (!n.cpu.nmi && n.cpu.nmi_armed),
    ensures
        Cpu::cycle_spec(n).cpu.proc == (InstructionProcedure {
            cycle: 2,
            ..InstructionProcedure::start(Op::Nmi, AddrMode::Auto)
        }),
        Cpu::cycle_spec(n).cpu.pc == n.cpu.pc,
        !Cpu::cycle_spec(n).cpu.nmi_pending,
        !Cpu::cycle_spec(n).cpu.nmi_armed,
        Cpu::cycle_spec(n).cpu.last_state == n.cpu.last_state,
{
    lemma_bus_frame();
}

/// What is pushed is pulled: a pull after a push gives the byte that
/// was pushed and leaves the stack index where it was before the push.
/// The stack lies in work RAM, whatever the stack index is.
pub proof fn lemma_push_pull(n: Nes, data: u8)
    ensures
        n.push_spec(data).pull_spec().1 == data,
        n.push_spec(data).pull_spec().0.cpu.sp == n.cpu.sp,
{
    reveal(Nes::read_spec);
    reveal(Nes::write_spec);
    broadcast use vstd::array::group_array_axioms;

    let at = (0x100 + n.cpu.sp) as int;
    assert((n.stack_addr() % 0x800) as int == at);
    let pushed = n.push_spec(data);
    assert(pushed.cpu.wram[at] == data);
    assert(pushed.cpu.sp.wrapping_add(1) == n.cpu.sp);
}

/// `PHP` then `PLP` keeps the flags: the status that is pulled after the
/// status was pushed has the six flags as they were, bit 5 set and bit 4
/// clear.
pub proof fn lemma_status_push_pull(n: Nes)
    ensures
        StatusReg::pulled(n.push_spec(n.cpu.status.pushed(true)).pull_spec().1).0 == (
        n.cpu.status.0 & 0b1100_1111) | 0b0010_0000,
{
    lemma_push_pull(n, n.cpu.status.pushed(true));
    crate::arch::cpu::status::lemma_push_pull(n.cpu.status, true);
}

} // verus!
