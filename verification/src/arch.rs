use vstd::prelude::*;
use vstd::array::spec_array_update;

pub mod cartridge;
pub mod cpu;
pub mod mappers;
pub mod ppu;

use crate::arch::cartridge::Cartridge;
use crate::arch::cpu::Cpu;
use crate::arch::mappers::LoadError;
use crate::arch::mappers::MapperKind;
use crate::arch::mappers::RomFile;
use crate::arch::ppu::Ppu;

verus! {


/// A condition from which the machine does not recover. The first one that
/// occurs stays in [`Nes::fault`](struct.Nes.html) and halts the CPU.
#[derive(Clone, Copy, Debug, PartialEq, Eq, Structural)]
pub enum Fault {
    /// The opcode fetched at `pc` has no micro-program.
    InvalidOpcode { pc: u16, opcode: u8 },
    /// A bus access to an address that nothing decodes.
    BusRange { addr: u16 },
}

/// The address, the data and the direction of one bus access.
#[derive(Clone, Copy, Debug, PartialEq, Eq, Structural)]
pub struct BusActivity {
    pub addr: u16,
    pub data: u8,
    pub is_read: bool,
}

/// Collection of major components found within the NES.
///
/// To simplify the access of data from different system components, this struct holds all the major
/// parts, technically giving all components access to all other components. It's up to each
/// component to accurately restrict access.
///
/// For example, the real PPU only has access to the cartridge's CHR RAM/ROM. But to split the
/// cartridge into separate data structures would increase code complexity for little advantage. So
/// here it is represented as a single entity.
#[derive(Debug, Clone, PartialEq, Eq)]
pub struct Nes {
    pub cpu: Cpu,
    pub ppu: Ppu,
    pub cart: Cartridge,
    pub last_bus: BusActivity,
    /// The number of accesses that the CPU's bus has seen, modulo 2^64.
    pub accesses: u64,
    /// The first fault that occurred, if any. The CPU stands still from
    /// then on.
    pub fault: Option<Fault>,
}

impl Nes {
    /// The console at power-up, with an empty cartridge slot.
    pub open spec fn power_on() -> Nes {
        Nes {
            cpu: Cpu::power_on(),
            ppu: Ppu::power_on(),
            cart: Cartridge::empty_spec(),
            last_bus: BusActivity { addr: 0, data: 0, is_read: false },
            accesses: 0,
            fault: None,
        }
    }

    /// The dividers and the beam are in range, and the instruction in
    /// flight is inside its micro-program.
    pub open spec fn wf(self) -> bool {
        self.cpu.wf() && self.ppu.wf()
    }

    /// The machine one master tick later: the CPU's divider and then the
    /// PPU's take the tick.
    pub open spec fn tick_spec(self) -> Nes {
        Ppu::tick_spec(Cpu::tick_spec(self))
    }

    /// The machine `ticks` master ticks later.
    pub open spec fn run(self, ticks: nat) -> Nes
        decreases ticks,
    {
        if ticks == 0 {
            self
        } else {
            self.run((ticks - 1) as nat).tick_spec()
        }
    }

    /// The machine with `mapper` in its cartridge slot.
    pub open spec fn with_mapper(self, mapper: MapperKind) -> Nes {
        Nes { cart: Cartridge { mapper }, ..self }
    }

    /// The machine with `fault` recorded, unless an earlier fault stands.
    pub open spec fn faulted(self, fault: Fault) -> Nes {
        if self.fault is None {
            Nes { fault: Some(fault), ..self }
        } else {
            self
        }
    }

    /// The machine after a read on the CPU's bus, and the byte read.
    ///
    /// Work RAM repeats every 2 KiB up to `$1FFF`, the PPU's ports follow
    /// up to `$3FFF`, the APU and input window up to `$4017` reads as 0,
    /// the test window up to `$401F` is a fault, and the rest is the
    /// cartridge's, where an address that the mapping does not decode is
    /// a fault too. A faulting read gives 0. The byte read goes to the
    /// predecode register, and the access is counted and goes to
    /// `last_bus`.
    #[verifier::opaque]
    pub open spec fn read_spec(self, addr: u16) -> (Nes, u8) {
        let (n, data) = if addr < 0x2000 {
            (self, self.cpu.wram[(addr % 0x800) as int])
        } else if addr < 0x4000 {
            Ppu::port_read_spec(self, addr)
        } else if addr < 0x4018 {
            (self, 0u8)
        } else if addr < 0x4020 || !self.cart.mapper.decodes_cpu(addr) {
            (self.faulted(Fault::BusRange { addr }), 0u8)
        } else {
            let (mapper, data) = self.cart.mapper.cpu_read(addr);
            (Nes { cart: Cartridge { mapper }, ..self }, data)
        };
        (
            Nes {
                cpu: Cpu { predecode: data, ..n.cpu },
                last_bus: BusActivity { addr, data, is_read: true },
                accesses: n.accesses.wrapping_add(1),
                ..n
            },
            data,
        )
    }

    /// The machine after a write of `data` on the CPU's bus.
    ///
    /// The address decodes as for a read; a write to the APU and input
    /// window is lost. The access is counted and goes to `last_bus`.
    #[verifier::opaque]
    pub open spec fn write_spec(self, addr: u16, data: u8) -> Nes {
        let n = if addr < 0x2000 {
            Nes {
                cpu: Cpu {
                    wram: spec_array_update(self.cpu.wram, (addr % 0x800) as int, data),
                    ..self.cpu
                },
                ..self
            }
        } else if addr < 0x4000 {
            Ppu::port_write_spec(self, addr, data)
        } else if addr < 0x4018 {
            self
        } else if addr < 0x4020 || !self.cart.mapper.decodes_cpu(addr) {
            self.faulted(Fault::BusRange { addr })
        } else {
            Nes { cart: Cartridge { mapper: self.cart.mapper.cpu_write(addr, data) }, ..self }
        };
        Nes {
            last_bus: BusActivity { addr, data, is_read: false },
            accesses: n.accesses.wrapping_add(1),
            ..n
        }
    }

    /// Records `fault` unless an earlier one stands.
    pub fn raise(&mut self, fault: Fault)
        ensures
            *final(self) == old(self).faulted(fault),
    {
        if self.fault.is_none() {
            self.fault = Some(fault);
        }
    }

    /// Write to the CPU's external bus.
    ///
    /// This bus is connected to the 2A03 CPU (including the APU and other internal components), PPU, and the cartridge.
    pub fn write(&mut self, addr: u16, data: u8)
        ensures
            *final(self) == old(self).write_spec(addr, data),
            old(self).ppu.wf() ==> final(self).ppu.wf(),
            final(self).cpu.same_registers(old(self).cpu),
    {
        reveal(Nes::write_spec);
        if addr < 0x2000 {
            self.cpu.wram[(addr % 0x800) as usize] = data;
        } else if addr < 0x4000 {
            Ppu::port_write(self, addr, data);
        } else if addr < 0x4018 {
        } else if addr < 0x4020 || !self.cart.mapper.maps_cpu(addr) {
            self.raise(Fault::BusRange { addr });
        } else {
            self.cart.mapper.write_cpu(addr, data);
        }

        self.last_bus = BusActivity { addr, data, is_read: false };
        self.accesses = self.accesses.wrapping_add(1);
    }

    /// Read from the CPU's external bus.
    ///
    /// This bus is connected to the 2A03 CPU (including the APU and other internal components), PPU, and the cartridge.
    pub fn read(&mut self, addr: u16) -> (data: u8)
        ensures
            (*final(self), data) == old(self).read_spec(addr),
            old(self).ppu.wf() ==> final(self).ppu.wf(),
            final(self).cpu.same_registers(old(self).cpu),
    {
        reveal(Nes::read_spec);
        let data = if addr < 0x2000 {
            self.cpu.wram[(addr % 0x800) as usize]
        } else if addr < 0x4000 {
            Ppu::port_read(self, addr)
        } else if addr < 0x4018 {
            0
        } else if addr < 0x4020 || !self.cart.mapper.maps_cpu(addr) {
            self.raise(Fault::BusRange { addr });
            0
        } else {
            self.cart.mapper.read_cpu(addr)
        };

        self.cpu.predecode = data;

        self.last_bus = BusActivity { addr, data, is_read: true };
        self.accesses = self.accesses.wrapping_add(1);

        data
    }

    /// Advances the machine by one tick of the master clock.
    #[inline(always)]
    pub fn tick(&mut self)
        requires
            old(self).wf(),
        ensures
            *final(self) == old(self).tick_spec(),
            final(self).wf(),
    {
        Cpu::tick(self);
        Ppu::tick(self);
    }

    /// Runs the CPU's reset sequence.
    pub fn reset(&mut self)
        ensures
            *final(self) == Cpu::reset_spec(*old(self)),
            old(self).wf() ==> final(self).wf(),
    {
        Cpu::init_pc(self);
    }

    /// Puts the cartridge that `rom` describes into the slot and resets
    /// the CPU, or leaves the machine untouched when no mapping takes
    /// the image.
    pub fn load_rom(&mut self, rom: RomFile) -> (r: Result<(), LoadError>)
        ensures
            match r {
                Ok(()) => {
                    &&& rom.mapper_result(Ok(final(self).cart.mapper))
                    &&& *final(self) == Cpu::reset_spec(
                        old(self).with_mapper(final(self).cart.mapper),
                    )
                },
                Err(e) => rom.mapper_result(Err(e)) && *final(self) == *old(self),
            },
            old(self).wf() ==> final(self).wf(),
    {
        match rom.into_mapper() {
            Ok(mapper) => {
                self.cart.mapper = mapper;
                proof {
                    crate::arch::cpu::lemma_reset_keeps_mapper(*self);
                }
                Cpu::init_pc(self);
                Ok(())
            },
            Err(e) => Err(e),
        }
    }

    /// The picture: 240 rows of 256 dots, each as the host shows it.
    pub fn frame_buffer(&self) -> (fb: &[u32; 61440])
        ensures
            *fb == self.ppu.fb,
    {
        &self.ppu.fb
    }

    /// Whether the machine is well formed.
    pub fn is_wf(&self) -> (b: bool)
        ensures
            b == self.wf(),
    {
        self.cpu.clock_divider.counter < 12 && self.cpu.proc.is_wf()
            && self.ppu.clock_divider.counter < 4 && self.ppu.pos.cycle < 341
            && self.ppu.pos.scanline < 262 && self.ppu.fine_x_scroll < 8 && (
        self.ppu.ctrl_unlocked || self.ppu.cycles_since_pwrrst < crate::arch::ppu::UNLOCK_AFTER)
    }

    pub fn new() -> (nes: Nes)
        ensures
            nes == Self::power_on(),
            nes.wf(),
    {
        Nes {
            cpu: Cpu::new(),
            ppu: Ppu::new(),
            cart: Cartridge::empty(),
            last_bus: BusActivity { addr: 0, data: 0, is_read: false },
            accesses: 0,
            fault: None,
        }
    }
}

impl Default for Nes {
    fn default() -> (nes: Self)
        ensures
            nes == Self::power_on(),
    {
        Nes::new()
    }
}

/// Divides the master clock by `N`: every `N`-th tick fires.
#[derive(Clone, Copy, Debug, PartialEq, Eq)]
pub struct ClockDivider<const N: usize> {
    pub counter: usize,
}

impl<const N: usize> ClockDivider<N> {
    /// The phase lies inside the period.
    pub open spec fn wf(self) -> bool {
        self.counter < N
    }

    /// The divider after one tick, and whether that tick fired.
    pub open spec fn tick_spec(self) -> (Self, bool) {
        if self.counter + 1 == N {
            (ClockDivider { counter: 0 }, true)
        } else {
            (ClockDivider { counter: (self.counter + 1) as usize }, false)
        }
    }

    /// The divider after `ticks` ticks, and how many of them fired.
    pub open spec fn run(self, ticks: nat) -> (Self, nat)
        decreases ticks,
    {
        if ticks == 0 {
            (self, 0)
        } else {
            let (before, fired) = self.run((ticks - 1) as nat);
            let (after, fires) = before.tick_spec();
            (after, if fires { fired + 1 } else { fired })
        }
    }

    pub fn new(initial: usize) -> (r: Self)
        requires
            initial < N,
        ensures
            r.counter == initial,
            r.wf(),
    {
        Self { counter: initial }
    }

    pub fn tick(&mut self) -> (fired: bool)
        requires
            old(self).wf(),
        ensures
            (*final(self), fired) == old(self).tick_spec(),
            final(self).wf(),
            fired <==> old(self).counter == N - 1,
    {
        self.counter += 1;
        if self.counter == N {
            self.counter = 0;
            true
        } else {
            false
        }
    }

    /// Over any stretch of ticks the divider fires once per full period:
    /// from phase `c`, `t` ticks fire `(c + t) / N` times and leave the
    /// phase at `(c + t) % N`.
    pub proof fn lemma_run(self, ticks: nat)
        requires
            self.wf(),
        ensures
            self.run(ticks).0.counter == (self.counter + ticks) % (N as int),
            self.run(ticks).1 == (self.counter + ticks) / (N as int),
            self.run(ticks).0.wf(),
        decreases ticks,
    {
        let n = N as int;
        let c = self.counter as int;
        if ticks == 0 {
            assert(c % n == c && c / n == 0) by (nonlinear_arith)
                requires
                    0 <= c < n,
            ;
        } else {
            let t = (ticks - 1) as nat;
            self.lemma_run(t);
            let q = (c + t) / n;
            let r = (c + t) % n;
            assert(c + t == q * n + r && 0 <= r < n) by (nonlinear_arith)
                requires
                    q == (c + t) / n,
                    r == (c + t) % n,
                    0 < n,
            ;
            if r + 1 == n {
                assert((q + 1) * n == q * n + n) by (nonlinear_arith);
                assert((c + t + 1) / n == q + 1 && (c + t + 1) % n == 0) by (nonlinear_arith)
                    requires
                        c + t + 1 == (q + 1) * n,
                        0 < n,
                ;
            } else {
                assert((c + t + 1) / n == q && (c + t + 1) % n == r + 1) by (nonlinear_arith)
                    requires
                        c + t + 1 == q * n + (r + 1),
                        0 <= r + 1 < n,
                ;
            }
        }
    }

    /// A whole number of periods fires exactly that many times and
    /// restores the phase.
    pub proof fn lemma_periods(self, periods: nat)
        requires
            self.wf(),
        ensures
            self.run(periods * (N as nat)) == (self, periods),
    {
        let n = N as int;
        let c = self.counter as int;
        let p = periods as int;
        self.lemma_run(periods * (N as nat));
        assert((c + p * n) / n == p && (c + p * n) % n == c) by (nonlinear_arith)
            requires
                0 <= c < n,
                0 <= p,
        ;
    }
}

impl Nes {
    /// A master tick keeps the machine well formed, and moves each
    /// divider by one tick, whatever the CPU and the PPU do in it.
    pub proof fn lemma_tick_kept(self)
        requires
            self.wf(),
        ensures
            self.tick_spec().wf(),
            self.tick_spec().cpu.clock_divider == self.cpu.clock_divider.tick_spec().0,
            self.tick_spec().ppu.clock_divider == self.ppu.clock_divider.tick_spec().0,
    {
        let (cpu_divider, cpu_fired) = self.cpu.clock_divider.tick_spec();
        let n1 = self.with_cpu(Cpu { clock_divider: cpu_divider, ..self.cpu });
        crate::arch::cpu::lemma_cycle_kept(n1);
        let n2 = Cpu::tick_spec(self);
        let (ppu_divider, ppu_fired) = n2.ppu.clock_divider.tick_spec();
        let n3 = Ppu::put(n2, Ppu { clock_divider: ppu_divider, ..n2.ppu });
        Ppu::lemma_cycle_kept(n3);
    }

    /// The dividers run freely: after `ticks` master ticks the machine
    /// is well formed and each divider is where `ticks` ticks take it,
    /// so that the CPU has had one cycle for every twelve ticks and the
    /// PPU one for every four.
    pub proof fn lemma_run_kept(self, ticks: nat)
        requires
            self.wf(),
        ensures
            self.run(ticks).wf(),
            self.run(ticks).cpu.clock_divider == self.cpu.clock_divider.run(ticks).0,
            self.run(ticks).ppu.clock_divider == self.ppu.clock_divider.run(ticks).0,
            self.cpu.clock_divider.run(ticks).1 == (self.cpu.clock_divider.counter + ticks) / 12,
            self.ppu.clock_divider.run(ticks).1 == (self.ppu.clock_divider.counter + ticks) / 4,
        decreases ticks,
    {
        self.cpu.clock_divider.lemma_run(ticks);
        self.ppu.clock_divider.lemma_run(ticks);
        if ticks > 0 {
            self.lemma_run_kept((ticks - 1) as nat);
            self.run((ticks - 1) as nat).lemma_tick_kept();
        }
    }
}

} // verus!
