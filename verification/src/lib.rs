//! A cycle-stepped model of an NTSC NES: the 6502-family CPU, the PPU's
//! background pipeline, the bus between them and the cartridge.
//!
//! The machine is one value, [`arch::Nes`], that a master clock drives:
//! [`arch::Nes::tick`] advances it by one tick, of which every twelfth is
//! a CPU cycle and every fourth a PPU cycle. Every executable function
//! states its effect as a `spec` function of the machine before the
//! call, and the laws of the machine are proof functions over those.
//!
//! - [`arch`]: the machine, its bus and the clock dividers
//! - [`arch::cpu`]: registers, decoding, addressing modes, instructions,
//!   interrupts and timing
//! - [`arch::ppu`]: ports, scroll registers, the fetch pipeline and the
//!   picture
//! - [`arch::cartridge`] and [`arch::mappers`]: ROM images and bank
//!   mappings
//! - [`viewer`]: pictures of the PPU's memories

pub mod arch;
pub mod viewer;
