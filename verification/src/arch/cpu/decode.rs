use vstd::prelude::*;
use crate::arch::cpu::AddrMode;
use crate::arch::cpu::Op;

verus! {

/// The addressing mode of column `column` in the two groups of opcodes
/// that are laid out alike, those that end in the bits `01` and `11`.
pub open spec fn alu_mode(column: int) -> AddrMode {
    if column == 0 {
        AddrMode::IndirectX
    } else if column == 1 {
        AddrMode::Zero
    } else if column == 2 {
        AddrMode::Immediate
    } else if column == 3 {
        AddrMode::Absolute
    } else if column == 4 {
        AddrMode::IndirectY
    } else if column == 5 {
        AddrMode::ZeroX
    } else if column == 6 {
        AddrMode::AbsoluteY
    } else {
        AddrMode::AbsoluteX
    }
}

/// The mode with Y in place of X, for the instructions that move X.
pub open spec fn y_for_x(mode: AddrMode) -> AddrMode {
    match mode {
        AddrMode::ZeroX => AddrMode::ZeroY,
        AddrMode::AbsoluteX => AddrMode::AbsoluteY,
        _ => mode,
    }
}

/// Opcodes `rrrccc01`: eight instructions on the accumulator, each in
/// eight modes. There is no store to an immediate operand: `$89` reads
/// it and does nothing.
pub open spec fn alu_group(row: int, column: int) -> Option<(Op, AddrMode)> {
    let op = if row == 0 {
        Op::Ora
    } else if row == 1 {
        Op::And
    } else if row == 2 {
        Op::Eor
    } else if row == 3 {
        Op::Adc
    } else if row == 4 {
        Op::Sta
    } else if row == 5 {
        Op::Lda
    } else if row == 6 {
        Op::Cmp
    } else {
        Op::Sbc
    };
    if row == 4 && column == 2 {
        Some((Op::Nop, AddrMode::Immediate))
    } else {
        Some((op, alu_mode(column)))
    }
}

/// Opcodes `rrrccc10`: the shifts and rotations, the moves of X, `DEC`
/// and `INC`.
///
/// Column 0 holds `LDX #` and three `NOP #`, column 2 the accumulator
/// forms and the transfers, column 6 `TXS`, `TSX` and `NOP`. Column 4 and
/// the first half of column 0 halt the processor, and `$9E` is not
/// implemented.
pub open spec fn modify_group(row: int, column: int) -> Option<(Op, AddrMode)> {
    let op = if row == 0 {
        Op::Asl
    } else if row == 1 {
        Op::Rol
    } else if row == 2 {
        Op::Lsr
    } else if row == 3 {
        Op::Ror
    } else if row == 4 {
        Op::Stx
    } else if row == 5 {
        Op::Ldx
    } else if row == 6 {
        Op::Dec
    } else {
        Op::Inc
    };
    let moves_x = row == 4 || row == 5;
    if column == 0 {
        if row == 5 {
            Some((Op::Ldx, AddrMode::Immediate))
        } else if row >= 4 {
            Some((Op::Nop, AddrMode::Immediate))
        } else {
            None
        }
    } else if column == 1 {
        Some((op, AddrMode::Zero))
    } else if column == 2 {
        if row < 4 {
            Some((op, AddrMode::Accumulator))
        } else if row == 4 {
            Some((Op::Txa, AddrMode::Implied))
        } else if row == 5 {
            Some((Op::Tax, AddrMode::Implied))
        } else if row == 6 {
            Some((Op::Dex, AddrMode::Implied))
        } else {
            Some((Op::Nop, AddrMode::Implied))
        }
    } else if column == 3 {
        Some((op, AddrMode::Absolute))
    } else if column == 4 {
        None
    } else if column == 5 {
        Some((op, if moves_x { AddrMode::ZeroY } else { AddrMode::ZeroX }))
    } else if column == 6 {
        if row == 4 {
            Some((Op::Txs, AddrMode::Implied))
        } else if row == 5 {
            Some((Op::Tsx, AddrMode::Implied))
        } else {
            Some((Op::Nop, AddrMode::Implied))
        }
    } else {
        if row == 4 {
            None
        } else {
            Some((op, if moves_x { AddrMode::AbsoluteY } else { AddrMode::AbsoluteX }))
        }
    }
}

/// Opcodes `rrrccc11`: the undocumented instructions, in the modes of
/// the `01` group, with Y for X where X is moved.
///
/// Of the immediate column only `$EB`, a second `SBC #`, is implemented,
/// and of the indexed stores of row 4 only `SAX zp,Y`; `$BB` is `LAS`.
pub open spec fn combined_group(row: int, column: int) -> Option<(Op, AddrMode)> {
    let op = if row == 0 {
        Op::Slo
    } else if row == 1 {
        Op::Rla
    } else if row == 2 {
        Op::Sre
    } else if row == 3 {
        Op::Rra
    } else if row == 4 {
        Op::Sax
    } else if row == 5 {
        Op::Lax
    } else if row == 6 {
        Op::Dcp
    } else {
        Op::Isb
    };
    let moves_x = row == 4 || row == 5;
    if column == 2 {
        if row == 7 {
            Some((Op::Sbc, AddrMode::Immediate))
        } else {
            None
        }
    } else if row == 4 && (column == 4 || column == 6 || column == 7) {
        None
    } else if row == 5 && column == 6 {
        Some((Op::Las, AddrMode::AbsoluteY))
    } else if moves_x {
        Some((op, y_for_x(alu_mode(column))))
    } else {
        Some((op, alu_mode(column)))
    }
}

/// Opcodes `rrrccc00`: branches, jumps, the stack, the flags, `BIT`, the
/// moves of Y and the comparisons with X and Y; what is left reads an
/// operand and does nothing. `$9C` is not implemented.
pub open spec fn control_group(row: int, column: int) -> Option<(Op, AddrMode)> {
    let upper = if row == 4 {
        Op::Sty
    } else if row == 5 {
        Op::Ldy
    } else if row == 6 {
        Op::Cpy
    } else if row == 7 {
        Op::Cpx
    } else {
        Op::Nop
    };
    if column == 0 {
        if row == 0 {
            Some((Op::Brk, AddrMode::Auto))
        } else if row == 1 {
            Some((Op::Jsr, AddrMode::Auto))
        } else if row == 2 {
            Some((Op::Rti, AddrMode::Auto))
        } else if row == 3 {
            Some((Op::Rts, AddrMode::Implied))
        } else if row == 4 {
            Some((Op::Nop, AddrMode::Immediate))
        } else {
            Some((upper, AddrMode::Immediate))
        }
    } else if column == 1 {
        if row == 1 {
            Some((Op::Bit, AddrMode::Zero))
        } else {
            Some((upper, AddrMode::Zero))
        }
    } else if column == 2 {
        Some(
            (
                if row == 0 {
                    Op::Php
                } else if row == 1 {
                    Op::Plp
                } else if row == 2 {
                    Op::Pha
                } else if row == 3 {
                    Op::Pla
                } else if row == 4 {
                    Op::Dey
                } else if row == 5 {
                    Op::Tay
                } else if row == 6 {
                    Op::Iny
                } else {
                    Op::Inx
                },
                AddrMode::Implied,
            ),
        )
    } else if column == 3 {
        if row == 1 {
            Some((Op::Bit, AddrMode::Absolute))
        } else if row == 2 {
            Some((Op::Jmp, AddrMode::Absolute))
        } else if row == 3 {
            Some((Op::Jmp, AddrMode::Indirect))
        } else {
            Some((upper, AddrMode::Absolute))
        }
    } else if column == 4 {
        Some(
            (
                if row == 0 {
                    Op::Bpl
                } else if row == 1 {
                    Op::Bmi
                } else if row == 2 {
                    Op::Bvc
                } else if row == 3 {
                    Op::Bvs
                } else if row == 4 {
                    Op::Bcc
                } else if row == 5 {
                    Op::Bcs
                } else if row == 6 {
                    Op::Bne
                } else {
                    Op::Beq
                },
                AddrMode::Relative,
            ),
        )
    } else if column == 5 {
        if row == 4 || row == 5 {
            Some((upper, AddrMode::ZeroX))
        } else {
            Some((Op::Nop, AddrMode::ZeroX))
        }
    } else if column == 6 {
        Some(
            (
                if row == 0 {
                    Op::Clc
                } else if row == 1 {
                    Op::Sec
                } else if row == 2 {
                    Op::Cli
                } else if row == 3 {
                    Op::Sei
                } else if row == 4 {
                    Op::Tya
                } else if row == 5 {
                    Op::Clv
                } else if row == 6 {
                    Op::Cld
                } else {
                    Op::Sed
                },
                AddrMode::Implied,
            ),
        )
    } else {
        if row == 5 {
            Some((Op::Ldy, AddrMode::AbsoluteX))
        } else if row == 4 {
            None
        } else {
            Some((Op::Nop, AddrMode::AbsoluteX))
        }
    }
}

/// The micro-program and the addressing mode of an opcode, or `None` for
/// an opcode that halts the processor or is not implemented.
///
/// The opcode is read as `rrrcccgg`: group `gg`, row `rrr`, column `ccc`.
pub open spec fn decode_spec(opcode: u8) -> Option<(Op, AddrMode)> {
    let group = opcode % 4;
    let column = (opcode / 4) % 8;
    let row = opcode / 32;
    if group == 0 {
        control_group(row as int, column as int)
    } else if group == 1 {
        alu_group(row as int, column as int)
    } else if group == 2 {
        modify_group(row as int, column as int)
    } else {
        combined_group(row as int, column as int)
    }
}

/// The opcodes from `$00` to `$3F`.
fn decode_00(opcode: u8) -> (r: Option<(Op, AddrMode)>)
    requires
        0 <= opcode < 64,
    ensures
        r == decode_spec(opcode),
{
    match opcode {
        0x00 => Some((Op::Brk, AddrMode::Auto)),
        0x01 => Some((Op::Ora, AddrMode::IndirectX)),
        0x03 => Some((Op::Slo, AddrMode::IndirectX)),
        0x04 => Some((Op::Nop, AddrMode::Zero)),
        0x05 => Some((Op::Ora, AddrMode::Zero)),
        0x06 => Some((Op::Asl, AddrMode::Zero)),
        0x07 => Some((Op::Slo, AddrMode::Zero)),
        0x08 => Some((Op::Php, AddrMode::Implied)),
        0x09 => Some((Op::Ora, AddrMode::Immediate)),
        0x0A => Some((Op::Asl, AddrMode::Accumulator)),
        0x0C => Some((Op::Nop, AddrMode::Absolute)),
        0x0D => Some((Op::Ora, AddrMode::Absolute)),
        0x0E => Some((Op::Asl, AddrMode::Absolute)),
        0x0F => Some((Op::Slo, AddrMode::Absolute)),
        0x10 => Some((Op::Bpl, AddrMode::Relative)),
        0x11 => Some((Op::Ora, AddrMode::IndirectY)),
        0x13 => Some((Op::Slo, AddrMode::IndirectY)),
        0x14 => Some((Op::Nop, AddrMode::ZeroX)),
        0x15 => Some((Op::Ora, AddrMode::ZeroX)),
        0x16 => Some((Op::Asl, AddrMode::ZeroX)),
        0x17 => Some((Op::Slo, AddrMode::ZeroX)),
        0x18 => Some((Op::Clc, AddrMode::Implied)),
        0x19 => Some((Op::Ora, AddrMode::AbsoluteY)),
        0x1A => Some((Op::Nop, AddrMode::Implied)),
        0x1B => Some((Op::Slo, AddrMode::AbsoluteY)),
        0x1C => Some((Op::Nop, AddrMode::AbsoluteX)),
        0x1D => Some((Op::Ora, AddrMode::AbsoluteX)),
        0x1E => Some((Op::Asl, AddrMode::AbsoluteX)),
        0x1F => Some((Op::Slo, AddrMode::AbsoluteX)),
        0x20 => Some((Op::Jsr, AddrMode::Auto)),
        0x21 => Some((Op::And, AddrMode::IndirectX)),
        0x23 => Some((Op::Rla, AddrMode::IndirectX)),
        0x24 => Some((Op::Bit, AddrMode::Zero)),
        0x25 => Some((Op::And, AddrMode::Zero)),
        0x26 => Some((Op::Rol, AddrMode::Zero)),
        0x27 => Some((Op::Rla, AddrMode::Zero)),
        0x28 => Some((Op::Plp, AddrMode::Implied)),
        0x29 => Some((Op::And, AddrMode::Immediate)),
        0x2A => Some((Op::Rol, AddrMode::Accumulator)),
        0x2C => Some((Op::Bit, AddrMode::Absolute)),
        0x2D => Some((Op::And, AddrMode::Absolute)),
        0x2E => Some((Op::Rol, AddrMode::Absolute)),
        0x2F => Some((Op::Rla, AddrMode::Absolute)),
        0x30 => Some((Op::Bmi, AddrMode::Relative)),
        0x31 => Some((Op::And, AddrMode::IndirectY)),
        0x33 => Some((Op::Rla, AddrMode::IndirectY)),
        0x34 => Some((Op::Nop, AddrMode::ZeroX)),
        0x35 => Some((Op::And, AddrMode::ZeroX)),
        0x36 => Some((Op::Rol, AddrMode::ZeroX)),
        0x37 => Some((Op::Rla, AddrMode::ZeroX)),
        0x38 => Some((Op::Sec, AddrMode::Implied)),
        0x39 => Some((Op::And, AddrMode::AbsoluteY)),
        0x3A => Some((Op::Nop, AddrMode::Implied)),
        0x3B => Some((Op::Rla, AddrMode::AbsoluteY)),
        0x3C => Some((Op::Nop, AddrMode::AbsoluteX)),
        0x3D => Some((Op::And, AddrMode::AbsoluteX)),
        0x3E => Some((Op::Rol, AddrMode::AbsoluteX)),
        0x3F => Some((Op::Rla, AddrMode::AbsoluteX)),
        _ => None,
    }
}

/// The opcodes from `$40` to `$7F`.
fn decode_40(opcode: u8) -> (r: Option<(Op, AddrMode)>)
    requires
        64 <= opcode < 128,
    ensures
        r == decode_spec(opcode),
{
    match opcode {
        0x40 => Some((Op::Rti, AddrMode::Auto)),
        0x41 => Some((Op::Eor, AddrMode::IndirectX)),
        0x43 => Some((Op::Sre, AddrMode::IndirectX)),
        0x44 => Some((Op::Nop, AddrMode::Zero)),
        0x45 => Some((Op::Eor, AddrMode::Zero)),
        0x46 => Some((Op::Lsr, AddrMode::Zero)),
        0x47 => Some((Op::Sre, AddrMode::Zero)),
        0x48 => Some((Op::Pha, AddrMode::Implied)),
        0x49 => Some((Op::Eor, AddrMode::Immediate)),
        0x4A => Some((Op::Lsr, AddrMode::Accumulator)),
        0x4C => Some((Op::Jmp, AddrMode::Absolute)),
        0x4D => Some((Op::Eor, AddrMode::Absolute)),
        0x4E => Some((Op::Lsr, AddrMode::Absolute)),
        0x4F => Some((Op::Sre, AddrMode::Absolute)),
        0x50 => Some((Op::Bvc, AddrMode::Relative)),
        0x51 => Some((Op::Eor, AddrMode::IndirectY)),
        0x53 => Some((Op::Sre, AddrMode::IndirectY)),
        0x54 => Some((Op::Nop, AddrMode::ZeroX)),
        0x55 => Some((Op::Eor, AddrMode::ZeroX)),
        0x56 => Some((Op::Lsr, AddrMode::ZeroX)),
        0x57 => Some((Op::Sre, AddrMode::ZeroX)),
        0x58 => Some((Op::Cli, AddrMode::Implied)),
        0x59 => Some((Op::Eor, AddrMode::AbsoluteY)),
        0x5A => Some((Op::Nop, AddrMode::Implied)),
        0x5B => Some((Op::Sre, AddrMode::AbsoluteY)),
        0x5C => Some((Op::Nop, AddrMode::AbsoluteX)),
        0x5D => Some((Op::Eor, AddrMode::AbsoluteX)),
        0x5E => Some((Op::Lsr, AddrMode::AbsoluteX)),
        0x5F => Some((Op::Sre, AddrMode::AbsoluteX)),
        0x60 => Some((Op::Rts, AddrMode::Implied)),
        0x61 => Some((Op::Adc, AddrMode::IndirectX)),
        0x63 => Some((Op::Rra, AddrMode::IndirectX)),
        0x64 => Some((Op::Nop, AddrMode::Zero)),
        0x65 => Some((Op::Adc, AddrMode::Zero)),
        0x66 => Some((Op::Ror, AddrMode::Zero)),
        0x67 => Some((Op::Rra, AddrMode::Zero)),
        0x68 => Some((Op::Pla, AddrMode::Implied)),
        0x69 => Some((Op::Adc, AddrMode::Immediate)),
        0x6A => Some((Op::Ror, AddrMode::Accumulator)),
        0x6C => Some((Op::Jmp, AddrMode::Indirect)),
        0x6D => Some((Op::Adc, AddrMode::Absolute)),
        0x6E => Some((Op::Ror, AddrMode::Absolute)),
        0x6F => Some((Op::Rra, AddrMode::Absolute)),
        0x70 => Some((Op::Bvs, AddrMode::Relative)),
        0x71 => Some((Op::Adc, AddrMode::IndirectY)),
        0x73 => Some((Op::Rra, AddrMode::IndirectY)),
        0x74 => Some((Op::Nop, AddrMode::ZeroX)),
        0x75 => Some((Op::Adc, AddrMode::ZeroX)),
        0x76 => Some((Op::Ror, AddrMode::ZeroX)),
        0x77 => Some((Op::Rra, AddrMode::ZeroX)),
        0x78 => Some((Op::Sei, AddrMode::Implied)),
        0x79 => Some((Op::Adc, AddrMode::AbsoluteY)),
        0x7A => Some((Op::Nop, AddrMode::Implied)),
        0x7B => Some((Op::Rra, AddrMode::AbsoluteY)),
        0x7C => Some((Op::Nop, AddrMode::AbsoluteX)),
        0x7D => Some((Op::Adc, AddrMode::AbsoluteX)),
        0x7E => Some((Op::Ror, AddrMode::AbsoluteX)),
        0x7F => Some((Op::Rra, AddrMode::AbsoluteX)),
        _ => None,
    }
}

/// The opcodes from `$80` to `$BF`.
fn decode_80(opcode: u8) -> (r: Option<(Op, AddrMode)>)
    requires
        128 <= opcode < 192,
    ensures
        r == decode_spec(opcode),
{
    match opcode {
        0x80 => Some((Op::Nop, AddrMode::Immediate)),
        0x81 => Some((Op::Sta, AddrMode::IndirectX)),
        0x82 => Some((Op::Nop, AddrMode::Immediate)),
        0x83 => Some((Op::Sax, AddrMode::IndirectX)),
        0x84 => Some((Op::Sty, AddrMode::Zero)),
        0x85 => Some((Op::Sta, AddrMode::Zero)),
        0x86 => Some((Op::Stx, AddrMode::Zero)),
        0x87 => Some((Op::Sax, AddrMode::Zero)),
        0x88 => Some((Op::Dey, AddrMode::Implied)),
        0x89 => Some((Op::Nop, AddrMode::Immediate)),
        0x8A => Some((Op::Txa, AddrMode::Implied)),
        0x8C => Some((Op::Sty, AddrMode::Absolute)),
        0x8D => Some((Op::Sta, AddrMode::Absolute)),
        0x8E => Some((Op::Stx, AddrMode::Absolute)),
        0x8F => Some((Op::Sax, AddrMode::Absolute)),
        0x90 => Some((Op::Bcc, AddrMode::Relative)),
        0x91 => Some((Op::Sta, AddrMode::IndirectY)),
        0x94 => Some((Op::Sty, AddrMode::ZeroX)),
        0x95 => Some((Op::Sta, AddrMode::ZeroX)),
        0x96 => Some((Op::Stx, AddrMode::ZeroY)),
        0x97 => Some((Op::Sax, AddrMode::ZeroY)),
        0x98 => Some((Op::Tya, AddrMode::Implied)),
        0x99 => Some((Op::Sta, AddrMode::AbsoluteY)),
        0x9A => Some((Op::Txs, AddrMode::Implied)),
        0x9D => Some((Op::Sta, AddrMode::AbsoluteX)),
        0xA0 => Some((Op::Ldy, AddrMode::Immediate)),
        0xA1 => Some((Op::Lda, AddrMode::IndirectX)),
        0xA2 => Some((Op::Ldx, AddrMode::Immediate)),
        0xA3 => Some((Op::Lax, AddrMode::IndirectX)),
        0xA4 => Some((Op::Ldy, AddrMode::Zero)),
        0xA5 => Some((Op::Lda, AddrMode::Zero)),
        0xA6 => Some((Op::Ldx, AddrMode::Zero)),
        0xA7 => Some((Op::Lax, AddrMode::Zero)),
        0xA8 => Some((Op::Tay, AddrMode::Implied)),
        0xA9 => Some((Op::Lda, AddrMode::Immediate)),
        0xAA => Some((Op::Tax, AddrMode::Implied)),
        0xAC => Some((Op::Ldy, AddrMode::Absolute)),
        0xAD => Some((Op::Lda, AddrMode::Absolute)),
        0xAE => Some((Op::Ldx, AddrMode::Absolute)),
        0xAF => Some((Op::Lax, AddrMode::Absolute)),
        0xB0 => Some((Op::Bcs, AddrMode::Relative)),
        0xB1 => Some((Op::Lda, AddrMode::IndirectY)),
        0xB3 => Some((Op::Lax, AddrMode::IndirectY)),
        0xB4 => Some((Op::Ldy, AddrMode::ZeroX)),
        0xB5 => Some((Op::Lda, AddrMode::ZeroX)),
        0xB6 => Some((Op::Ldx, AddrMode::ZeroY)),
        0xB7 => Some((Op::Lax, AddrMode::ZeroY)),
        0xB8 => Some((Op::Clv, AddrMode::Implied)),
        0xB9 => Some((Op::Lda, AddrMode::AbsoluteY)),
        0xBA => Some((Op::Tsx, AddrMode::Implied)),
        0xBB => Some((Op::Las, AddrMode::AbsoluteY)),
        0xBC => Some((Op::Ldy, AddrMode::AbsoluteX)),
        0xBD => Some((Op::Lda, AddrMode::AbsoluteX)),
        0xBE => Some((Op::Ldx, AddrMode::AbsoluteY)),
        0xBF => Some((Op::Lax, AddrMode::AbsoluteY)),
        _ => None,
    }
}

/// The opcodes from `$C0` to `$FF`.
fn decode_c0(opcode: u8) -> (r: Option<(Op, AddrMode)>)
    requires
        192 <= opcode < 256,
    ensures
        r == decode_spec(opcode),
{
    match opcode {
        0xC0 => Some((Op::Cpy, AddrMode::Immediate)),
        0xC1 => Some((Op::Cmp, AddrMode::IndirectX)),
        0xC2 => Some((Op::Nop, AddrMode::Immediate)),
        0xC3 => Some((Op::Dcp, AddrMode::IndirectX)),
        0xC4 => Some((Op::Cpy, AddrMode::Zero)),
        0xC5 => Some((Op::Cmp, AddrMode::Zero)),
        0xC6 => Some((Op::Dec, AddrMode::Zero)),
        0xC7 => Some((Op::Dcp, AddrMode::Zero)),
        0xC8 => Some((Op::Iny, AddrMode::Implied)),
        0xC9 => Some((Op::Cmp, AddrMode::Immediate)),
        0xCA => Some((Op::Dex, AddrMode::Implied)),
        0xCC => Some((Op::Cpy, AddrMode::Absolute)),
        0xCD => Some((Op::Cmp, AddrMode::Absolute)),
        0xCE => Some((Op::Dec, AddrMode::Absolute)),
        0xCF => Some((Op::Dcp, AddrMode::Absolute)),
        0xD0 => Some((Op::Bne, AddrMode::Relative)),
        0xD1 => Some((Op::Cmp, AddrMode::IndirectY)),
        0xD3 => Some((Op::Dcp, AddrMode::IndirectY)),
        0xD4 => Some((Op::Nop, AddrMode::ZeroX)),
        0xD5 => Some((Op::Cmp, AddrMode::ZeroX)),
        0xD6 => Some((Op::Dec, AddrMode::ZeroX)),
        0xD7 => Some((Op::Dcp, AddrMode::ZeroX)),
        0xD8 => Some((Op::Cld, AddrMode::Implied)),
        0xD9 => Some((Op::Cmp, AddrMode::AbsoluteY)),
        0xDA => Some((Op::Nop, AddrMode::Implied)),
        0xDB => Some((Op::Dcp, AddrMode::AbsoluteY)),
        0xDC => Some((Op::Nop, AddrMode::AbsoluteX)),
        0xDD => Some((Op::Cmp, AddrMode::AbsoluteX)),
        0xDE => Some((Op::Dec, AddrMode::AbsoluteX)),
        0xDF => Some((Op::Dcp, AddrMode::AbsoluteX)),
        0xE0 => Some((Op::Cpx, AddrMode::Immediate)),
        0xE1 => Some((Op::Sbc, AddrMode::IndirectX)),
        0xE2 => Some((Op::Nop, AddrMode::Immediate)),
        0xE3 => Some((Op::Isb, AddrMode::IndirectX)),
        0xE4 => Some((Op::Cpx, AddrMode::Zero)),
        0xE5 => Some((Op::Sbc, AddrMode::Zero)),
        0xE6 => Some((Op::Inc, AddrMode::Zero)),
        0xE7 => Some((Op::Isb, AddrMode::Zero)),
        0xE8 => Some((Op::Inx, AddrMode::Implied)),
        0xE9 => Some((Op::Sbc, AddrMode::Immediate)),
        0xEA => Some((Op::Nop, AddrMode::Implied)),
        0xEB => Some((Op::Sbc, AddrMode::Immediate)),
        0xEC => Some((Op::Cpx, AddrMode::Absolute)),
        0xED => Some((Op::Sbc, AddrMode::Absolute)),
        0xEE => Some((Op::Inc, AddrMode::Absolute)),
        0xEF => Some((Op::Isb, AddrMode::Absolute)),
        0xF0 => Some((Op::Beq, AddrMode::Relative)),
        0xF1 => Some((Op::Sbc, AddrMode::IndirectY)),
        0xF3 => Some((Op::Isb, AddrMode::IndirectY)),
        0xF4 => Some((Op::Nop, AddrMode::ZeroX)),
        0xF5 => Some((Op::Sbc, AddrMode::ZeroX)),
        0xF6 => Some((Op::Inc, AddrMode::ZeroX)),
        0xF7 => Some((Op::Isb, AddrMode::ZeroX)),
        0xF8 => Some((Op::Sed, AddrMode::Implied)),
        0xF9 => Some((Op::Sbc, AddrMode::AbsoluteY)),
        0xFA => Some((Op::Nop, AddrMode::Implied)),
        0xFB => Some((Op::Isb, AddrMode::AbsoluteY)),
        0xFC => Some((Op::Nop, AddrMode::AbsoluteX)),
        0xFD => Some((Op::Sbc, AddrMode::AbsoluteX)),
        0xFE => Some((Op::Inc, AddrMode::AbsoluteX)),
        0xFF => Some((Op::Isb, AddrMode::AbsoluteX)),
        _ => None,
    }
}

/// Looks the opcode up in the table of the 256 opcodes.
pub fn decode(opcode: u8) -> (r: Option<(Op, AddrMode)>)
    ensures
        r == decode_spec(opcode),
{
    if opcode < 0x40 {
        decode_00(opcode)
    } else if opcode < 0x80 {
        decode_40(opcode)
    } else if opcode < 0xC0 {
        decode_80(opcode)
    } else {
        decode_c0(opcode)
    }
}

} // verus!
