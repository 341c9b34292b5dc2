use vstd::prelude::*;
use crate::arch::cpu::instructions::finish_implied;
use crate::arch::cpu::instructions::implied_step;
use crate::arch::cpu::status::CARRY;
use crate::arch::cpu::status::DECIMAL;
use crate::arch::cpu::status::INTERRUPT_DISABLE;
use crate::arch::cpu::status::OVERFLOW;
use crate::arch::cpu::Op;
use crate::arch::Nes;

verus! {

pub(crate) fn clc(nes: &mut Nes)
    ensures
        *final(nes) == implied_step(*old(nes), Op::Clc),
{
    proof {
        reveal(implied_step);
    }
    match nes.cpu.proc.cycle {
        2 => {
            nes.cpu.status.set(CARRY, false);

            finish_implied(nes);
        },
        _ => (),
    }
}

pub(crate) fn cld(nes: &mut Nes)
    ensures
        *final(nes) == implied_step(*old(nes), Op::Cld),
{
    proof {
        reveal(implied_step);
    }
    match nes.cpu.proc.cycle {
        2 => {
            nes.cpu.status.set(DECIMAL, false);

            finish_implied(nes);
        },
        _ => (),
    }
}

pub(crate) fn cli(nes: &mut Nes)
    ensures
        *final(nes) == implied_step(*old(nes), Op::Cli),
{
    proof {
        reveal(implied_step);
    }
    match nes.cpu.proc.cycle {
        2 => {
            nes.cpu.status.set(INTERRUPT_DISABLE, false);

            finish_implied(nes);
        },
        _ => (),
    }
}

pub(crate) fn clv(nes: &mut Nes)
    ensures
        *final(nes) == implied_step(*old(nes), Op::Clv),
{
    proof {
        reveal(implied_step);
    }
    match nes.cpu.proc.cycle {
        2 => {
            nes.cpu.status.set(OVERFLOW, false);

            finish_implied(nes);
        },
        _ => (),
    }
}

pub(crate) fn sec(nes: &mut Nes)
    ensures
        *final(nes) == implied_step(*old(nes), Op::Sec),
{
    proof {
        reveal(implied_step);
    }
    match nes.cpu.proc.cycle {
        2 => {
            nes.cpu.status.set(CARRY, true);

            finish_implied(nes);
        },
        _ => (),
    }
}

pub(crate) fn sed(nes: &mut Nes)
    ensures
        *final(nes) == implied_step(*old(nes), Op::Sed),
{
    proof {
        reveal(implied_step);
    }
    match nes.cpu.proc.cycle {
        2 => {
            nes.cpu.status.set(DECIMAL, true);

            finish_implied(nes);
        },
        _ => (),
    }
}

pub(crate) fn sei(nes: &mut Nes)
    ensures
        *final(nes) == implied_step(*old(nes), Op::Sei),
{
    proof {
        reveal(implied_step);
    }
    match nes.cpu.proc.cycle {
        2 => {
            nes.cpu.status.set(INTERRUPT_DISABLE, true);

            finish_implied(nes);
        },
        _ => (),
    }
}

pub(crate) fn dex(nes: &mut Nes)
    ensures
        *final(nes) == implied_step(*old(nes), Op::Dex),
{
    proof {
        reveal(implied_step);
    }
    match nes.cpu.proc.cycle {
        2 => {
            nes.cpu.x = nes.cpu.x.wrapping_sub(1);
            nes.cpu.status.set_zn(nes.cpu.x);

            finish_implied(nes);
        },
        _ => (),
    }
}

pub(crate) fn dey(nes: &mut Nes)
    ensures
        *final(nes) == implied_step(*old(nes), Op::Dey),
{
    proof {
        reveal(implied_step);
    }
    match nes.cpu.proc.cycle {
        2 => {
            nes.cpu.y = nes.cpu.y.wrapping_sub(1);
            nes.cpu.status.set_zn(nes.cpu.y);

            finish_implied(nes);
        },
        _ => (),
    }
}

pub(crate) fn inx(nes: &mut Nes)
    ensures
        *final(nes) == implied_step(*old(nes), Op::Inx),
{
    proof {
        reveal(implied_step);
    }
    match nes.cpu.proc.cycle {
        2 => {
            nes.cpu.x = nes.cpu.x.wrapping_add(1);
            nes.cpu.status.set_zn(nes.cpu.x);

            finish_implied(nes);
        },
        _ => (),
    }
}

pub(crate) fn iny(nes: &mut Nes)
    ensures
        *final(nes) == implied_step(*old(nes), Op::Iny),
{
    proof {
        reveal(implied_step);
    }
    match nes.cpu.proc.cycle {
        2 => {
            nes.cpu.y = nes.cpu.y.wrapping_add(1);
            nes.cpu.status.set_zn(nes.cpu.y);

            finish_implied(nes);
        },
        _ => (),
    }
}

pub(crate) fn tax(nes: &mut Nes)
    ensures
        *final(nes) == implied_step(*old(nes), Op::Tax),
{
    proof {
        reveal(implied_step);
    }
    match nes.cpu.proc.cycle {
        2 => {
            nes.cpu.x = nes.cpu.acc;

            nes.cpu.status.set_zn(nes.cpu.x);

            finish_implied(nes);
        },
        _ => (),
    }
}

pub(crate) fn tay(nes: &mut Nes)
    ensures
        *final(nes) == implied_step(*old(nes), Op::Tay),
{
    proof {
        reveal(implied_step);
    }
    match nes.cpu.proc.cycle {
        2 => {
            nes.cpu.y = nes.cpu.acc;

            nes.cpu.status.set_zn(nes.cpu.y);

            finish_implied(nes);
        },
        _ => (),
    }
}

pub(crate) fn tsx(nes: &mut Nes)
    ensures
        *final(nes) == implied_step(*old(nes), Op::Tsx),
{
    proof {
        reveal(implied_step);
    }
    match nes.cpu.proc.cycle {
        2 => {
            nes.cpu.x = nes.cpu.sp;

            nes.cpu.status.set_zn(nes.cpu.x);

            finish_implied(nes);
        },
        _ => (),
    }
}

pub(crate) fn txa(nes: &mut Nes)
    ensures
        *final(nes) == implied_step(*old(nes), Op::Txa),
{
    proof {
        reveal(implied_step);
    }
    match nes.cpu.proc.cycle {
        2 => {
            nes.cpu.acc = nes.cpu.x;

            nes.cpu.status.set_zn(nes.cpu.acc);

            finish_implied(nes);
        },
        _ => (),
    }
}

pub(crate) fn txs(nes: &mut Nes)
    ensures
        *final(nes) == implied_step(*old(nes), Op::Txs),
{
    proof {
        reveal(implied_step);
    }
    match nes.cpu.proc.cycle {
        2 => {
            nes.cpu.sp = nes.cpu.x;

            finish_implied(nes);
        },
        _ => (),
    }
}

pub(crate) fn tya(nes: &mut Nes)
    ensures
        *final(nes) == implied_step(*old(nes), Op::Tya),
{
    proof {
        reveal(implied_step);
    }
    match nes.cpu.proc.cycle {
        2 => {
            nes.cpu.acc = nes.cpu.y;

            nes.cpu.status.set_zn(nes.cpu.acc);

            finish_implied(nes);
        },
        _ => (),
    }
}

} // verus!
