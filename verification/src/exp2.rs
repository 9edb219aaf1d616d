//! Experiment 2: the text "PQY" scrolling back and forth across the
//! eight-digit display.
//!
//! Glyph codes hold segment a in bit 0 up to segment g in bit 6.
use vstd::prelude::*;
use crate::display::{Direction, Marquee, Scroller};
use crate::register::{RegOp, Register, RegisterFile, RegisterWrite, IOPB_EN, IOPE_EN};

verus! {

/// A blank digit.
pub const APL_0: u8 = 0b0000000;

/// The digit 1 (segments b and c).
pub const APL_1: u8 = 0b0000110;

/// The digit 2.
pub const APL_2: u8 = 0b1011011;

/// The digit 3 (segments a, b, c, d and g).
pub const APL_3: u8 = 0b1001111;

/// The digit 4.
pub const APL_4: u8 = 0b1100110;

/// The letter P.
pub const APL_P: u8 = 0b1110011;

/// The letter q.
pub const APL_Q: u8 = 0b1100111;

/// The letter y.
pub const APL_Y: u8 = 0b1101110;

/// How many refreshes the text stays at each position.
pub const REFRESHES_PER_STEP: u32 = 100;

/// The register modifications that prepare the board for the display.
pub open spec fn init_plan() -> Seq<RegisterWrite> {
    seq![
        RegisterWrite { register: Register::RccApb2enr, op: RegOp::Or, flag: 8 },
        RegisterWrite { register: Register::RccApb2enr, op: RegOp::Or, flag: 64 },
        RegisterWrite { register: Register::GpiobCrl, op: RegOp::And, flag: 0xFFFF0000 },
        RegisterWrite { register: Register::GpiobCrl, op: RegOp::Or, flag: 0x00003333 },
        RegisterWrite { register: Register::GpiobOdr, op: RegOp::Or, flag: 0x000000FF },
        RegisterWrite { register: Register::GpioeCrh, op: RegOp::Assign, flag: 0 },
        RegisterWrite { register: Register::GpioeCrh, op: RegOp::Or, flag: 0x33333333 },
        RegisterWrite { register: Register::GpioeOdr, op: RegOp::Or, flag: 0x0000FF00 },
    ]
}

/// The set-up of the display: clock port B and port E; make PB0 to PB3
/// push-pull outputs and drive PB0 to PB7 high; make PE8 to PE15 push-pull
/// outputs and drive them high.
pub fn init() -> (plan: Vec<RegisterWrite>)
    ensures
        plan@ == init_plan(),
{
    let plan = vec![
        RegisterWrite::new(Register::RccApb2enr, RegOp::Or, IOPB_EN),
        RegisterWrite::new(Register::RccApb2enr, RegOp::Or, IOPE_EN),
        RegisterWrite::new(Register::GpiobCrl, RegOp::And, 0xFFFF0000),
        RegisterWrite::new(Register::GpiobCrl, RegOp::Or, 0x00003333),
        RegisterWrite::new(Register::GpiobOdr, RegOp::Or, 0x000000FF),
        RegisterWrite::new(Register::GpioeCrh, RegOp::Assign, 0),
        RegisterWrite::new(Register::GpioeCrh, RegOp::Or, 0x33333333),
        RegisterWrite::new(Register::GpioeOdr, RegOp::Or, 0x0000FF00),
    ];
    assert(plan@ =~= init_plan());
    plan
}

/// What the display set-up does to the registers, whatever they held (it
/// clocks port B and port E before it writes to them): it sets
/// the clock bits of port B and port E, gives PB0 to PB3 the push-pull output
/// configuration 0b0011 and leaves PB4 to PB7 as they were, drives PB0 to PB7
/// high, configures PE8 to PE15 as push-pull outputs and drives them high, and
/// leaves AFIO and port C alone.
pub proof fn lemma_init_effect(regs: RegisterFile)
    ensures
        ({
            let f = regs.after_all(init_plan());
            &&& f.rcc_apb2enr == regs.rcc_apb2enr | 0x48
            &&& f.afio_mapr == regs.afio_mapr
            &&& f.gpiob_crl == (regs.gpiob_crl & 0xFFFF0000) | 0x00003333
            &&& f.gpiob_crl & 0xFFFF == 0x3333
            &&& f.gpiob_crl & 0xFFFF0000 == regs.gpiob_crl & 0xFFFF0000
            &&& f.gpiob_odr == regs.gpiob_odr | 0xFF
            &&& f.gpioc_crl == regs.gpioc_crl
            &&& f.gpioc_odr == regs.gpioc_odr
            &&& f.gpioe_crh == 0x33333333
            &&& f.gpioe_odr == regs.gpioe_odr | 0xFF00
        }),
{
    reveal_with_fuel(RegisterFile::after_all, 9);
    let a = regs.rcc_apb2enr;
    let b = regs.gpiob_crl;
    assert((a | 8u32) | 64u32 == a | 0x48u32) by (bit_vector);
    assert(((a | 8u32) | 64u32) & 8u32 != 0u32) by (bit_vector);
    assert(((a | 8u32) | 64u32) & 0x40u32 != 0u32) by (bit_vector);
    assert(((b & 0xFFFF0000u32) | 0x3333u32) & 0xFFFFu32 == 0x3333u32) by (bit_vector);
    assert(((b & 0xFFFF0000u32) | 0x3333u32) & 0xFFFF0000u32 == b & 0xFFFF0000u32)
        by (bit_vector);
    assert((0u32 | 0x33333333u32) == 0x33333333u32) by (bit_vector);
}

/// The scrolling text of this experiment: "PQY", 100 refreshes per position,
/// switching the glyph before the digit for the second and third digit.
pub fn marquee() -> (m: Marquee)
    ensures
        m.wf(),
        m.scroller == (Scroller { pos: 0, direction: Direction::Forward }),
        m.glyphs@ == seq![APL_P, APL_Q, APL_Y],
        m.refresh == 0,
        m.refreshes == REFRESHES_PER_STEP,
        m.staggered,
{
    let m = Marquee::new([APL_P, APL_Q, APL_Y], REFRESHES_PER_STEP, true);
    assert(m.glyphs@ =~= seq![APL_P, APL_Q, APL_Y]);
    m
}

} // verus!
