//! Experiment 1: a running light on the eight LEDs at PE8 to PE15.
//!
//! One LED is lit at a time; the light runs from the first LED to the last and
//! back, one LED every half second.
use vstd::prelude::*;
use crate::register::{RegOp, Register, RegisterFile, RegisterWrite, AFIO_EN, IOPB_EN, IOPE_EN};

verus! {

/// GPIOE output value that drives only the first LED (PE8) high.
pub const LED1_HIGH: u32 = 0x00000100;

pub const LED2_HIGH: u32 = LED1_HIGH << 1;

pub const LED3_HIGH: u32 = LED1_HIGH << 2;

pub const LED4_HIGH: u32 = LED1_HIGH << 3;

pub const LED5_HIGH: u32 = LED1_HIGH << 4;

pub const LED6_HIGH: u32 = LED1_HIGH << 5;

pub const LED7_HIGH: u32 = LED1_HIGH << 6;

pub const LED8_HIGH: u32 = LED1_HIGH << 7;

/// The register modifications that prepare the board for the running light.
pub open spec fn led_init_plan() -> Seq<RegisterWrite> {
    seq![
        RegisterWrite { register: Register::RccApb2enr, op: RegOp::Or, flag: 1 },
        RegisterWrite { register: Register::RccApb2enr, op: RegOp::Or, flag: 8 },
        RegisterWrite { register: Register::RccApb2enr, op: RegOp::Or, flag: 64 },
        RegisterWrite { register: Register::AfioMapr, op: RegOp::Or, flag: 0x02000000 },
        RegisterWrite { register: Register::GpiobCrl, op: RegOp::And, flag: 0xFFF0FFFF },
        RegisterWrite { register: Register::GpiobCrl, op: RegOp::Or, flag: 0x00030000 },
        RegisterWrite { register: Register::GpiobOdr, op: RegOp::Or, flag: 0x00000010 },
        RegisterWrite { register: Register::GpioeCrh, op: RegOp::Assign, flag: 0 },
        RegisterWrite { register: Register::GpioeCrh, op: RegOp::Or, flag: 0x33333333 },
        RegisterWrite { register: Register::GpioeOdr, op: RegOp::Or, flag: 0x0000FF00 },
    ]
}

/// The set-up of the running light: clock AFIO, port B and port E; free PB4
/// from the JTAG port (SW-DP only) and make it a push-pull output driven high;
/// make PE8 to PE15 push-pull outputs and drive them high.
pub fn led_init() -> (plan: Vec<RegisterWrite>)
    ensures
        plan@ == led_init_plan(),
{
    let plan = vec![
        RegisterWrite::new(Register::RccApb2enr, RegOp::Or, AFIO_EN),
        RegisterWrite::new(Register::RccApb2enr, RegOp::Or, IOPB_EN),
        RegisterWrite::new(Register::RccApb2enr, RegOp::Or, IOPE_EN),
        RegisterWrite::new(Register::AfioMapr, RegOp::Or, 0x02000000),
        RegisterWrite::new(Register::GpiobCrl, RegOp::And, 0xFFF0FFFF),
        RegisterWrite::new(Register::GpiobCrl, RegOp::Or, 0x00030000),
        RegisterWrite::new(Register::GpiobOdr, RegOp::Or, 0x00000010),
        RegisterWrite::new(Register::GpioeCrh, RegOp::Assign, 0),
        RegisterWrite::new(Register::GpioeCrh, RegOp::Or, 0x33333333),
        RegisterWrite::new(Register::GpioeOdr, RegOp::Or, 0x0000FF00),
    ];
    assert(plan@ =~= led_init_plan());
    plan
}

/// What the running-light set-up does to the registers, whatever they held
/// (it clocks AFIO, port B and port E before it writes to them): it sets the clock bits of AFIO, port B and port E, sets the SW-DP-only
/// remap, gives PB4 the push-pull output configuration 0b0011 and leaves the
/// other low pins of port B as they were, drives PB4 high, configures all of
/// PE8 to PE15 as push-pull outputs, drives them high, and leaves port C alone.
pub proof fn lemma_led_init_effect(regs: RegisterFile)
    ensures
        ({
            let f = regs.after_all(led_init_plan());
            &&& f.rcc_apb2enr == regs.rcc_apb2enr | 0x49
            &&& f.afio_mapr == regs.afio_mapr | 0x02000000
            &&& f.gpiob_crl == (regs.gpiob_crl & 0xFFF0FFFF) | 0x00030000
            &&& (f.gpiob_crl >> 16u32) & 0xF == 3
            &&& f.gpiob_crl & 0xFFF0FFFF == regs.gpiob_crl & 0xFFF0FFFF
            &&& f.gpiob_odr == regs.gpiob_odr | 0x10
            &&& f.gpioc_crl == regs.gpioc_crl
            &&& f.gpioc_odr == regs.gpioc_odr
            &&& f.gpioe_crh == 0x33333333
            &&& f.gpioe_odr == regs.gpioe_odr | 0xFF00
            &&& f.gpioe_odr & 0xFF00 == 0xFF00
        }),
{
    reveal_with_fuel(RegisterFile::after_all, 11);
    let a = regs.rcc_apb2enr;
    let b = regs.gpiob_crl;
    let e = regs.gpioe_odr;
    assert(((a | 1u32) | 8u32) | 64u32 == a | 0x49u32) by (bit_vector);
    assert((((a | 1u32) | 8u32) | 64u32) & 1u32 != 0u32) by (bit_vector);
    assert((((a | 1u32) | 8u32) | 64u32) & 8u32 != 0u32) by (bit_vector);
    assert((((a | 1u32) | 8u32) | 64u32) & 0x40u32 != 0u32) by (bit_vector);
    assert((((b & 0xFFF0FFFFu32) | 0x00030000u32) >> 16u32) & 0xFu32 == 3u32) by (bit_vector);
    assert(((b & 0xFFF0FFFFu32) | 0x00030000u32) & 0xFFF0FFFFu32 == b & 0xFFF0FFFFu32)
        by (bit_vector);
    assert((0u32 | 0x33333333u32) == 0x33333333u32) by (bit_vector);
    assert((e | 0xFF00u32) & 0xFF00u32 == 0xFF00u32) by (bit_vector);
}

/// The number of steps of the running light before it repeats: out over the
/// eight LEDs and back over the six inner ones.
pub const CHASE_STEPS: u8 = 14;

/// How long each LED stays lit, in milliseconds.
pub const CHASE_DELAY_MS: u32 = 500;

/// The LED (0 for PE8 to 7 for PE15) lit at step `step` of the running light.
pub open spec fn chase_led(step: int) -> int {
    let s = step % 14;
    if s < 8 {
        s
    } else {
        14 - s
    }
}

/// The output value that lights only LED `led`.
pub open spec fn led_odr(led: int) -> u32 {
    LED1_HIGH << (led as u32)
}

/// The running light: the step it has reached.
#[derive(Clone, Copy, Debug, PartialEq, Eq, Structural)]
pub struct LedChase {
    pub step: u8,
}

impl LedChase {
    pub open spec fn wf(self) -> bool {
        self.step < CHASE_STEPS
    }

    /// The running light at its first step.
    pub fn new() -> (c: LedChase)
        ensures
            c.step == 0,
            c.wf(),
    {
        LedChase { step: 0 }
    }

    /// The GPIOE output value of the current step; moves to the next step.
    pub fn next(&mut self) -> (odr: u32)
        requires
            old(self).wf(),
        ensures
            odr == led_odr(chase_led(old(self).step as int)),
            final(self).step == (old(self).step + 1) % (CHASE_STEPS as int),
            final(self).wf(),
    {
        let led: u32 = if self.step < 8 {
            self.step as u32
        } else {
            14 - self.step as u32
        };
        let odr = LED1_HIGH << led;
        self.step = if self.step + 1 == CHASE_STEPS {
            0
        } else {
            self.step + 1
        };
        odr
    }
}

/// Every step of the running light lights exactly one LED: its output value
/// has the single bit of that LED set, among PE8 to PE15.
pub proof fn lemma_chase_lights_one_led(step: int)
    ensures
        0 <= chase_led(step) < 8,
        led_odr(chase_led(step)) == 1u32 << ((8 + chase_led(step)) as u32),
        led_odr(chase_led(step)) & 0xFF00u32 == led_odr(chase_led(step)),
{
    let k = chase_led(step) as u32;
    assert(k < 8);
    assert(k < 8u32 ==> (0x100u32 << k) == 1u32 << (8u32 + k)) by (bit_vector);
    assert(k < 8u32 ==> (0x100u32 << k) & 0xFF00u32 == 0x100u32 << k) by (bit_vector);
}

/// The light moves to a neighbouring LED at every step, also when the
/// sequence starts over.
pub proof fn lemma_chase_moves_to_neighbour(step: int)
    requires
        step >= 0,
    ensures
        chase_led(step + 1) == chase_led(step) + 1 || chase_led(step + 1) + 1 == chase_led(step),
{
}

/// The light visits every LED, the first and the last once per round.
pub proof fn lemma_chase_visits_every_led(led: int)
    requires
        0 <= led < 8,
    ensures
        chase_led(led) == led,
        0 < led < 7 ==> chase_led(14 - led) == led,
{
}

} // verus!
