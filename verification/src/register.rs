//! Read-modify-write of 32-bit peripheral registers, and a model of the
//! registers that the board set-up touches.
//!
//! A set-up routine is described as a plan: a sequence of [`RegisterWrite`]s,
//! each of which reads a register, combines the value read with a flag, and
//! writes the result back. [`RegisterFile`] holds the value of every register a
//! plan touches, and [`RegisterFile::run`] carries a plan out on it.
use vstd::prelude::*;

verus! {

/// How a modification combines the flag with the value read from the register.
#[derive(Clone, Copy, Debug, PartialEq, Eq, Structural)]
pub enum RegOp {
    /// The register takes the flag as its new value (`reg = flag`).
    Assign,
    /// The register keeps only the bits that are also set in the flag (`reg &= flag`).
    And,
    /// The register gains the bits of the flag (`reg |= flag`).
    Or,
}

/// The value a register holds after `op` with `flag` is applied to `current`.
pub open spec fn op_result(current: u32, op: RegOp, flag: u32) -> u32 {
    match op {
        RegOp::Assign => flag,
        RegOp::And => current & flag,
        RegOp::Or => current | flag,
    }
}

/// The value written back when `op` with `flag` is applied to a register that reads `current`.
pub fn apply_op(current: u32, op: RegOp, flag: u32) -> (written: u32)
    ensures
        written == op_result(current, op, flag),
{
    match op {
        RegOp::Assign => flag,
        RegOp::And => current & flag,
        RegOp::Or => current | flag,
    }
}

/// The operation that a numeric status selects: 0 assigns, 1 sets bits, 2 masks
/// bits; any other status leaves the register as it was read.
pub open spec fn status_op(status: u32) -> Option<RegOp> {
    if status == 0 {
        Some(RegOp::Assign)
    } else if status == 1 {
        Some(RegOp::Or)
    } else if status == 2 {
        Some(RegOp::And)
    } else {
        None
    }
}

/// The value written back by a modification whose operation is chosen by a
/// numeric status (see [`status_op`]).
pub fn modify_with_status(current: u32, flag: u32, status: u32) -> (written: u32)
    ensures
        written == match status_op(status) {
            Some(op) => op_result(current, op, flag),
            None => current,
        },
{
    if status == 0 {
        apply_op(current, RegOp::Assign, flag)
    } else if status == 1 {
        apply_op(current, RegOp::Or, flag)
    } else if status == 2 {
        apply_op(current, RegOp::And, flag)
    } else {
        current
    }
}

/// RCC_APB2ENR bit that clocks the alternate-function I/O block.
pub const AFIO_EN: u32 = 1;

/// RCC_APB2ENR bit that clocks GPIO port B.
pub const IOPB_EN: u32 = 0x08;

/// RCC_APB2ENR bit that clocks GPIO port C.
pub const IOPC_EN: u32 = 0x10;

/// RCC_APB2ENR bit that clocks GPIO port E.
pub const IOPE_EN: u32 = 0x40;

/// The peripheral registers that the set-up plans modify.
#[derive(Clone, Copy, Debug, PartialEq, Eq, Structural)]
pub enum Register {
    /// RCC APB2 peripheral clock enable register.
    RccApb2enr,
    /// AFIO remap and debug I/O configuration register.
    AfioMapr,
    /// GPIOB configuration register for pins 0 to 7.
    GpiobCrl,
    /// GPIOB output data register.
    GpiobOdr,
    /// GPIOC configuration register for pins 0 to 7.
    GpiocCrl,
    /// GPIOC output data register.
    GpiocOdr,
    /// GPIOE configuration register for pins 8 to 15.
    GpioeCrh,
    /// GPIOE output data register.
    GpioeOdr,
}

/// One read-modify-write of a register.
#[derive(Clone, Copy, Debug, PartialEq, Eq, Structural)]
pub struct RegisterWrite {
    pub register: Register,
    pub op: RegOp,
    pub flag: u32,
}

impl RegisterWrite {
    /// A modification of `register` by `op` with `flag`.
    pub fn new(register: Register, op: RegOp, flag: u32) -> (w: RegisterWrite)
        ensures
            w == (RegisterWrite { register, op, flag }),
    {
        RegisterWrite { register, op, flag }
    }
}

/// The value of every register that a set-up plan touches.
#[derive(Clone, Copy, Debug, PartialEq, Eq, Structural)]
pub struct RegisterFile {
    pub rcc_apb2enr: u32,
    pub afio_mapr: u32,
    pub gpiob_crl: u32,
    pub gpiob_odr: u32,
    pub gpioc_crl: u32,
    pub gpioc_odr: u32,
    pub gpioe_crh: u32,
    pub gpioe_odr: u32,
}

impl RegisterFile {
    /// The value held by `r`.
    pub open spec fn get(self, r: Register) -> u32 {
        match r {
            Register::RccApb2enr => self.rcc_apb2enr,
            Register::AfioMapr => self.afio_mapr,
            Register::GpiobCrl => self.gpiob_crl,
            Register::GpiobOdr => self.gpiob_odr,
            Register::GpiocCrl => self.gpioc_crl,
            Register::GpiocOdr => self.gpioc_odr,
            Register::GpioeCrh => self.gpioe_crh,
            Register::GpioeOdr => self.gpioe_odr,
        }
    }

    /// These registers with `r` holding `v` and every other register unchanged.
    pub open spec fn set(self, r: Register, v: u32) -> RegisterFile {
        match r {
            Register::RccApb2enr => RegisterFile { rcc_apb2enr: v, ..self },
            Register::AfioMapr => RegisterFile { afio_mapr: v, ..self },
            Register::GpiobCrl => RegisterFile { gpiob_crl: v, ..self },
            Register::GpiobOdr => RegisterFile { gpiob_odr: v, ..self },
            Register::GpiocCrl => RegisterFile { gpioc_crl: v, ..self },
            Register::GpiocOdr => RegisterFile { gpioc_odr: v, ..self },
            Register::GpioeCrh => RegisterFile { gpioe_crh: v, ..self },
            Register::GpioeOdr => RegisterFile { gpioe_odr: v, ..self },
        }
    }

    /// Whether `r` belongs to a block whose clock is on, so that writes to it
    /// take effect: the RCC is always clocked, AFIO and the GPIO ports only
    /// while their bit in RCC_APB2ENR is set. A write to an unclocked block is
    /// lost.
    pub open spec fn clocked(self, r: Register) -> bool {
        match r {
            Register::RccApb2enr => true,
            Register::AfioMapr => self.rcc_apb2enr & AFIO_EN != 0,
            Register::GpiobCrl | Register::GpiobOdr => self.rcc_apb2enr & IOPB_EN != 0,
            Register::GpiocCrl | Register::GpiocOdr => self.rcc_apb2enr & IOPC_EN != 0,
            Register::GpioeCrh | Register::GpioeOdr => self.rcc_apb2enr & IOPE_EN != 0,
        }
    }

    /// These registers after the modification `w`; nothing changes when the
    /// block of the register written is not clocked.
    pub open spec fn after(self, w: RegisterWrite) -> RegisterFile {
        if self.clocked(w.register) {
            self.set(w.register, op_result(self.get(w.register), w.op, w.flag))
        } else {
            self
        }
    }

    /// These registers after the modifications of `plan`, first to last.
    pub open spec fn after_all(self, plan: Seq<RegisterWrite>) -> RegisterFile
        decreases plan.len(),
    {
        if plan.len() == 0 {
            self
        } else {
            self.after(plan[0]).after_all(plan.drop_first())
        }
    }

    /// Registers that all read zero.
    pub fn zeroed() -> (regs: RegisterFile)
        ensures
            forall|r: Register| #[trigger] regs.get(r) == 0,
    {
        RegisterFile {
            rcc_apb2enr: 0,
            afio_mapr: 0,
            gpiob_crl: 0,
            gpiob_odr: 0,
            gpioc_crl: 0,
            gpioc_odr: 0,
            gpioe_crh: 0,
            gpioe_odr: 0,
        }
    }

    /// The value held by `r`.
    pub fn read(&self, r: Register) -> (v: u32)
        ensures
            v == self.get(r),
    {
        match r {
            Register::RccApb2enr => self.rcc_apb2enr,
            Register::AfioMapr => self.afio_mapr,
            Register::GpiobCrl => self.gpiob_crl,
            Register::GpiobOdr => self.gpiob_odr,
            Register::GpiocCrl => self.gpioc_crl,
            Register::GpiocOdr => self.gpioc_odr,
            Register::GpioeCrh => self.gpioe_crh,
            Register::GpioeOdr => self.gpioe_odr,
        }
    }

    /// Whether writes to `r` take effect (see [`RegisterFile::clocked`]).
    pub fn is_clocked(&self, r: Register) -> (c: bool)
        ensures
            c == self.clocked(r),
            c == match r {
                Register::RccApb2enr => true,
                Register::AfioMapr => self.rcc_apb2enr & 0x01 != 0,
                Register::GpiobCrl | Register::GpiobOdr => self.rcc_apb2enr & 0x08 != 0,
                Register::GpiocCrl | Register::GpiocOdr => self.rcc_apb2enr & 0x10 != 0,
                Register::GpioeCrh | Register::GpioeOdr => self.rcc_apb2enr & 0x40 != 0,
            },
    {
        match r {
            Register::RccApb2enr => true,
            Register::AfioMapr => self.rcc_apb2enr & AFIO_EN != 0,
            Register::GpiobCrl | Register::GpiobOdr => self.rcc_apb2enr & IOPB_EN != 0,
            Register::GpiocCrl | Register::GpiocOdr => self.rcc_apb2enr & IOPC_EN != 0,
            Register::GpioeCrh | Register::GpioeOdr => self.rcc_apb2enr & IOPE_EN != 0,
        }
    }

    /// Carries out the modification `w`; it is lost when the register's block
    /// is not clocked.
    pub fn modify(&mut self, w: RegisterWrite)
        ensures
            *final(self) == old(self).after(w),
    {
        if !self.is_clocked(w.register) {
            return;
        }
        let v = apply_op(self.read(w.register), w.op, w.flag);
        match w.register {
            Register::RccApb2enr => self.rcc_apb2enr = v,
            Register::AfioMapr => self.afio_mapr = v,
            Register::GpiobCrl => self.gpiob_crl = v,
            Register::GpiobOdr => self.gpiob_odr = v,
            Register::GpiocCrl => self.gpioc_crl = v,
            Register::GpiocOdr => self.gpioc_odr = v,
            Register::GpioeCrh => self.gpioe_crh = v,
            Register::GpioeOdr => self.gpioe_odr = v,
        }
    }

    /// Carries out the modifications of `plan`, first to last.
    pub fn run(&mut self, plan: &Vec<RegisterWrite>)
        ensures
            *final(self) == old(self).after_all(plan@),
    {
        let ghost start = *self;
        let mut i: usize = 0;
        assert(plan@.skip(0) =~= plan@);
        while i < plan.len()
            invariant
                i <= plan.len(),
                self.after_all(plan@.skip(i as int)) == start.after_all(plan@),
            decreases plan.len() - i,
        {
            proof {
                let rest = plan@.skip(i as int);
                assert(rest[0] == plan@[i as int]);
                assert(rest.drop_first() =~= plan@.skip(i + 1));
            }
            self.modify(plan[i]);
            i = i + 1;
        }
        proof {
            assert(plan@.skip(i as int).len() == 0);
        }
    }
}

/// A modification reaches its register only while that register's block is
/// clocked: the RCC always; AFIO while bit 0 of RCC_APB2ENR is set; port B
/// while bit 3 is set; port C while bit 4 is set; port E while bit 6 is set.
/// When it reaches the register, the register takes the combined value; when
/// not, it keeps its value. No other register changes.
pub proof fn lemma_writes_need_their_clock(regs: RegisterFile, w: RegisterWrite)
    ensures
        ({
            let f = regs.after(w);
            let en = regs.rcc_apb2enr;
            let v = op_result(regs.get(w.register), w.op, w.flag);
            &&& w.register == Register::RccApb2enr ==> f.rcc_apb2enr == v
            &&& w.register == Register::AfioMapr ==> f.afio_mapr == (if en & 0x01 != 0 {
                v
            } else {
                regs.afio_mapr
            })
            &&& w.register == Register::GpiobCrl ==> f.gpiob_crl == (if en & 0x08 != 0 {
                v
            } else {
                regs.gpiob_crl
            })
            &&& w.register == Register::GpiobOdr ==> f.gpiob_odr == (if en & 0x08 != 0 {
                v
            } else {
                regs.gpiob_odr
            })
            &&& w.register == Register::GpiocCrl ==> f.gpioc_crl == (if en & 0x10 != 0 {
                v
            } else {
                regs.gpioc_crl
            })
            &&& w.register == Register::GpiocOdr ==> f.gpioc_odr == (if en & 0x10 != 0 {
                v
            } else {
                regs.gpioc_odr
            })
            &&& w.register == Register::GpioeCrh ==> f.gpioe_crh == (if en & 0x40 != 0 {
                v
            } else {
                regs.gpioe_crh
            })
            &&& w.register == Register::GpioeOdr ==> f.gpioe_odr == (if en & 0x40 != 0 {
                v
            } else {
                regs.gpioe_odr
            })
        }),
        forall|r: Register| r != w.register ==> #[trigger] regs.after(w).get(r) == regs.get(r),
{
}

} // verus!
