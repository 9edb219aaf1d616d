use stm32::register::{
    apply_op, modify_with_status, RegOp, Register, RegisterFile, RegisterWrite, AFIO_EN, IOPB_EN,
    IOPC_EN, IOPE_EN,
};

#[test]
fn apply_op_assign_and_or() {
    assert_eq!(apply_op(0xF0F0, RegOp::Assign, 0x1234), 0x1234);
    assert_eq!(apply_op(0xF0F0, RegOp::And, 0xFF00), 0xF000);
    assert_eq!(apply_op(0xF0F0, RegOp::Or, 0x000F), 0xF0FF);
}

#[test]
fn modify_with_status_selects_operation() {
    assert_eq!(modify_with_status(0xF0F0, 0x0F0F, 0), 0x0F0F);
    assert_eq!(modify_with_status(0xF0F0, 0x0F0F, 1), 0xFFFF);
    assert_eq!(modify_with_status(0xF0F0, 0x0F0F, 2), 0x0000);
    assert_eq!(modify_with_status(0xF0F0, 0x0F0F, 3), 0xF0F0);
    assert_eq!(modify_with_status(0xF0F0, 0x0F0F, 77), 0xF0F0);
}

#[test]
fn clock_enable_bits() {
    assert_eq!(AFIO_EN, 1);
    assert_eq!(IOPB_EN, 1 << 3);
    assert_eq!(IOPC_EN, 1 << 4);
    assert_eq!(IOPE_EN, 1 << 6);
}

#[test]
fn zeroed_registers_read_zero() {
    let regs = RegisterFile::zeroed();
    for r in [
        Register::RccApb2enr,
        Register::AfioMapr,
        Register::GpiobCrl,
        Register::GpiobOdr,
        Register::GpiocCrl,
        Register::GpiocOdr,
        Register::GpioeCrh,
        Register::GpioeOdr,
    ] {
        assert_eq!(regs.read(r), 0);
    }
}

#[test]
fn modify_touches_only_its_register() {
    let mut regs = RegisterFile::zeroed();
    regs.rcc_apb2enr = IOPC_EN;
    regs.modify(RegisterWrite::new(Register::GpiocOdr, RegOp::Or, 0xF));
    assert_eq!(regs.gpioc_odr, 0xF);
    assert_eq!(regs.gpiob_odr, 0);
    assert_eq!(regs.gpioe_odr, 0);
    regs.modify(RegisterWrite::new(Register::GpiocOdr, RegOp::And, 0x3));
    assert_eq!(regs.read(Register::GpiocOdr), 0x3);
}

#[test]
fn run_applies_in_order() {
    let mut regs = RegisterFile::zeroed();
    regs.rcc_apb2enr = IOPE_EN;
    let plan = vec![
        RegisterWrite::new(Register::GpioeCrh, RegOp::Or, 0xFF),
        RegisterWrite::new(Register::GpioeCrh, RegOp::Assign, 0x10),
        RegisterWrite::new(Register::GpioeCrh, RegOp::Or, 0x01),
    ];
    regs.run(&plan);
    assert_eq!(regs.gpioe_crh, 0x11);
}

#[test]
fn writes_to_unclocked_blocks_are_lost() {
    let mut regs = RegisterFile::zeroed();
    assert!(regs.is_clocked(Register::RccApb2enr));
    assert!(!regs.is_clocked(Register::GpiobOdr));
    regs.modify(RegisterWrite::new(Register::GpiobOdr, RegOp::Or, 0xFF));
    assert_eq!(regs.gpiob_odr, 0);
    regs.modify(RegisterWrite::new(Register::AfioMapr, RegOp::Assign, 0x5));
    assert_eq!(regs.afio_mapr, 0);
    regs.modify(RegisterWrite::new(Register::RccApb2enr, RegOp::Or, IOPB_EN | AFIO_EN));
    assert!(regs.is_clocked(Register::GpiobCrl));
    assert!(regs.is_clocked(Register::AfioMapr));
    assert!(!regs.is_clocked(Register::GpioeCrh));
    regs.modify(RegisterWrite::new(Register::GpiobOdr, RegOp::Or, 0xFF));
    assert_eq!(regs.gpiob_odr, 0xFF);
}
