use stm32::blink::{Blink, BLINK_DELAY_MS};
use stm32::display::{Action, Direction, Scroller};
use stm32::exp1::{
    led_init, LedChase, CHASE_DELAY_MS, CHASE_STEPS, LED1_HIGH, LED2_HIGH, LED3_HIGH, LED4_HIGH,
    LED5_HIGH, LED6_HIGH, LED7_HIGH, LED8_HIGH,
};
use stm32::exp2::{self, APL_1, APL_2, APL_3, APL_4, APL_P, APL_Q, APL_Y};
use stm32::exp3::{self, debounce, key_name, Edge, Exp3, Key, KeyChange, KeyLevels};
use stm32::exp4::{
    self, handler, pending_clear_value, priority, ExtiLine, HandlerPlan, MoveAndShow,
};
use stm32::register::{RegOp, Register, RegisterFile, RegisterWrite};

#[test]
fn led_masks() {
    assert_eq!(
        [LED1_HIGH, LED2_HIGH, LED3_HIGH, LED4_HIGH, LED5_HIGH, LED6_HIGH, LED7_HIGH, LED8_HIGH],
        [0x100, 0x200, 0x400, 0x800, 0x1000, 0x2000, 0x4000, 0x8000]
    );
}

#[test]
fn led_init_plan_and_effect() {
    let plan = led_init();
    assert_eq!(plan.len(), 10);
    assert_eq!(plan[0], RegisterWrite::new(Register::RccApb2enr, RegOp::Or, 1));
    assert_eq!(plan[7], RegisterWrite::new(Register::GpioeCrh, RegOp::Assign, 0));
    let mut regs = RegisterFile::zeroed();
    regs.run(&plan);
    assert_eq!(regs.rcc_apb2enr, 0x49);
    assert_eq!(regs.afio_mapr, 0x0200_0000);
    assert_eq!(regs.gpiob_crl, 0x0003_0000);
    assert_eq!(regs.gpiob_odr, 0x10);
    assert_eq!(regs.gpioc_crl, 0);
    assert_eq!(regs.gpioe_crh, 0x3333_3333);
    assert_eq!(regs.gpioe_odr, 0xFF00);
}

#[test]
fn led_init_keeps_other_pins() {
    let mut regs = RegisterFile {
        rcc_apb2enr: 0x8000_0000,
        afio_mapr: 0x1,
        gpiob_crl: 0x4444_4444,
        gpiob_odr: 0x1,
        gpioc_crl: 0x4444_4444,
        gpioc_odr: 0x5,
        gpioe_crh: 0x4444_4444,
        gpioe_odr: 0x3,
    };
    regs.run(&led_init());
    assert_eq!(regs.rcc_apb2enr, 0x8000_0049);
    assert_eq!(regs.afio_mapr, 0x0200_0001);
    assert_eq!(regs.gpiob_crl, 0x4443_4444);
    assert_eq!(regs.gpiob_odr, 0x11);
    assert_eq!(regs.gpioc_crl, 0x4444_4444);
    assert_eq!(regs.gpioc_odr, 0x5);
    assert_eq!(regs.gpioe_crh, 0x3333_3333);
    assert_eq!(regs.gpioe_odr, 0xFF03);
}

#[test]
fn running_light_goes_out_and_back() {
    let mut c = LedChase::new();
    let seen: Vec<u32> = (0..15).map(|_| c.next()).collect();
    assert_eq!(
        seen,
        vec![
            0x100, 0x200, 0x400, 0x800, 0x1000, 0x2000, 0x4000, 0x8000, 0x4000, 0x2000, 0x1000,
            0x800, 0x400, 0x200, 0x100
        ]
    );
    assert_eq!(c.step, 1);
    assert_eq!(CHASE_STEPS, 14);
    assert_eq!(CHASE_DELAY_MS, 500);
}

#[test]
fn running_light_lights_one_led() {
    let mut c = LedChase::new();
    for _ in 0..28 {
        let odr = c.next();
        assert_eq!(odr.count_ones(), 1);
        assert_eq!(odr & 0xFF00, odr);
    }
}

#[test]
fn exp2_init_effect() {
    let mut regs = RegisterFile::zeroed();
    regs.gpiob_crl = 0x8888_8888;
    regs.run(&exp2::init());
    assert_eq!(regs.rcc_apb2enr, 0x48);
    assert_eq!(regs.gpiob_crl, 0x8888_3333);
    assert_eq!(regs.gpiob_odr, 0xFF);
    assert_eq!(regs.gpioe_crh, 0x3333_3333);
    assert_eq!(regs.gpioe_odr, 0xFF00);
    assert_eq!(regs.afio_mapr, 0);
}

#[test]
fn glyph_codes() {
    assert_eq!(APL_2, 0b1011011);
    assert_eq!(APL_4, 0b1100110);
    assert_eq!(APL_P, 0b1110011);
    assert_eq!(APL_Q, 0b1100111);
    assert_eq!(APL_Y, 0b1101110);
    assert_eq!(APL_1, 0b0000110);
    assert_eq!(APL_3, 0b1001111);
}

#[test]
fn exp2_marquee_moves_every_hundred_refreshes() {
    let mut m = exp2::marquee();
    assert!(m.staggered);
    for _ in 0..99 {
        m.tick();
    }
    assert_eq!(m.scroller.pos, 0);
    m.tick();
    assert_eq!(m.scroller.pos, 1);
    let f = m.frame();
    assert_eq!(f[0], Action::SelectDigit(1));
    assert_eq!(f[1], Action::ShowGlyph(APL_P));
    assert_eq!(f[4], Action::SelectDigit(2));
}

#[test]
fn exp3_init_effect() {
    let mut regs = RegisterFile::zeroed();
    regs.gpioc_crl = 0x1234_5678;
    regs.run(&exp3::init());
    assert_eq!(regs.rcc_apb2enr, 0x10);
    assert_eq!(regs.gpioc_crl, 0x1234_8888);
    assert_eq!(regs.gpioc_odr, 0xF);
    assert_eq!(regs.gpiob_crl, 0);
    assert_eq!(regs.gpiob_odr, 0);
    assert_eq!(regs.gpioe_crh, 0);
    assert_eq!(regs.gpioe_odr, 0);
}

#[test]
fn exp3_init_on_clocked_ports() {
    let mut regs = RegisterFile::zeroed();
    regs.rcc_apb2enr = 0x48;
    regs.gpiob_crl = 0x4444_4444;
    regs.run(&exp3::init());
    assert_eq!(regs.rcc_apb2enr, 0x58);
    assert_eq!(regs.gpiob_crl, 0x4444_3333);
    assert_eq!(regs.gpiob_odr, 0xFF);
    assert_eq!(regs.gpioe_crh, 0x3333_3333);
    assert_eq!(regs.gpioe_odr, 0xFF00);
}

#[test]
fn debounce_reports_each_change_once() {
    let mut pressed = false;
    assert_eq!(debounce(&mut pressed, true), Some(Edge::Pressed));
    assert!(pressed);
    assert_eq!(debounce(&mut pressed, true), None);
    assert_eq!(debounce(&mut pressed, false), Some(Edge::Released));
    assert!(!pressed);
    assert_eq!(debounce(&mut pressed, false), None);
}

#[test]
fn key_names() {
    assert_eq!(key_name(Key::K1), "k1");
    assert_eq!(key_name(Key::K2), "k2");
    assert_eq!(key_name(Key::K3), "k3");
    assert_eq!(key_name(Key::K4), "k4");
}

fn released() -> KeyLevels {
    KeyLevels { k1_low: false, k2_low: false, k3_low: false, k4_low: false }
}

#[test]
fn holding_k2_shows_two_until_release() {
    let mut s = Exp3::new();
    assert_eq!(s.glyphs(), [APL_P, APL_Q, APL_Y]);
    let changes = s.tick(KeyLevels { k2_low: true, ..released() });
    assert_eq!(changes, vec![KeyChange { key: Key::K2, edge: Edge::Pressed }]);
    assert_eq!(s.key_down_up, 2);
    assert_eq!(s.glyphs(), [APL_2, APL_2, APL_2]);
    assert_eq!(s.frame()[1], Action::ShowGlyph(APL_2));
    assert!(s.tick(KeyLevels { k2_low: true, ..released() }).is_empty());
    let changes = s.tick(released());
    assert_eq!(changes, vec![KeyChange { key: Key::K2, edge: Edge::Released }]);
    assert_eq!(s.glyphs(), [APL_P, APL_Q, APL_Y]);
}

#[test]
fn k4_after_k2_shows_four() {
    let mut s = Exp3::new();
    let changes = s.tick(KeyLevels { k2_low: true, k4_low: true, ..released() });
    assert_eq!(
        changes,
        vec![
            KeyChange { key: Key::K2, edge: Edge::Pressed },
            KeyChange { key: Key::K4, edge: Edge::Pressed },
        ]
    );
    assert_eq!(s.key_down_up, 4);
    assert_eq!(s.glyphs(), [APL_4, APL_4, APL_4]);
}

#[test]
fn k1_speeds_up_and_k3_slows_down() {
    let mut s = Exp3::new();
    assert_eq!(s.speed, exp3::SPEED_NORMAL);
    s.tick(KeyLevels { k1_low: true, ..released() });
    assert_eq!(s.speed, 50);
    s.tick(KeyLevels { k1_low: true, k3_low: true, ..released() });
    assert_eq!(s.speed, 400);
    let changes = s.tick(KeyLevels { k3_low: true, ..released() });
    assert_eq!(changes, vec![KeyChange { key: Key::K1, edge: Edge::Released }]);
    assert_eq!(s.speed, 200);
    s.tick(released());
    assert_eq!(s.speed, 200);
}

#[test]
fn exp3_scrolls_after_speed_plus_one_refreshes() {
    let mut s = Exp3::new();
    for _ in 0..200 {
        s.tick(released());
    }
    assert_eq!(s.scroller.pos, 0);
    assert_eq!(s.speed_index, 200);
    s.tick(released());
    assert_eq!(s.scroller.pos, 1);
    assert_eq!(s.speed_index, 0);
}

#[test]
fn exp3_fast_key_cuts_a_long_wait_short() {
    let mut s = Exp3::new();
    for _ in 0..100 {
        s.tick(released());
    }
    s.tick(KeyLevels { k1_low: true, ..released() });
    assert_eq!(s.scroller.pos, 1);
    assert_eq!(s.speed_index, 0);
}

#[test]
fn exti_priorities_and_pending_bits() {
    assert_eq!(priority(ExtiLine::Exti0), 0);
    assert_eq!(priority(ExtiLine::Exti1), 32);
    assert_eq!(priority(ExtiLine::Exti2), 64);
    assert_eq!(priority(ExtiLine::Exti3), 128);
    assert_eq!(pending_clear_value(ExtiLine::Exti0), 1);
    assert_eq!(pending_clear_value(ExtiLine::Exti3), 8);
}

#[test]
fn exti_handlers() {
    assert_eq!(
        handler(ExtiLine::Exti0),
        HandlerPlan { glyph: APL_1, speed: 50, rounds: 5, clear_before_end_log: true, settle_ms: 10 }
    );
    assert_eq!(
        handler(ExtiLine::Exti1),
        HandlerPlan { glyph: APL_2, speed: 100, rounds: 10, clear_before_end_log: false, settle_ms: 100 }
    );
    assert_eq!(
        handler(ExtiLine::Exti2),
        HandlerPlan { glyph: APL_3, speed: 150, rounds: 15, clear_before_end_log: false, settle_ms: 100 }
    );
    assert_eq!(
        handler(ExtiLine::Exti3),
        HandlerPlan { glyph: APL_4, speed: 200, rounds: 20, clear_before_end_log: false, settle_ms: 100 }
    );
}

#[test]
fn exti0_handler_shows_250_refreshes() {
    let mut m = MoveAndShow::new(handler(ExtiLine::Exti0));
    assert_eq!(m.frame()[1], Action::ShowGlyph(APL_1));
    let mut count = 0;
    while !m.is_done() {
        m.tick();
        count += 1;
    }
    assert_eq!(count, 250);
    assert_eq!(m.scroller, Scroller { pos: 5, direction: Direction::Forward });
}

#[test]
fn exti3_handler_shows_4000_refreshes() {
    let mut m = MoveAndShow::new(handler(ExtiLine::Exti3));
    let mut count = 0;
    while !m.is_done() {
        m.tick();
        count += 1;
    }
    assert_eq!(count, 4000);
    assert_eq!(m.scroller, Scroller { pos: 0, direction: Direction::Backward });
}

#[test]
fn exp4_marquee() {
    let m = exp4::marquee();
    assert_eq!(m.refreshes, 200);
    assert!(!m.staggered);
    let f = m.frame();
    assert_eq!(f[3], Action::SelectDigit(1));
    assert_eq!(f[4], Action::ShowGlyph(APL_Q));
}

#[test]
fn blink_toggles() {
    let mut b = Blink::new(false);
    assert!(b.toggle());
    assert!(!b.toggle());
    assert_eq!(BLINK_DELAY_MS, 1000);
}

#[test]
fn successive_ticks_report_presses_and_releases_in_turn() {
    let mut s = Exp3::new();
    let readings = [true, true, false, false, true, false, true, true];
    let mut k2_edges = Vec::new();
    for low in readings {
        for change in s.tick(KeyLevels { k2_low: low, ..released() }) {
            assert_eq!(change.key, Key::K2);
            k2_edges.push(change.edge);
        }
    }
    assert_eq!(
        k2_edges,
        vec![Edge::Pressed, Edge::Released, Edge::Pressed, Edge::Released, Edge::Pressed]
    );
}
