//! Experiment 3: the scrolling text of experiment 2, steered by four keys on
//! PC0 to PC3.
//!
//! While K2 is held every lit digit shows "2", while K4 is held "4"; on release
//! the text "PQY" comes back. While K1 is held the text scrolls fast, while K3
//! is held slowly; on release it goes back to the normal pace. Each press and
//! each release of a key is reported once.
use vstd::prelude::*;
use crate::display::{staggered_frame, staggered_scan, Action, Direction, Scroller};
use crate::exp2::{APL_2, APL_4, APL_P, APL_Q, APL_Y};
use crate::register::{RegOp, Register, RegisterFile, RegisterWrite, IOPB_EN, IOPC_EN, IOPE_EN};

verus! {

/// The register modifications that prepare the board for the keys and the display.
pub open spec fn init_plan() -> Seq<RegisterWrite> {
    seq![
        RegisterWrite { register: Register::RccApb2enr, op: RegOp::Or, flag: 0x10 },
        RegisterWrite { register: Register::GpiocCrl, op: RegOp::And, flag: 0xFFFF0000 },
        RegisterWrite { register: Register::GpiocCrl, op: RegOp::Or, flag: 0x00008888 },
        RegisterWrite { register: Register::GpiocOdr, op: RegOp::Or, flag: 0x0000000F },
        RegisterWrite { register: Register::GpiobCrl, op: RegOp::And, flag: 0xFFFF0000 },
        RegisterWrite { register: Register::GpiobCrl, op: RegOp::Or, flag: 0x00003333 },
        RegisterWrite { register: Register::GpiobOdr, op: RegOp::Or, flag: 0x000000FF },
        RegisterWrite { register: Register::GpioeCrh, op: RegOp::Assign, flag: 0 },
        RegisterWrite { register: Register::GpioeCrh, op: RegOp::Or, flag: 0x33333333 },
        RegisterWrite { register: Register::GpioeOdr, op: RegOp::Or, flag: 0x0000FF00 },
    ]
}

/// The set-up of the keys and the display: clock port C; make PC0 to PC3
/// inputs with pull resistor and pull them up; make PB0 to PB3 push-pull
/// outputs and drive PB0 to PB7 high; make PE8 to PE15 push-pull outputs and
/// drive them high.
pub fn init() -> (plan: Vec<RegisterWrite>)
    ensures
        plan@ == init_plan(),
{
    let plan = vec![
        RegisterWrite::new(Register::RccApb2enr, RegOp::Or, IOPC_EN),
        RegisterWrite::new(Register::GpiocCrl, RegOp::And, 0xFFFF0000),
        RegisterWrite::new(Register::GpiocCrl, RegOp::Or, 0x00008888),
        RegisterWrite::new(Register::GpiocOdr, RegOp::Or, 0x0000000F),
        RegisterWrite::new(Register::GpiobCrl, RegOp::And, 0xFFFF0000),
        RegisterWrite::new(Register::GpiobCrl, RegOp::Or, 0x00003333),
        RegisterWrite::new(Register::GpiobOdr, RegOp::Or, 0x000000FF),
        RegisterWrite::new(Register::GpioeCrh, RegOp::Assign, 0),
        RegisterWrite::new(Register::GpioeCrh, RegOp::Or, 0x33333333),
        RegisterWrite::new(Register::GpioeOdr, RegOp::Or, 0x0000FF00),
    ];
    assert(plan@ =~= init_plan());
    plan
}

/// What the key set-up does to the registers, whatever they held: it sets the
/// clock bit of port C, gives PC0 to PC3 the input-with-pull configuration
/// 0b1000 and pulls them up, and leaves PC4 to PC7 as they were. It does not
/// clock port B or port E: where their clock bits were already set it
/// configures PB0 to PB3 and PE8 to PE15 as in experiment 2, and where they
/// were not, its writes to that port are lost and the port keeps its values.
/// It leaves AFIO alone.
pub proof fn lemma_init_effect(regs: RegisterFile)
    ensures
        ({
            let f = regs.after_all(init_plan());
            let b_on = regs.rcc_apb2enr & IOPB_EN != 0;
            let e_on = regs.rcc_apb2enr & IOPE_EN != 0;
            &&& f.rcc_apb2enr == regs.rcc_apb2enr | 0x10
            &&& f.afio_mapr == regs.afio_mapr
            &&& f.gpioc_crl == (regs.gpioc_crl & 0xFFFF0000) | 0x00008888
            &&& f.gpioc_crl & 0xFFFF == 0x8888
            &&& f.gpioc_crl & 0xFFFF0000 == regs.gpioc_crl & 0xFFFF0000
            &&& f.gpioc_odr == regs.gpioc_odr | 0xF
            &&& f.gpiob_crl == (if b_on {
                (regs.gpiob_crl & 0xFFFF0000) | 0x00003333
            } else {
                regs.gpiob_crl
            })
            &&& f.gpiob_odr == (if b_on {
                regs.gpiob_odr | 0xFF
            } else {
                regs.gpiob_odr
            })
            &&& f.gpioe_crh == (if e_on {
                0x33333333
            } else {
                regs.gpioe_crh
            })
            &&& f.gpioe_odr == (if e_on {
                regs.gpioe_odr | 0xFF00
            } else {
                regs.gpioe_odr
            })
        }),
{
    reveal_with_fuel(RegisterFile::after_all, 11);
    let a = regs.rcc_apb2enr;
    let c = regs.gpioc_crl;
    assert((a | 0x10u32) & 0x10u32 != 0u32) by (bit_vector);
    assert(((a | 0x10u32) & 8u32 != 0u32) == (a & 8u32 != 0u32)) by (bit_vector);
    assert(((a | 0x10u32) & 0x40u32 != 0u32) == (a & 0x40u32 != 0u32)) by (bit_vector);
    assert(((c & 0xFFFF0000u32) | 0x8888u32) & 0xFFFFu32 == 0x8888u32) by (bit_vector);
    assert(((c & 0xFFFF0000u32) | 0x8888u32) & 0xFFFF0000u32 == c & 0xFFFF0000u32)
        by (bit_vector);
    assert((0u32 | 0x33333333u32) == 0x33333333u32) by (bit_vector);
}

/// The four keys.
#[derive(Clone, Copy, Debug, PartialEq, Eq, Structural)]
pub enum Key {
    /// K1 on PC0: fast scrolling while held.
    K1,
    /// K2 on PC1: shows "2" while held.
    K2,
    /// K3 on PC2: slow scrolling while held.
    K3,
    /// K4 on PC3: shows "4" while held.
    K4,
}

/// The name of a key as it is reported.
pub fn key_name(key: Key) -> (name: &'static str)
    ensures
        name@ == match key {
            Key::K1 => "k1"@,
            Key::K2 => "k2"@,
            Key::K3 => "k3"@,
            Key::K4 => "k4"@,
        },
{
    match key {
        Key::K1 => "k1",
        Key::K2 => "k2",
        Key::K3 => "k3",
        Key::K4 => "k4",
    }
}

/// A change of a key's state.
#[derive(Clone, Copy, Debug, PartialEq, Eq, Structural)]
pub enum Edge {
    Pressed,
    Released,
}

/// A key that changed state, and how.
#[derive(Clone, Copy, Debug, PartialEq, Eq, Structural)]
pub struct KeyChange {
    pub key: Key,
    pub edge: Edge,
}

/// The change seen when a key believed `pressed` reads `is_low` (a held key
/// pulls its pin low): a press when an unpressed key reads low, a release when
/// a pressed key reads high, nothing otherwise.
pub open spec fn edge_of(pressed: bool, is_low: bool) -> Option<Edge> {
    if !pressed && is_low {
        Some(Edge::Pressed)
    } else if pressed && !is_low {
        Some(Edge::Released)
    } else {
        None
    }
}

/// Compares a key's state with its pin: reports the change (see [`edge_of`])
/// and records the key as pressed exactly when its pin reads low.
pub fn debounce(pressed: &mut bool, is_low: bool) -> (edge: Option<Edge>)
    ensures
        edge == edge_of(*old(pressed), is_low),
        *final(pressed) == is_low,
{
    if !*pressed && is_low {
        *pressed = true;
        Some(Edge::Pressed)
    } else if *pressed && !is_low {
        *pressed = false;
        Some(Edge::Released)
    } else {
        None
    }
}

/// The changes reported for a key believed `pressed` whose pin reads `levels`
/// (true for low), one reading after the other.
pub open spec fn edges(pressed: bool, levels: Seq<bool>) -> Seq<Edge>
    decreases levels.len(),
{
    if levels.len() == 0 {
        seq![]
    } else {
        let rest = edges(levels[0], levels.drop_first());
        match edge_of(pressed, levels[0]) {
            Some(e) => seq![e] + rest,
            None => rest,
        }
    }
}

/// Presses and releases of a key are reported in turn, never two presses or two
/// releases in a row, starting with a press for a key that is not held.
pub proof fn lemma_edges_alternate(pressed: bool, levels: Seq<bool>)
    ensures
        edges(pressed, levels).len() > 0 ==> edges(pressed, levels)[0] == (if pressed {
            Edge::Released
        } else {
            Edge::Pressed
        }),
        forall|i: int|
            0 <= i < edges(pressed, levels).len() - 1 ==> #[trigger] edges(pressed, levels)[i]
                != edges(pressed, levels)[i + 1],
    decreases levels.len(),
{
    if levels.len() > 0 {
        let rest = edges(levels[0], levels.drop_first());
        lemma_edges_alternate(levels[0], levels.drop_first());
        match edge_of(pressed, levels[0]) {
            Some(e) => {
                let all = seq![e] + rest;
                assert forall|i: int| 0 <= i < all.len() - 1 implies #[trigger] all[i] != all[i
                    + 1] by {
                    if i > 0 {
                        assert(all[i] == rest[i - 1]);
                        assert(all[i + 1] == rest[i]);
                    }
                }
            },
            None => {},
        }
    }
}

/// A key that reads the same twice reports nothing the second time.
pub proof fn lemma_debounce_settles(is_low: bool)
    ensures
        edge_of(is_low, is_low) is None,
{
}

/// The pin levels of the four keys, true for low (held).
#[derive(Clone, Copy, Debug, PartialEq, Eq, Structural)]
pub struct KeyLevels {
    pub k1_low: bool,
    pub k2_low: bool,
    pub k3_low: bool,
    pub k4_low: bool,
}

/// Fast pace: the window moves after 51 refreshes (while K1 is held).
pub const SPEED_FAST: u32 = 50;

/// Normal pace: the window moves after 201 refreshes.
pub const SPEED_NORMAL: u32 = 200;

/// Slow pace: the window moves after 401 refreshes (while K3 is held).
pub const SPEED_SLOW: u32 = 400;

/// `current`, changed to `on_press` by a press and to `on_release` by a release.
pub open spec fn follow<T>(edge: Option<Edge>, on_press: T, on_release: T, current: T) -> T {
    match edge {
        Some(Edge::Pressed) => on_press,
        Some(Edge::Released) => on_release,
        None => current,
    }
}

/// A change of `key` as a sequence of at most one report.
pub open spec fn report(key: Key, edge: Option<Edge>) -> Seq<KeyChange> {
    match edge {
        Some(e) => seq![KeyChange { key, edge: e }],
        None => seq![],
    }
}

fn follow_u8(edge: Option<Edge>, on_press: u8, on_release: u8, current: u8) -> (v: u8)
    ensures
        v == follow(edge, on_press, on_release, current),
{
    match edge {
        Some(Edge::Pressed) => on_press,
        Some(Edge::Released) => on_release,
        None => current,
    }
}

fn follow_u32(edge: Option<Edge>, on_press: u32, on_release: u32, current: u32) -> (v: u32)
    ensures
        v == follow(edge, on_press, on_release, current),
{
    match edge {
        Some(Edge::Pressed) => on_press,
        Some(Edge::Released) => on_release,
        None => current,
    }
}

fn record(changes: &mut Vec<KeyChange>, key: Key, edge: Option<Edge>)
    ensures
        final(changes)@ == old(changes)@ + report(key, edge),
{
    if let Some(e) = edge {
        changes.push(KeyChange { key, edge: e });
    } else {
        assert(old(changes)@ + report(key, edge) =~= old(changes)@);
    }
}

/// The state of experiment 3.
#[derive(Clone, Copy, Debug, PartialEq, Eq, Structural)]
pub struct Exp3 {
    pub k1_press: bool,
    pub k2_press: bool,
    pub k3_press: bool,
    pub k4_press: bool,
    /// What the lit digits show: 0 for "PQY", 2 for "222", 4 for "444".
    pub key_down_up: u8,
    /// The window moves after `speed + 1` refreshes.
    pub speed: u32,
    /// How many refreshes have been shown at the current position.
    pub speed_index: u32,
    pub scroller: Scroller,
}

impl Exp3 {
    pub open spec fn wf(self) -> bool {
        &&& (self.key_down_up == 0 || self.key_down_up == 2 || self.key_down_up == 4)
        &&& (self.speed == SPEED_FAST || self.speed == SPEED_NORMAL || self.speed == SPEED_SLOW)
        &&& self.speed_index <= self.speed
        &&& self.scroller.wf()
    }

    /// The glyphs of the three lit digits.
    pub open spec fn glyphs_spec(self) -> Seq<u8> {
        if self.key_down_up == 2 {
            seq![APL_2, APL_2, APL_2]
        } else if self.key_down_up == 4 {
            seq![APL_4, APL_4, APL_4]
        } else {
            seq![APL_P, APL_Q, APL_Y]
        }
    }

    /// The changes reported when the keys read `levels`, in the order K2, K4, K1, K3.
    pub open spec fn changes(self, levels: KeyLevels) -> Seq<KeyChange> {
        report(Key::K2, edge_of(self.k2_press, levels.k2_low)) + report(
            Key::K4,
            edge_of(self.k4_press, levels.k4_low),
        ) + report(Key::K1, edge_of(self.k1_press, levels.k1_low)) + report(
            Key::K3,
            edge_of(self.k3_press, levels.k3_low),
        )
    }

    /// The state after a refresh followed by a reading of the keys: K2 and then
    /// K4 choose what is shown, K1 and then K3 choose the pace, and the window
    /// moves once the refreshes at its position exceed the pace.
    pub open spec fn ticked(self, levels: KeyLevels) -> Exp3 {
        let shown = follow(
            edge_of(self.k4_press, levels.k4_low),
            4u8,
            0u8,
            follow(edge_of(self.k2_press, levels.k2_low), 2u8, 0u8, self.key_down_up),
        );
        let speed = follow(
            edge_of(self.k3_press, levels.k3_low),
            SPEED_SLOW,
            SPEED_NORMAL,
            follow(edge_of(self.k1_press, levels.k1_low), SPEED_FAST, SPEED_NORMAL, self.speed),
        );
        let shown_refreshes = self.speed_index + 1;
        Exp3 {
            k1_press: levels.k1_low,
            k2_press: levels.k2_low,
            k3_press: levels.k3_low,
            k4_press: levels.k4_low,
            key_down_up: shown,
            speed,
            speed_index: if shown_refreshes <= speed {
                shown_refreshes as u32
            } else {
                0
            },
            scroller: if shown_refreshes <= speed {
                self.scroller
            } else {
                self.scroller.stepped()
            },
        }
    }

    /// The start: no key held, "PQY" at the start of the display, normal pace.
    pub fn new() -> (s: Exp3)
        ensures
            s == (Exp3 {
                k1_press: false,
                k2_press: false,
                k3_press: false,
                k4_press: false,
                key_down_up: 0,
                speed: SPEED_NORMAL,
                speed_index: 0,
                scroller: Scroller { pos: 0, direction: Direction::Forward },
            }),
            s.wf(),
    {
        Exp3 {
            k1_press: false,
            k2_press: false,
            k3_press: false,
            k4_press: false,
            key_down_up: 0,
            speed: SPEED_NORMAL,
            speed_index: 0,
            scroller: Scroller::new(),
        }
    }

    /// The glyphs of the three lit digits.
    pub fn glyphs(&self) -> (g: [u8; 3])
        ensures
            g@ == self.glyphs_spec(),
    {
        let g = if self.key_down_up == 2 {
            [APL_2, APL_2, APL_2]
        } else if self.key_down_up == 4 {
            [APL_4, APL_4, APL_4]
        } else {
            [APL_P, APL_Q, APL_Y]
        };
        assert(g@ =~= self.glyphs_spec());
        g
    }

    /// The output of the next refresh.
    pub fn frame(&self) -> (frame: [Action; 9])
        requires
            self.wf(),
        ensures
            frame@ == staggered_frame(self.scroller.pos, self.glyphs_spec()),
    {
        staggered_scan(self.scroller.pos, self.glyphs())
    }

    /// Takes in the key levels read after a refresh; returns the changes to report.
    pub fn tick(&mut self, levels: KeyLevels) -> (changes: Vec<KeyChange>)
        requires
            old(self).wf(),
        ensures
            *final(self) == old(self).ticked(levels),
            changes@ == old(self).changes(levels),
            final(self).wf(),
            !old(self).k4_press && levels.k4_low ==> final(self).key_down_up == 4,
            old(self).k4_press && !levels.k4_low ==> final(self).key_down_up == 0,
            old(self).k4_press == levels.k4_low && !old(self).k2_press && levels.k2_low
                ==> final(self).key_down_up == 2,
            old(self).k4_press == levels.k4_low && old(self).k2_press && !levels.k2_low
                ==> final(self).key_down_up == 0,
            !old(self).k3_press && levels.k3_low ==> final(self).speed == SPEED_SLOW,
            old(self).k3_press && !levels.k3_low ==> final(self).speed == SPEED_NORMAL,
            old(self).k3_press == levels.k3_low && !old(self).k1_press && levels.k1_low
                ==> final(self).speed == SPEED_FAST,
            old(self).k3_press == levels.k3_low && old(self).k1_press && !levels.k1_low
                ==> final(self).speed == SPEED_NORMAL,
    {
        let e2 = debounce(&mut self.k2_press, levels.k2_low);
        let e4 = debounce(&mut self.k4_press, levels.k4_low);
        let e1 = debounce(&mut self.k1_press, levels.k1_low);
        let e3 = debounce(&mut self.k3_press, levels.k3_low);
        let mut changes: Vec<KeyChange> = Vec::new();
        record(&mut changes, Key::K2, e2);
        record(&mut changes, Key::K4, e4);
        record(&mut changes, Key::K1, e1);
        record(&mut changes, Key::K3, e3);
        self.key_down_up = follow_u8(e4, 4, 0, follow_u8(e2, 2, 0, self.key_down_up));
        self.speed = follow_u32(
            e3,
            SPEED_SLOW,
            SPEED_NORMAL,
            follow_u32(e1, SPEED_FAST, SPEED_NORMAL, self.speed),
        );
        let shown_refreshes = self.speed_index + 1;
        if shown_refreshes <= self.speed {
            self.speed_index = shown_refreshes;
        } else {
            self.speed_index = 0;
            self.scroller.advance();
        }
        assert(changes@ =~= old(self).changes(levels));
        changes
    }

    /// The key levels of keys that all stay as they are believed to be.
    pub open spec fn quiet_levels(self) -> KeyLevels {
        KeyLevels {
            k1_low: self.k1_press,
            k2_low: self.k2_press,
            k3_low: self.k3_press,
            k4_low: self.k4_press,
        }
    }

    /// The state after `n` refreshes during which no key changes.
    pub open spec fn quiet_ticks(self, n: nat) -> Exp3
        decreases n,
    {
        if n == 0 {
            self
        } else {
            let prev = self.quiet_ticks((n - 1) as nat);
            prev.ticked(prev.quiet_levels())
        }
    }
}

/// Whether `key` reads low in `levels`.
pub open spec fn is_low(levels: KeyLevels, key: Key) -> bool {
    match key {
        Key::K1 => levels.k1_low,
        Key::K2 => levels.k2_low,
        Key::K3 => levels.k3_low,
        Key::K4 => levels.k4_low,
    }
}

/// The readings of `key` in a sequence of readings of all keys.
pub open spec fn key_lows(levels: Seq<KeyLevels>, key: Key) -> Seq<bool> {
    levels.map_values(|l: KeyLevels| is_low(l, key))
}

/// The changes of `key` among `changes`, in order.
pub open spec fn key_edges(changes: Seq<KeyChange>, key: Key) -> Seq<Edge>
    decreases changes.len(),
{
    if changes.len() == 0 {
        seq![]
    } else {
        (if changes[0].key == key {
            seq![changes[0].edge]
        } else {
            seq![]
        }) + key_edges(changes.drop_first(), key)
    }
}

impl Exp3 {
    /// Whether `key` is believed held.
    pub open spec fn pressed(self, key: Key) -> bool {
        match key {
            Key::K1 => self.k1_press,
            Key::K2 => self.k2_press,
            Key::K3 => self.k3_press,
            Key::K4 => self.k4_press,
        }
    }

    /// The changes that successive calls of [`Exp3::tick`] report, one call per
    /// reading in `levels`, in order.
    pub open spec fn reports(self, levels: Seq<KeyLevels>) -> Seq<KeyChange>
        decreases levels.len(),
    {
        if levels.len() == 0 {
            seq![]
        } else {
            self.changes(levels[0]) + self.ticked(levels[0]).reports(levels.drop_first())
        }
    }
}

proof fn lemma_key_edges_concat(a: Seq<KeyChange>, b: Seq<KeyChange>, key: Key)
    ensures
        key_edges(a + b, key) == key_edges(a, key) + key_edges(b, key),
    decreases a.len(),
{
    if a.len() == 0 {
        assert(a + b =~= b);
        assert(key_edges(a, key) + key_edges(b, key) =~= key_edges(b, key));
    } else {
        assert((a + b).drop_first() =~= a.drop_first() + b);
        assert((a + b)[0] == a[0]);
        lemma_key_edges_concat(a.drop_first(), b, key);
        let head = if a[0].key == key {
            seq![a[0].edge]
        } else {
            seq![]
        };
        assert(head + (key_edges(a.drop_first(), key) + key_edges(b, key)) =~= (head + key_edges(
            a.drop_first(),
            key,
        )) + key_edges(b, key));
    }
}

proof fn lemma_key_edges_report(k: Key, edge: Option<Edge>, key: Key)
    ensures
        key_edges(report(k, edge), key) == (if k == key {
            match edge {
                Some(e) => seq![e],
                None => seq![],
            }
        } else {
            seq![]
        }),
{
    reveal_with_fuel(key_edges, 2);
    match edge {
        Some(e) => {
            let r = report(k, edge);
            assert(r.drop_first() =~= seq![]);
            assert(key_edges(r, key) =~= (if k == key {
                seq![e]
            } else {
                seq![]
            }));
        },
        None => {},
    }
}

proof fn lemma_key_edges_of_changes(s: Exp3, l: KeyLevels, key: Key)
    ensures
        key_edges(s.changes(l), key) == match edge_of(s.pressed(key), is_low(l, key)) {
            Some(e) => seq![e],
            None => seq![],
        },
{
    let r2 = report(Key::K2, edge_of(s.k2_press, l.k2_low));
    let r4 = report(Key::K4, edge_of(s.k4_press, l.k4_low));
    let r1 = report(Key::K1, edge_of(s.k1_press, l.k1_low));
    let r3 = report(Key::K3, edge_of(s.k3_press, l.k3_low));
    lemma_key_edges_concat(r2 + r4 + r1, r3, key);
    lemma_key_edges_concat(r2 + r4, r1, key);
    lemma_key_edges_concat(r2, r4, key);
    lemma_key_edges_report(Key::K2, edge_of(s.k2_press, l.k2_low), key);
    lemma_key_edges_report(Key::K4, edge_of(s.k4_press, l.k4_low), key);
    lemma_key_edges_report(Key::K1, edge_of(s.k1_press, l.k1_low), key);
    lemma_key_edges_report(Key::K3, edge_of(s.k3_press, l.k3_low), key);
    assert(key_edges(s.changes(l), key) =~= match edge_of(s.pressed(key), is_low(l, key)) {
        Some(e) => seq![e],
        None => seq![],
    });
}

/// Over successive calls of [`Exp3::tick`], the presses and releases that are
/// reported for any one key are exactly the changes of that key's pin
/// readings, and they come in turn: never two presses or two releases of a key
/// in a row, and a press first for a key that is not held.
pub proof fn lemma_tick_reports_alternate(s: Exp3, levels: Seq<KeyLevels>, key: Key)
    ensures
        key_edges(s.reports(levels), key) == edges(s.pressed(key), key_lows(levels, key)),
        key_edges(s.reports(levels), key).len() > 0 ==> key_edges(s.reports(levels), key)[0] == (
        if s.pressed(key) {
            Edge::Released
        } else {
            Edge::Pressed
        }),
        forall|i: int|
            0 <= i < key_edges(s.reports(levels), key).len() - 1 ==> #[trigger] key_edges(
                s.reports(levels),
                key,
            )[i] != key_edges(s.reports(levels), key)[i + 1],
{
    lemma_reports_follow_edges(s, levels, key);
    lemma_edges_alternate(s.pressed(key), key_lows(levels, key));
}

proof fn lemma_reports_follow_edges(s: Exp3, levels: Seq<KeyLevels>, key: Key)
    ensures
        key_edges(s.reports(levels), key) == edges(s.pressed(key), key_lows(levels, key)),
    decreases levels.len(),
{
    let lows = key_lows(levels, key);
    if levels.len() == 0 {
        assert(lows.len() == 0);
    } else {
        let l0 = levels[0];
        let t = s.ticked(l0);
        lemma_reports_follow_edges(t, levels.drop_first(), key);
        lemma_key_edges_concat(s.changes(l0), t.reports(levels.drop_first()), key);
        lemma_key_edges_of_changes(s, l0, key);
        assert(t.pressed(key) == is_low(l0, key));
        assert(lows[0] == is_low(l0, key));
        assert(lows.drop_first() =~= key_lows(levels.drop_first(), key));
        let rest = edges(lows[0], lows.drop_first());
        match edge_of(s.pressed(key), lows[0]) {
            Some(e) => {},
            None => {
                assert(seq![] + rest =~= rest);
            },
        }
    }
}

/// What the lit digits show follows the keys: a press of K4 shows "4" and a
/// release of K4 brings back "PQY"; when K4 does not change, a press of K2
/// shows "2", a release of K2 brings back "PQY", and otherwise what is shown
/// stays as it was.
pub proof fn lemma_keys_choose_what_is_shown(s: Exp3, levels: KeyLevels)
    ensures
        !s.k4_press && levels.k4_low ==> s.ticked(levels).key_down_up == 4 && s.ticked(
            levels,
        ).glyphs_spec() == seq![APL_4, APL_4, APL_4],
        s.k4_press && !levels.k4_low ==> s.ticked(levels).key_down_up == 0 && s.ticked(
            levels,
        ).glyphs_spec() == seq![APL_P, APL_Q, APL_Y],
        s.k4_press == levels.k4_low && !s.k2_press && levels.k2_low ==> s.ticked(
            levels,
        ).key_down_up == 2 && s.ticked(levels).glyphs_spec() == seq![APL_2, APL_2, APL_2],
        s.k4_press == levels.k4_low && s.k2_press && !levels.k2_low ==> s.ticked(
            levels,
        ).key_down_up == 0 && s.ticked(levels).glyphs_spec() == seq![APL_P, APL_Q, APL_Y],
        s.k4_press == levels.k4_low && s.k2_press == levels.k2_low ==> s.ticked(
            levels,
        ).key_down_up == s.key_down_up,
{
}

/// The glyphs shown for each choice: "PQY" for 0, "222" for 2, "444" for 4.
pub proof fn lemma_shown_glyphs(s: Exp3)
    ensures
        s.key_down_up == 0 ==> s.glyphs_spec() == seq![APL_P, APL_Q, APL_Y],
        s.key_down_up == 2 ==> s.glyphs_spec() == seq![APL_2, APL_2, APL_2],
        s.key_down_up == 4 ==> s.glyphs_spec() == seq![APL_4, APL_4, APL_4],
{
}

/// The pace follows the keys: a press of K3 slows it to 400, a release of K3
/// brings back the normal 200; when K3 does not change, a press of K1 speeds it
/// up to 50, a release of K1 brings back 200, and otherwise the pace stays as
/// it was.
pub proof fn lemma_keys_choose_pace(s: Exp3, levels: KeyLevels)
    ensures
        !s.k3_press && levels.k3_low ==> s.ticked(levels).speed == 400,
        s.k3_press && !levels.k3_low ==> s.ticked(levels).speed == 200,
        s.k3_press == levels.k3_low && !s.k1_press && levels.k1_low ==> s.ticked(levels).speed
            == 50,
        s.k3_press == levels.k3_low && s.k1_press && !levels.k1_low ==> s.ticked(levels).speed
            == 200,
        s.k3_press == levels.k3_low && s.k1_press == levels.k1_low ==> s.ticked(levels).speed
            == s.speed,
{
}

/// While no key changes, the window stays at each position for exactly
/// `speed + 1` refreshes and then moves one scroll step.
pub proof fn lemma_pace(s: Exp3)
    requires
        s.wf(),
        s.speed_index == 0,
    ensures
        forall|k: nat| k <= s.speed ==> #[trigger] s.quiet_ticks(k).scroller == s.scroller,
        s.quiet_ticks((s.speed + 1) as nat) == (Exp3 { scroller: s.scroller.stepped(), ..s }),
{
    assert forall|k: nat| k <= s.speed implies #[trigger] s.quiet_ticks(k) == (Exp3 {
        speed_index: k as u32,
        ..s
    }) by {
        lemma_quiet_counts(s, k);
    }
    lemma_quiet_counts(s, s.speed as nat);
}

proof fn lemma_quiet_counts(s: Exp3, k: nat)
    requires
        s.wf(),
        s.speed_index == 0,
        k <= s.speed,
    ensures
        s.quiet_ticks(k) == (Exp3 { speed_index: k as u32, ..s }),
    decreases k,
{
    if k > 0 {
        lemma_quiet_counts(s, (k - 1) as nat);
    }
}

} // verus!
