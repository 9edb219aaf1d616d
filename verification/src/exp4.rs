//! Experiment 4: the scrolling text "PQY", interrupted by the four keys.
//!
//! Each key on PC0 to PC3 raises its own external interrupt line. The handler
//! of a line scrolls a digit of its own across the display for a while, the
//! higher the line the longer and the slower, then clears the line's pending
//! flag and lets the display settle. A lower line has the more urgent priority.
use vstd::prelude::*;
use crate::display::{select_first_frame, select_first_scan, Action, Direction, Marquee, Scroller};
use crate::exp2::{APL_1, APL_2, APL_3, APL_4, APL_P, APL_Q, APL_Y};

verus! {

/// How many refreshes the main text stays at each position.
pub const REFRESHES_PER_STEP: u32 = 200;

/// The scrolling text of the main loop: "PQY", 200 refreshes per position,
/// selecting each digit before showing its glyph.
pub fn marquee() -> (m: Marquee)
    ensures
        m.wf(),
        m.scroller == (Scroller { pos: 0, direction: Direction::Forward }),
        m.glyphs@ == seq![APL_P, APL_Q, APL_Y],
        m.refresh == 0,
        m.refreshes == REFRESHES_PER_STEP,
        !m.staggered,
{
    let m = Marquee::new([APL_P, APL_Q, APL_Y], REFRESHES_PER_STEP, false);
    assert(m.glyphs@ =~= seq![APL_P, APL_Q, APL_Y]);
    m
}

/// The external interrupt lines of the four keys.
#[derive(Clone, Copy, Debug, PartialEq, Eq, Structural)]
pub enum ExtiLine {
    /// K1 on PC0.
    Exti0,
    /// K2 on PC1.
    Exti1,
    /// K3 on PC2.
    Exti2,
    /// K4 on PC3.
    Exti3,
}

/// The number of a line.
pub open spec fn line_number(line: ExtiLine) -> int {
    match line {
        ExtiLine::Exti0 => 0,
        ExtiLine::Exti1 => 1,
        ExtiLine::Exti2 => 2,
        ExtiLine::Exti3 => 3,
    }
}

/// The interrupt priority given to a line (a smaller value is more urgent).
pub open spec fn priority_spec(line: ExtiLine) -> u8 {
    match line {
        ExtiLine::Exti0 => 0,
        ExtiLine::Exti1 => 32,
        ExtiLine::Exti2 => 64,
        ExtiLine::Exti3 => 128,
    }
}

/// The interrupt priority given to a line (see [`priority_spec`]).
pub fn priority(line: ExtiLine) -> (p: u8)
    ensures
        p == priority_spec(line),
{
    match line {
        ExtiLine::Exti0 => 0,
        ExtiLine::Exti1 => 32,
        ExtiLine::Exti2 => 64,
        ExtiLine::Exti3 => 128,
    }
}

/// A lower line is always the more urgent one, so its handler may interrupt the
/// handler of a higher line and never the other way round.
pub proof fn lemma_lower_line_more_urgent(a: ExtiLine, b: ExtiLine)
    requires
        line_number(a) < line_number(b),
    ensures
        priority_spec(a) < priority_spec(b),
{
}

/// The value written to the EXTI pending register to clear the pending flag of a line.
pub fn pending_clear_value(line: ExtiLine) -> (v: u32)
    ensures
        v == match line {
            ExtiLine::Exti0 => 1u32,
            ExtiLine::Exti1 => 2u32,
            ExtiLine::Exti2 => 4u32,
            ExtiLine::Exti3 => 8u32,
        },
{
    match line {
        ExtiLine::Exti0 => 1,
        ExtiLine::Exti1 => 2,
        ExtiLine::Exti2 => 4,
        ExtiLine::Exti3 => 8,
    }
}

/// What the handler of a line does.
#[derive(Clone, Copy, Debug, PartialEq, Eq, Structural)]
pub struct HandlerPlan {
    /// The digit that scrolls across the display.
    pub glyph: u8,
    /// How many refreshes the digit stays at each position.
    pub speed: u32,
    /// How many scroll steps the handler shows.
    pub rounds: u32,
    /// Whether the pending flag is cleared before the end of the handler is
    /// reported, rather than after.
    pub clear_before_end_log: bool,
    /// How long the handler waits at its end, in milliseconds.
    pub settle_ms: u32,
}

/// The handler of a line: line n scrolls the digit n + 1 for 5 (n + 1) steps of
/// 50 (n + 1) refreshes each; line 0 clears its flag before reporting its end
/// and waits 10 ms, the others report first and wait 100 ms.
pub open spec fn handler_spec(line: ExtiLine) -> HandlerPlan {
    let n = line_number(line);
    HandlerPlan {
        glyph: match line {
            ExtiLine::Exti0 => APL_1,
            ExtiLine::Exti1 => APL_2,
            ExtiLine::Exti2 => APL_3,
            ExtiLine::Exti3 => APL_4,
        },
        speed: (50 * (n + 1)) as u32,
        rounds: (5 * (n + 1)) as u32,
        clear_before_end_log: n == 0,
        settle_ms: if n == 0 {
            10
        } else {
            100
        },
    }
}

/// The handler of a line (see [`handler_spec`]).
pub fn handler(line: ExtiLine) -> (plan: HandlerPlan)
    ensures
        plan == handler_spec(line),
{
    match line {
        ExtiLine::Exti0 => HandlerPlan {
            glyph: APL_1,
            speed: 50,
            rounds: 5,
            clear_before_end_log: true,
            settle_ms: 10,
        },
        ExtiLine::Exti1 => HandlerPlan {
            glyph: APL_2,
            speed: 100,
            rounds: 10,
            clear_before_end_log: false,
            settle_ms: 100,
        },
        ExtiLine::Exti2 => HandlerPlan {
            glyph: APL_3,
            speed: 150,
            rounds: 15,
            clear_before_end_log: false,
            settle_ms: 100,
        },
        ExtiLine::Exti3 => HandlerPlan {
            glyph: APL_4,
            speed: 200,
            rounds: 20,
            clear_before_end_log: false,
            settle_ms: 100,
        },
    }
}

/// The window at the start of a handler's scrolling.
pub open spec fn start_window() -> Scroller {
    Scroller { pos: 0, direction: Direction::Forward }
}

/// A handler's scrolling digit: `speed` refreshes at each of `rounds` positions,
/// starting from the start of the display.
#[derive(Clone, Copy, Debug, PartialEq, Eq, Structural)]
pub struct MoveAndShow {
    pub glyph: u8,
    pub speed: u32,
    pub rounds: u32,
    /// How many scroll steps have been completed.
    pub round: u32,
    /// How many refreshes have been shown at the current position.
    pub refresh: u32,
    pub scroller: Scroller,
}

impl MoveAndShow {
    pub open spec fn wf(self) -> bool {
        &&& self.speed > 0
        &&& self.round <= self.rounds
        &&& self.refresh < self.speed
        &&& (self.round == self.rounds ==> self.refresh == 0)
        &&& self.scroller == start_window().after(self.round as nat)
    }

    /// Whether all refreshes have been shown.
    pub open spec fn done(self) -> bool {
        self.round == self.rounds
    }

    /// How many refreshes have been shown.
    pub open spec fn progress(self) -> int {
        self.round * self.speed + self.refresh
    }

    /// The scrolling after one more refresh.
    pub open spec fn ticked(self) -> MoveAndShow {
        if self.refresh + 1 == self.speed {
            MoveAndShow {
                round: (self.round + 1) as u32,
                refresh: 0,
                scroller: self.scroller.stepped(),
                ..self
            }
        } else {
            MoveAndShow { refresh: (self.refresh + 1) as u32, ..self }
        }
    }

    /// The scrolling of the handler `plan`, before its first refresh.
    pub fn new(plan: HandlerPlan) -> (m: MoveAndShow)
        requires
            plan.speed > 0,
        ensures
            m == (MoveAndShow {
                glyph: plan.glyph,
                speed: plan.speed,
                rounds: plan.rounds,
                round: 0,
                refresh: 0,
                scroller: start_window(),
            }),
            m.wf(),
            m.progress() == 0,
    {
        MoveAndShow {
            glyph: plan.glyph,
            speed: plan.speed,
            rounds: plan.rounds,
            round: 0,
            refresh: 0,
            scroller: Scroller::new(),
        }
    }

    /// Whether all refreshes have been shown.
    pub fn is_done(&self) -> (d: bool)
        ensures
            d == self.done(),
    {
        self.round == self.rounds
    }

    /// The output of the next refresh: the glyph on each of the three lit digits.
    pub fn frame(&self) -> (frame: [Action; 9])
        requires
            self.wf(),
        ensures
            frame@ == select_first_frame(self.scroller.pos, seq![self.glyph, self.glyph, self.glyph]),
    {
        proof {
            crate::display::lemma_scroll_stays_on_display(start_window(), self.round as nat);
        }
        let g = [self.glyph, self.glyph, self.glyph];
        assert(g@ =~= seq![self.glyph, self.glyph, self.glyph]);
        select_first_scan(self.scroller.pos, g)
    }

    /// Records that one refresh has been shown.
    pub fn tick(&mut self)
        requires
            old(self).wf(),
            !old(self).done(),
        ensures
            *final(self) == old(self).ticked(),
            final(self).wf(),
            final(self).progress() == old(self).progress() + 1,
    {
        proof {
            crate::display::lemma_scroll_stays_on_display(start_window(), self.round as nat);
        }
        if self.refresh + 1 == self.speed {
            self.round = self.round + 1;
            self.refresh = 0;
            self.scroller.advance();
            assert(self.round * self.speed == (self.round - 1) * self.speed + self.speed)
                by (nonlinear_arith);
        } else {
            self.refresh = self.refresh + 1;
        }
    }
}

/// A handler's scrolling is done exactly when it has shown `speed * rounds`
/// refreshes, and it never shows more.
pub proof fn lemma_handler_length(m: MoveAndShow)
    requires
        m.wf(),
    ensures
        0 <= m.progress() <= m.speed * m.rounds,
        m.done() <==> m.progress() == m.speed * m.rounds,
{
    if m.round < m.rounds {
        assert(m.round * m.speed + m.refresh < (m.round + 1) * m.speed) by (nonlinear_arith)
            requires
                m.refresh < m.speed,
        ;
        assert((m.round + 1) * m.speed <= m.rounds * m.speed) by (nonlinear_arith)
            requires
                m.round + 1 <= m.rounds,
                m.speed > 0,
        ;
        assert(0 <= m.round * m.speed) by (nonlinear_arith);
    } else {
        assert(m.rounds * m.speed == m.speed * m.rounds) by (nonlinear_arith);
    }
    assert(m.speed * m.rounds == m.rounds * m.speed) by (nonlinear_arith);
}

/// Where each handler leaves its digit: a finished handler's window has moved
/// exactly `rounds` scroll steps from the start of the display, which leaves
/// the digit of lines 0 and 2 at the far end of the display, moving forward,
/// and that of lines 1 and 3 back at the start, moving backward.
pub proof fn lemma_handler_final_window(line: ExtiLine, m: MoveAndShow)
    requires
        m.wf(),
        m.done(),
        m.rounds == handler_spec(line).rounds,
    ensures
        m.scroller == match line {
            ExtiLine::Exti0 | ExtiLine::Exti2 => Scroller { pos: 5, direction: Direction::Forward },
            ExtiLine::Exti1 | ExtiLine::Exti3 => Scroller {
                pos: 0,
                direction: Direction::Backward,
            },
        },
{
    reveal_with_fuel(Scroller::after, 21);
    let s = start_window();
    assert(s.after(5) == Scroller { pos: 5, direction: Direction::Forward });
    assert(s.after(10) == Scroller { pos: 0, direction: Direction::Backward });
    assert(s.after(15) == Scroller { pos: 5, direction: Direction::Forward });
    assert(s.after(20) == Scroller { pos: 0, direction: Direction::Backward });
}

} // verus!
