//! The eight-digit seven-segment display.
//!
//! The segments a to g of the selected digit are driven by pins PE8 to PE14,
//! one pin per bit of a glyph code; the digit is selected by pins PB0 to PB2,
//! one pin per bit of the digit's number. Three neighbouring digits are lit in
//! turn, fast enough to look steady, and the window of three digits scrolls
//! back and forth across the display.
use vstd::prelude::*;

verus! {

/// Whether bit `k` of `v` is set.
pub open spec fn bit_of(v: u8, k: u8) -> bool {
    (v >> k) & 1u8 == 1u8
}

/// The level a pin is driven to for a masked value: low for zero, high otherwise.
pub fn pin_level(masked: u32) -> (high: bool)
    ensures
        high == (masked != 0),
{
    masked != 0
}

/// The levels of the segment pins PE8 to PE14 that show `glyph`: pin `k` is high
/// exactly when bit `k` of the glyph is set.
pub fn segment_levels(glyph: u8) -> (levels: [bool; 7])
    ensures
        forall|k: int| 0 <= k < 7 ==> #[trigger] levels@[k] == bit_of(glyph, k as u8),
{
    proof {
        assert(((glyph & 1u8) != 0u8) == bit_of(glyph, 0)) by (bit_vector);
        assert(((glyph & 2u8) != 0u8) == bit_of(glyph, 1)) by (bit_vector);
        assert(((glyph & 4u8) != 0u8) == bit_of(glyph, 2)) by (bit_vector);
        assert(((glyph & 8u8) != 0u8) == bit_of(glyph, 3)) by (bit_vector);
        assert(((glyph & 16u8) != 0u8) == bit_of(glyph, 4)) by (bit_vector);
        assert(((glyph & 32u8) != 0u8) == bit_of(glyph, 5)) by (bit_vector);
        assert(((glyph & 64u8) != 0u8) == bit_of(glyph, 6)) by (bit_vector);
    }
    let levels = [
        glyph & 1 != 0,
        glyph & 2 != 0,
        glyph & 4 != 0,
        glyph & 8 != 0,
        glyph & 16 != 0,
        glyph & 32 != 0,
        glyph & 64 != 0,
    ];
    levels
}

/// The levels of the select pins PB0 to PB2 that select digit `digit`: pin `k`
/// is high exactly when bit `k` of the digit's number is set.
pub fn select_levels(digit: u8) -> (levels: [bool; 3])
    ensures
        forall|k: int| 0 <= k < 3 ==> #[trigger] levels@[k] == bit_of(digit, k as u8),
{
    proof {
        assert(((digit & 1u8) != 0u8) == bit_of(digit, 0)) by (bit_vector);
        assert(((digit & 2u8) != 0u8) == bit_of(digit, 1)) by (bit_vector);
        assert(((digit & 4u8) != 0u8) == bit_of(digit, 2)) by (bit_vector);
    }
    let levels = [digit & 1 != 0, digit & 2 != 0, digit & 4 != 0];
    levels
}

/// Select levels name every digit of the display apart: two digits of the
/// display that are selected by the same levels are the same digit.
pub proof fn lemma_select_levels_distinguish_digits(d1: u8, d2: u8)
    requires
        d1 < 8,
        d2 < 8,
        bit_of(d1, 0) == bit_of(d2, 0),
        bit_of(d1, 1) == bit_of(d2, 1),
        bit_of(d1, 2) == bit_of(d2, 2),
    ensures
        d1 == d2,
{
    assert(d1 == d2) by (bit_vector)
        requires
            d1 < 8u8,
            d2 < 8u8,
            ((d1 >> 0u8) & 1u8 == 1u8) == ((d2 >> 0u8) & 1u8 == 1u8),
            ((d1 >> 1u8) & 1u8 == 1u8) == ((d2 >> 1u8) & 1u8 == 1u8),
            ((d1 >> 2u8) & 1u8 == 1u8) == ((d2 >> 2u8) & 1u8 == 1u8),
    ;
}

/// The position of the leftmost of the three lit digits when the window has
/// reached the far end of the display.
pub const LAST_POS: u8 = 5;

/// The way the window of lit digits is moving.
#[derive(Clone, Copy, Debug, PartialEq, Eq, Structural)]
pub enum Direction {
    /// Towards higher digit numbers.
    Forward,
    /// Towards lower digit numbers.
    Backward,
}

/// The window of three lit digits: its leftmost digit and the way it moves.
#[derive(Clone, Copy, Debug, PartialEq, Eq, Structural)]
pub struct Scroller {
    pub pos: u8,
    pub direction: Direction,
}

impl Scroller {
    /// The window lies on the display: its three digits are digits 0 to 7.
    pub open spec fn wf(self) -> bool {
        self.pos <= LAST_POS
    }

    /// The window one scroll step later: it moves one digit on, and turns back
    /// at either end of the display.
    pub open spec fn stepped(self) -> Scroller {
        match self.direction {
            Direction::Forward => if self.pos == LAST_POS {
                Scroller { pos: (self.pos - 1) as u8, direction: Direction::Backward }
            } else {
                Scroller { pos: (self.pos + 1) as u8, direction: Direction::Forward }
            },
            Direction::Backward => if self.pos == 0 {
                Scroller { pos: 1, direction: Direction::Forward }
            } else {
                Scroller { pos: (self.pos - 1) as u8, direction: Direction::Backward }
            },
        }
    }

    /// The window `n` scroll steps later.
    pub open spec fn after(self, n: nat) -> Scroller
        decreases n,
    {
        if n == 0 {
            self
        } else {
            self.after((n - 1) as nat).stepped()
        }
    }

    /// The window at start: leftmost digit 0, moving forward.
    pub fn new() -> (s: Scroller)
        ensures
            s == (Scroller { pos: 0, direction: Direction::Forward }),
            s.wf(),
    {
        Scroller { pos: 0, direction: Direction::Forward }
    }

    /// Moves the window one scroll step on.
    pub fn advance(&mut self)
        requires
            old(self).wf(),
        ensures
            *final(self) == old(self).stepped(),
            final(self).wf(),
    {
        match self.direction {
            Direction::Forward => {
                if self.pos == LAST_POS {
                    self.direction = Direction::Backward;
                    self.pos = self.pos - 1;
                } else {
                    self.pos = self.pos + 1;
                }
            },
            Direction::Backward => {
                if self.pos == 0 {
                    self.direction = Direction::Forward;
                    self.pos = self.pos + 1;
                } else {
                    self.pos = self.pos - 1;
                }
            },
        }
    }
}

/// However long it scrolls, a window that starts on the display stays on it.
pub proof fn lemma_scroll_stays_on_display(s: Scroller, n: nat)
    requires
        s.wf(),
    ensures
        s.after(n).wf(),
        s.after(n).pos + 2 < 8,
    decreases n,
{
    if n > 0 {
        lemma_scroll_stays_on_display(s, (n - 1) as nat);
    }
}

/// Each scroll step moves the window by exactly one digit.
pub proof fn lemma_scroll_moves_one_digit(s: Scroller)
    requires
        s.wf(),
    ensures
        s.stepped().pos == s.pos + 1 || s.stepped().pos + 1 == s.pos,
{
}

/// The window comes back to where it was every ten scroll steps.
pub proof fn lemma_scroll_period(s: Scroller)
    requires
        s.wf(),
    ensures
        s.after(10).pos == s.pos,
{
    reveal_with_fuel(Scroller::after, 11);
    if s.direction == Direction::Forward {
        if s.pos == 0 {
        } else if s.pos == 1 {
        } else if s.pos == 2 {
        } else if s.pos == 3 {
        } else if s.pos == 4 {
        } else {
        }
    } else {
        if s.pos == 0 {
        } else if s.pos == 1 {
        } else if s.pos == 2 {
        } else if s.pos == 3 {
        } else if s.pos == 4 {
        } else {
        }
    }
}

/// One output step of the display driver.
#[derive(Clone, Copy, Debug, PartialEq, Eq, Structural)]
pub enum Action {
    /// Drive the select pins to select this digit (see [`select_levels`]).
    SelectDigit(u8),
    /// Drive the segment pins to show this glyph (see [`segment_levels`]).
    ShowGlyph(u8),
    /// Wait this many milliseconds.
    DelayMs(u32),
}

/// How long each of the three digits stays lit in one refresh, in milliseconds.
pub const DIGIT_HOLD_MS: u32 = 1;

/// One refresh of the window at `pos` that switches the glyph before the digit
/// for the second and third digit: select, show, wait; show, select, wait;
/// show, select, wait.
pub open spec fn staggered_frame(pos: u8, glyphs: Seq<u8>) -> Seq<Action> {
    seq![
        Action::SelectDigit(pos),
        Action::ShowGlyph(glyphs[0]),
        Action::DelayMs(DIGIT_HOLD_MS),
        Action::ShowGlyph(glyphs[1]),
        Action::SelectDigit((pos + 1) as u8),
        Action::DelayMs(DIGIT_HOLD_MS),
        Action::ShowGlyph(glyphs[2]),
        Action::SelectDigit((pos + 2) as u8),
        Action::DelayMs(DIGIT_HOLD_MS),
    ]
}

/// One refresh of the window at `pos` that selects each digit before showing
/// its glyph: select, show, wait, three times.
pub open spec fn select_first_frame(pos: u8, glyphs: Seq<u8>) -> Seq<Action> {
    seq![
        Action::SelectDigit(pos),
        Action::ShowGlyph(glyphs[0]),
        Action::DelayMs(DIGIT_HOLD_MS),
        Action::SelectDigit((pos + 1) as u8),
        Action::ShowGlyph(glyphs[1]),
        Action::DelayMs(DIGIT_HOLD_MS),
        Action::SelectDigit((pos + 2) as u8),
        Action::ShowGlyph(glyphs[2]),
        Action::DelayMs(DIGIT_HOLD_MS),
    ]
}

/// One refresh of the window at `pos`, switching the glyph before the digit
/// for the second and third digit (see [`staggered_frame`]).
pub fn staggered_scan(pos: u8, glyphs: [u8; 3]) -> (frame: [Action; 9])
    requires
        pos <= LAST_POS,
    ensures
        frame@ == staggered_frame(pos, glyphs@),
        frame@[0] == Action::SelectDigit(pos),
        frame@[1] == Action::ShowGlyph(glyphs@[0]),
        frame@[2] == Action::DelayMs(1),
        frame@[3] == Action::ShowGlyph(glyphs@[1]),
        frame@[4] == Action::SelectDigit((pos + 1) as u8),
        frame@[5] == Action::DelayMs(1),
        frame@[6] == Action::ShowGlyph(glyphs@[2]),
        frame@[7] == Action::SelectDigit((pos + 2) as u8),
        frame@[8] == Action::DelayMs(1),
        pos + 2 < 8,
{
    let frame = [
        Action::SelectDigit(pos),
        Action::ShowGlyph(glyphs[0]),
        Action::DelayMs(DIGIT_HOLD_MS),
        Action::ShowGlyph(glyphs[1]),
        Action::SelectDigit(pos + 1),
        Action::DelayMs(DIGIT_HOLD_MS),
        Action::ShowGlyph(glyphs[2]),
        Action::SelectDigit(pos + 2),
        Action::DelayMs(DIGIT_HOLD_MS),
    ];
    assert(frame@ =~= staggered_frame(pos, glyphs@));
    frame
}

/// One refresh of the window at `pos`, selecting each digit before showing its
/// glyph (see [`select_first_frame`]).
pub fn select_first_scan(pos: u8, glyphs: [u8; 3]) -> (frame: [Action; 9])
    requires
        pos <= LAST_POS,
    ensures
        frame@ == select_first_frame(pos, glyphs@),
        frame@[0] == Action::SelectDigit(pos),
        frame@[1] == Action::ShowGlyph(glyphs@[0]),
        frame@[2] == Action::DelayMs(1),
        frame@[3] == Action::SelectDigit((pos + 1) as u8),
        frame@[4] == Action::ShowGlyph(glyphs@[1]),
        frame@[5] == Action::DelayMs(1),
        frame@[6] == Action::SelectDigit((pos + 2) as u8),
        frame@[7] == Action::ShowGlyph(glyphs@[2]),
        frame@[8] == Action::DelayMs(1),
        pos + 2 < 8,
{
    let frame = [
        Action::SelectDigit(pos),
        Action::ShowGlyph(glyphs[0]),
        Action::DelayMs(DIGIT_HOLD_MS),
        Action::SelectDigit(pos + 1),
        Action::ShowGlyph(glyphs[1]),
        Action::DelayMs(DIGIT_HOLD_MS),
        Action::SelectDigit(pos + 2),
        Action::ShowGlyph(glyphs[2]),
        Action::DelayMs(DIGIT_HOLD_MS),
    ];
    assert(frame@ =~= select_first_frame(pos, glyphs@));
    frame
}

/// Text of three glyphs that scrolls across the display: the window is
/// refreshed `refreshes` times at each position before it moves one step.
#[derive(Clone, Copy, Debug)]
pub struct Marquee {
    pub scroller: Scroller,
    pub glyphs: [u8; 3],
    /// How many refreshes have been shown at the current position.
    pub refresh: u32,
    /// How many refreshes are shown at each position.
    pub refreshes: u32,
    /// Whether a refresh is a [`staggered_frame`] rather than a [`select_first_frame`].
    pub staggered: bool,
}

impl Marquee {
    pub open spec fn wf(self) -> bool {
        &&& self.scroller.wf()
        &&& 0 < self.refreshes
        &&& self.refresh < self.refreshes
    }

    /// The output of the next refresh.
    pub open spec fn frame_spec(self) -> Seq<Action> {
        if self.staggered {
            staggered_frame(self.scroller.pos, self.glyphs@)
        } else {
            select_first_frame(self.scroller.pos, self.glyphs@)
        }
    }

    /// The marquee after one more refresh: the window moves on once the last
    /// refresh at its position is done.
    pub open spec fn ticked(self) -> Marquee {
        if self.refresh + 1 == self.refreshes {
            Marquee { scroller: self.scroller.stepped(), refresh: 0, ..self }
        } else {
            Marquee { refresh: (self.refresh + 1) as u32, ..self }
        }
    }

    /// The marquee after `n` more refreshes.
    pub open spec fn ticks(self, n: nat) -> Marquee
        decreases n,
    {
        if n == 0 {
            self
        } else {
            self.ticks((n - 1) as nat).ticked()
        }
    }

    /// A marquee of `glyphs` at the start of the display, `refreshes` refreshes
    /// per position.
    pub fn new(glyphs: [u8; 3], refreshes: u32, staggered: bool) -> (m: Marquee)
        requires
            refreshes > 0,
        ensures
            m == (Marquee {
                scroller: Scroller { pos: 0, direction: Direction::Forward },
                glyphs,
                refresh: 0,
                refreshes,
                staggered,
            }),
            m.wf(),
    {
        Marquee { scroller: Scroller::new(), glyphs, refresh: 0, refreshes, staggered }
    }

    /// The output of the next refresh.
    pub fn frame(&self) -> (frame: [Action; 9])
        requires
            self.wf(),
        ensures
            frame@ == self.frame_spec(),
            frame@[0] == Action::SelectDigit(self.scroller.pos),
            frame@[1] == Action::ShowGlyph(self.glyphs@[0]),
            frame@[2] == Action::DelayMs(1),
            frame@[5] == Action::DelayMs(1),
            frame@[8] == Action::DelayMs(1),
            self.staggered ==> frame@[3] == Action::ShowGlyph(self.glyphs@[1]) && frame@[4]
                == Action::SelectDigit((self.scroller.pos + 1) as u8) && frame@[6]
                == Action::ShowGlyph(self.glyphs@[2]) && frame@[7] == Action::SelectDigit(
                (self.scroller.pos + 2) as u8,
            ),
            !self.staggered ==> frame@[3] == Action::SelectDigit((self.scroller.pos + 1) as u8)
                && frame@[4] == Action::ShowGlyph(self.glyphs@[1]) && frame@[6]
                == Action::SelectDigit((self.scroller.pos + 2) as u8) && frame@[7]
                == Action::ShowGlyph(self.glyphs@[2]),
    {
        if self.staggered {
            staggered_scan(self.scroller.pos, self.glyphs)
        } else {
            select_first_scan(self.scroller.pos, self.glyphs)
        }
    }

    /// Records that one refresh has been shown.
    pub fn tick(&mut self)
        requires
            old(self).wf(),
        ensures
            *final(self) == old(self).ticked(),
            final(self).wf(),
    {
        if self.refresh + 1 == self.refreshes {
            self.refresh = 0;
            self.scroller.advance();
        } else {
            self.refresh = self.refresh + 1;
        }
    }
}

/// Every refresh of a window at `pos` lights the digits pos, pos + 1 and
/// pos + 2, all on the display, in that order, and shows the three glyphs in
/// their own order on them, each followed by a wait of one millisecond: the
/// first glyph on digit pos, the second on pos + 1, the third on pos + 2.
pub proof fn lemma_frames_light_window_in_order(pos: u8, glyphs: Seq<u8>)
    requires
        pos <= LAST_POS,
    ensures
        pos + 2 < 8,
        staggered_frame(pos, glyphs).len() == 9,
        staggered_frame(pos, glyphs)[0] == Action::SelectDigit(pos),
        staggered_frame(pos, glyphs)[1] == Action::ShowGlyph(glyphs[0]),
        staggered_frame(pos, glyphs)[2] == Action::DelayMs(1),
        staggered_frame(pos, glyphs)[3] == Action::ShowGlyph(glyphs[1]),
        staggered_frame(pos, glyphs)[4] == Action::SelectDigit((pos + 1) as u8),
        staggered_frame(pos, glyphs)[5] == Action::DelayMs(1),
        staggered_frame(pos, glyphs)[6] == Action::ShowGlyph(glyphs[2]),
        staggered_frame(pos, glyphs)[7] == Action::SelectDigit((pos + 2) as u8),
        staggered_frame(pos, glyphs)[8] == Action::DelayMs(1),
        select_first_frame(pos, glyphs).len() == 9,
        select_first_frame(pos, glyphs)[0] == Action::SelectDigit(pos),
        select_first_frame(pos, glyphs)[1] == Action::ShowGlyph(glyphs[0]),
        select_first_frame(pos, glyphs)[2] == Action::DelayMs(1),
        select_first_frame(pos, glyphs)[3] == Action::SelectDigit((pos + 1) as u8),
        select_first_frame(pos, glyphs)[4] == Action::ShowGlyph(glyphs[1]),
        select_first_frame(pos, glyphs)[5] == Action::DelayMs(1),
        select_first_frame(pos, glyphs)[6] == Action::SelectDigit((pos + 2) as u8),
        select_first_frame(pos, glyphs)[7] == Action::ShowGlyph(glyphs[2]),
        select_first_frame(pos, glyphs)[8] == Action::DelayMs(1),
{
}

/// Whichever way its window is moving, a marquee shows its glyphs in their own
/// order: the first on the window's first digit, the second on the next, the
/// third on the last.
pub proof fn lemma_marquee_shows_glyphs_in_order(m: Marquee)
    requires
        m.wf(),
    ensures
        ({
            let f = m.frame_spec();
            let p = m.scroller.pos;
            let g = m.glyphs@;
            &&& f.len() == 9
            &&& f[0] == Action::SelectDigit(p)
            &&& f[1] == Action::ShowGlyph(g[0])
            &&& f[2] == Action::DelayMs(1)
            &&& f[5] == Action::DelayMs(1)
            &&& f[8] == Action::DelayMs(1)
            &&& m.staggered ==> {
                &&& f[3] == Action::ShowGlyph(g[1])
                &&& f[4] == Action::SelectDigit((p + 1) as u8)
                &&& f[6] == Action::ShowGlyph(g[2])
                &&& f[7] == Action::SelectDigit((p + 2) as u8)
            }
            &&& !m.staggered ==> {
                &&& f[3] == Action::SelectDigit((p + 1) as u8)
                &&& f[4] == Action::ShowGlyph(g[1])
                &&& f[6] == Action::SelectDigit((p + 2) as u8)
                &&& f[7] == Action::ShowGlyph(g[2])
            }
        }),
{
}

/// A marquee shows each position for exactly `refreshes` refreshes: from the
/// first refresh at a position, the window stays put for the next
/// `refreshes - 1` refreshes, and after `refreshes` refreshes it has moved one
/// scroll step and starts counting afresh.
pub proof fn lemma_marquee_holds_each_position(m: Marquee)
    requires
        m.wf(),
        m.refresh == 0,
    ensures
        forall|k: nat| k < m.refreshes ==> #[trigger] m.ticks(k).scroller == m.scroller,
        m.ticks(m.refreshes as nat) == (Marquee { scroller: m.scroller.stepped(), ..m }),
{
    assert forall|k: nat| k < m.refreshes implies #[trigger] m.ticks(k) == (Marquee {
        refresh: k as u32,
        ..m
    }) by {
        lemma_marquee_counts_refreshes(m, k);
    }
    lemma_marquee_counts_refreshes(m, (m.refreshes - 1) as nat);
}

proof fn lemma_marquee_counts_refreshes(m: Marquee, k: nat)
    requires
        m.wf(),
        m.refresh == 0,
        k < m.refreshes,
    ensures
        m.ticks(k) == (Marquee { refresh: k as u32, ..m }),
    decreases k,
{
    if k > 0 {
        lemma_marquee_counts_refreshes(m, (k - 1) as nat);
    }
}

} // verus!
