use stm32::display::{
    pin_level, segment_levels, select_first_scan, select_levels, staggered_scan, Action, Direction,
    Marquee, Scroller, DIGIT_HOLD_MS, LAST_POS,
};
use stm32::exp2::{APL_0, APL_2, APL_P, APL_Q, APL_Y};

#[test]
fn pin_level_is_high_for_nonzero() {
    assert!(!pin_level(0));
    assert!(pin_level(1));
    assert!(pin_level(0x40));
}

#[test]
fn segment_levels_follow_glyph_bits() {
    assert_eq!(segment_levels(APL_2), [true, true, false, true, true, false, true]);
    assert_eq!(segment_levels(APL_0), [false; 7]);
    assert_eq!(segment_levels(APL_P), [true, true, false, false, true, true, true]);
}

#[test]
fn select_levels_follow_digit_bits() {
    assert_eq!(select_levels(0), [false, false, false]);
    assert_eq!(select_levels(5), [true, false, true]);
    assert_eq!(select_levels(7), [true, true, true]);
}

#[test]
fn scroller_bounces_between_ends() {
    let mut s = Scroller::new();
    let mut seen = Vec::new();
    for _ in 0..12 {
        s.advance();
        seen.push(s.pos);
    }
    assert_eq!(seen, vec![1, 2, 3, 4, 5, 4, 3, 2, 1, 0, 1, 2]);
    assert_eq!(s.direction, Direction::Forward);
}

#[test]
fn scroller_turns_at_last_position() {
    let mut s = Scroller { pos: LAST_POS, direction: Direction::Forward };
    s.advance();
    assert_eq!(s, Scroller { pos: 4, direction: Direction::Backward });
    let mut t = Scroller { pos: 0, direction: Direction::Backward };
    t.advance();
    assert_eq!(t, Scroller { pos: 1, direction: Direction::Forward });
}

#[test]
fn scroll_period_is_ten_steps() {
    for pos in 0..=LAST_POS {
        for direction in [Direction::Forward, Direction::Backward] {
            let mut s = Scroller { pos, direction };
            for _ in 0..10 {
                s.advance();
            }
            assert_eq!(s.pos, pos);
        }
    }
}

#[test]
fn staggered_scan_order() {
    let f = staggered_scan(2, [APL_P, APL_Q, APL_Y]);
    assert_eq!(
        f,
        [
            Action::SelectDigit(2),
            Action::ShowGlyph(APL_P),
            Action::DelayMs(DIGIT_HOLD_MS),
            Action::ShowGlyph(APL_Q),
            Action::SelectDigit(3),
            Action::DelayMs(1),
            Action::ShowGlyph(APL_Y),
            Action::SelectDigit(4),
            Action::DelayMs(1),
        ]
    );
}

#[test]
fn select_first_scan_order() {
    let f = select_first_scan(5, [APL_P, APL_Q, APL_Y]);
    assert_eq!(
        f,
        [
            Action::SelectDigit(5),
            Action::ShowGlyph(APL_P),
            Action::DelayMs(1),
            Action::SelectDigit(6),
            Action::ShowGlyph(APL_Q),
            Action::DelayMs(1),
            Action::SelectDigit(7),
            Action::ShowGlyph(APL_Y),
            Action::DelayMs(1),
        ]
    );
}

#[test]
fn marquee_moves_after_its_refreshes() {
    let mut m = Marquee::new([APL_P, APL_Q, APL_Y], 3, true);
    m.tick();
    m.tick();
    assert_eq!(m.scroller.pos, 0);
    assert_eq!(m.refresh, 2);
    m.tick();
    assert_eq!(m.scroller.pos, 1);
    assert_eq!(m.refresh, 0);
    assert_eq!(m.frame()[0], Action::SelectDigit(1));
}
