use center_pager::redraw::plan_redraw;
use center_pager::state::{step, Action, PagerEvent, PagerKey, PagerState, TermSize};

fn state(offset: usize, width: u16, height: u16) -> PagerState {
    PagerState { offset, size: TermSize { width, height } }
}

fn press(code: PagerKey) -> PagerEvent {
    PagerEvent::Key { code, ctrl: false, press: true }
}

#[test]
fn plain_q_quits() {
    let mut s = state(3, 10, 5);
    let a = step(&mut s, &press(PagerKey::Char('q')));
    assert!(matches!(a, Action::Quit));
    assert_eq!(s.offset, 3);
}

#[test]
fn capital_q_quits() {
    let mut s = state(0, 10, 5);
    let a = step(&mut s, &press(PagerKey::Char('Q')));
    assert!(matches!(a, Action::Quit));
}

#[test]
fn control_c_quits() {
    let mut s = state(0, 10, 5);
    let e = PagerEvent::Key { code: PagerKey::Char('c'), ctrl: true, press: true };
    assert!(matches!(step(&mut s, &e), Action::Quit));
}

#[test]
fn plain_c_is_ignored() {
    let mut s = state(2, 10, 5);
    let a = step(&mut s, &press(PagerKey::Char('c')));
    assert!(matches!(a, Action::Idle));
    assert_eq!(s.offset, 2);
}

#[test]
fn down_scrolls_and_redraws() {
    let mut s = state(0, 10, 5);
    let a = step(&mut s, &press(PagerKey::Down));
    assert!(matches!(a, Action::Redraw));
    assert_eq!(s.offset, 1);
}

#[test]
fn up_scrolls_back() {
    let mut s = state(2, 10, 5);
    let a = step(&mut s, &press(PagerKey::Up));
    assert!(matches!(a, Action::Redraw));
    assert_eq!(s.offset, 1);
}

#[test]
fn scroll_floor_at_zero() {
    // Repeated scroll-up from the top never takes the offset below 0.
    let mut s = state(0, 10, 5);
    for _ in 0..8 {
        let a = step(&mut s, &press(PagerKey::Up));
        assert!(matches!(a, Action::Redraw));
        assert_eq!(s.offset, 0);
    }
}

#[test]
fn key_release_is_ignored() {
    let mut s = state(1, 10, 5);
    let e = PagerEvent::Key { code: PagerKey::Down, ctrl: false, press: false };
    assert!(matches!(step(&mut s, &e), Action::Idle));
    assert_eq!(s.offset, 1);
}

#[test]
fn unknown_key_is_ignored() {
    let mut s = state(1, 10, 5);
    assert!(matches!(step(&mut s, &press(PagerKey::Other)), Action::Idle));
    assert_eq!(s.offset, 1);
}

#[test]
fn resize_replaces_size_and_redraws() {
    let mut s = state(1, 10, 5);
    let e = PagerEvent::Resize { width: 4, height: 5 };
    assert!(matches!(step(&mut s, &e), Action::Redraw));
    assert_eq!(s.size.width, 4);
    assert_eq!(s.size.height, 5);
    assert_eq!(s.offset, 1);
}

#[test]
fn resize_to_same_size_is_ignored() {
    let mut s = state(1, 10, 5);
    let e = PagerEvent::Resize { width: 10, height: 5 };
    assert!(matches!(step(&mut s, &e), Action::Idle));
}

#[test]
fn two_line_file_in_ten_by_five() {
    // A file of exactly two lines on a 10x5 terminal: "hi" is padded
    // to the middle, the long line is clipped symmetrically, and the
    // remaining rows are blank.
    let lines = vec!["hi\n".to_string(), "a longer line of text".to_string()];
    let plan = plan_redraw(&lines, 0, 10, 5);
    assert_eq!(plan.len(), 5);
    for (i, p) in plan.iter().enumerate() {
        assert_eq!(p.row, i);
    }
    assert_eq!(plan[0].left_pad, 4);
    assert_eq!(plan[0].text, "hi");
    // 21 graphemes in 10 columns: skip (21 - 10) / 2 = 5 from the start.
    assert_eq!(plan[1].left_pad, 0);
    assert_eq!(plan[1].text, "ger line o");
    for p in &plan[2..] {
        assert_eq!(p.text, "");
    }
}

#[test]
fn scroll_down_moves_window() {
    let lines = vec!["hi\n".to_string(), "a longer line of text".to_string()];
    let plan = plan_redraw(&lines, 1, 10, 5);
    assert_eq!(plan.len(), 5);
    assert_eq!(plan[0].text, "ger line o");
    for p in &plan[1..] {
        assert_eq!(p.text, "");
    }
}

#[test]
fn scroll_past_end_is_all_blank() {
    let lines = vec!["hi\n".to_string(), "a longer line of text".to_string()];
    let plan = plan_redraw(&lines, 2, 10, 5);
    assert_eq!(plan.len(), 5);
    for p in &plan {
        assert_eq!(p.text, "");
    }
}

#[test]
fn shrinking_width_recenters_every_row() {
    // Same offset, width shrunk from 10 to 4: every visible row is
    // re-centered or re-clipped to the new width.
    let lines = vec!["hi\n".to_string(), "a longer line of text".to_string()];
    let plan = plan_redraw(&lines, 0, 4, 5);
    assert_eq!(plan.len(), 5);
    assert_eq!(plan[0].left_pad, 1);
    assert_eq!(plan[0].text, "hi");
    // 21 graphemes in 4 columns: skip (21 - 4) / 2 = 8.
    assert_eq!(plan[1].left_pad, 0);
    assert_eq!(plan[1].text, " lin");
    for p in &plan[2..] {
        assert_eq!(p.text, "");
    }
}

#[test]
fn empty_file_still_paints_every_row() {
    let lines: Vec<String> = Vec::new();
    let plan = plan_redraw(&lines, 0, 10, 7);
    assert_eq!(plan.len(), 7);
    for (i, p) in plan.iter().enumerate() {
        assert_eq!(p.row, i);
        assert_eq!(p.text, "");
    }
}

#[test]
fn plan_is_deterministic() {
    let lines = vec!["alpha\n".to_string(), "beta\n".to_string()];
    let a = plan_redraw(&lines, 0, 6, 3);
    let b = plan_redraw(&lines, 0, 6, 3);
    assert_eq!(a.len(), b.len());
    for (x, y) in a.iter().zip(b.iter()) {
        assert_eq!(x.row, y.row);
        assert_eq!(x.left_pad, y.left_pad);
        assert_eq!(x.text, y.text);
    }
}
