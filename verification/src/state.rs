//! Scroll state and the input-event state machine.
//!
//! The pager keeps a scroll offset (lines skipped from the top of the
//! file) and the current terminal size. Each incoming event is mapped to
//! a state change plus an action for the event loop: quit, redraw, or
//! nothing.

use vstd::prelude::*;

verus! {

/// Terminal dimensions in columns and rows; replaced wholesale on a
/// resize event, never partially updated.
pub struct TermSize {
    pub width: u16,
    pub height: u16,
}

/// The pager's mutable state: how many lines are skipped from the top,
/// and the terminal size the next redraw must fill.
pub struct PagerState {
    pub offset: usize,
    pub size: TermSize,
}

/// A key the pager can react to.
pub enum PagerKey {
    Char(char),
    Down,
    Up,
    Other,
}

/// An input event, already reduced to the facts the pager cares about:
/// which key, whether control was held, whether it was a press (as
/// opposed to a release or repeat report), or a resize.
pub enum PagerEvent {
    Key { code: PagerKey, ctrl: bool, press: bool },
    Resize { width: u16, height: u16 },
    Other,
}

/// What the event loop must do after applying an event.
pub enum Action {
    Quit,
    Redraw,
    Idle,
}

/// Control-c, or a plain `q`/`Q` with no control modifier, ends the
/// session whatever the key-event kind.
pub open spec fn is_quit_event(e: PagerEvent) -> bool {
    match e {
        PagerEvent::Key { code, ctrl, press } => match code {
            PagerKey::Char(c) => (c == 'c' && ctrl) || ((c == 'q' || c == 'Q') && !ctrl),
            _ => false,
        },
        _ => false,
    }
}

/// A press of the down arrow scrolls one line towards the end.
pub open spec fn is_scroll_down(e: PagerEvent) -> bool {
    match e {
        PagerEvent::Key { code, ctrl, press } => press && (code matches PagerKey::Down),
        _ => false,
    }
}

/// A press of the up arrow scrolls one line towards the top.
pub open spec fn is_scroll_up(e: PagerEvent) -> bool {
    match e {
        PagerEvent::Key { code, ctrl, press } => press && (code matches PagerKey::Up),
        _ => false,
    }
}

/// The transition function of the pager: next state and required action
/// for a state and an event.
///
/// Scrolling down saturates at the largest representable offset;
/// scrolling up saturates at zero. A resize to the current size, a key
/// release, and any unrecognised event change nothing and ask for
/// nothing.
pub open spec fn step_spec(s: PagerState, e: PagerEvent) -> (PagerState, Action) {
    if is_quit_event(e) {
        (s, Action::Quit)
    } else if is_scroll_down(e) {
        let next = if s.offset == usize::MAX {
            usize::MAX
        } else {
            (s.offset + 1) as usize
        };
        (PagerState { offset: next, size: s.size }, Action::Redraw)
    } else if is_scroll_up(e) {
        let next = if s.offset == 0 {
            0usize
        } else {
            (s.offset - 1) as usize
        };
        (PagerState { offset: next, size: s.size }, Action::Redraw)
    } else {
        match e {
            PagerEvent::Resize { width, height } => {
                if width != s.size.width || height != s.size.height {
                    (PagerState { offset: s.offset, size: TermSize { width, height } }, Action::Redraw)
                } else {
                    (s, Action::Idle)
                }
            },
            _ => (s, Action::Idle),
        }
    }
}

/// Applies one event to the state and says what the event loop must do
/// next. Behaves exactly as `step_spec` describes.
pub fn step(s: &mut PagerState, e: &PagerEvent) -> (a: Action)
    ensures
        *final(s) == step_spec(*old(s), *e).0,
        a == step_spec(*old(s), *e).1,
{
    match e {
        PagerEvent::Key { code, ctrl, press } => {
            match code {
                PagerKey::Char(c) => {
                    if (*c == 'c' && *ctrl) || ((*c == 'q' || *c == 'Q') && !*ctrl) {
                        Action::Quit
                    } else {
                        Action::Idle
                    }
                },
                PagerKey::Down => {
                    if *press {
                        if s.offset < usize::MAX {
                            s.offset = s.offset + 1;
                        }
                        Action::Redraw
                    } else {
                        Action::Idle
                    }
                },
                PagerKey::Up => {
                    if *press {
                        if s.offset > 0 {
                            s.offset = s.offset - 1;
                        }
                        Action::Redraw
                    } else {
                        Action::Idle
                    }
                },
                PagerKey::Other => Action::Idle,
            }
        },
        PagerEvent::Resize { width, height } => {
            if *width != s.size.width || *height != s.size.height {
                s.size = TermSize { width: *width, height: *height };
                Action::Redraw
            } else {
                Action::Idle
            }
        },
        PagerEvent::Other => Action::Idle,
    }
}

/// The state after a whole sequence of events, first event first.
pub open spec fn run_spec(s: PagerState, es: Seq<PagerEvent>) -> PagerState
    decreases es.len(),
{
    if es.len() == 0 {
        s
    } else {
        run_spec(step_spec(s, es[0]).0, es.drop_first())
    }
}

/// Scroll floor: starting at the top, any number of repeated scroll-up
/// events leaves the offset at zero.
pub proof fn lemma_scroll_floor(s: PagerState, es: Seq<PagerEvent>)
    requires
        s.offset == 0,
        forall|i: int| 0 <= i < es.len() ==> is_scroll_up(#[trigger] es[i]),
    ensures
        run_spec(s, es).offset == 0,
    decreases es.len(),
{
    if es.len() > 0 {
        let s1 = step_spec(s, es[0]).0;
        assert(s1.offset == 0);
        assert(forall|i: int|
            0 <= i < es.drop_first().len() ==> is_scroll_up(#[trigger] es.drop_first()[i]));
        lemma_scroll_floor(s1, es.drop_first());
    }
}

} // verus!
