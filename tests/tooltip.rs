use floem_update::id::ViewId;
use floem_update::tooltip::{tooltip, TimerToken, Tooltip};

fn laid_out() -> Tooltip<(i32, i32)> {
    let mut t = tooltip(ViewId { raw: 1 });
    t.laid_out((100, 50));
    t
}

#[test]
fn timer_after_leave_is_stale() {
    let mut t = laid_out();
    assert!(t.needs_timer());
    let token = TimerToken { raw: 7 };
    t.hovered((3, 4), token);
    assert_eq!(t.pointer_left(), None);
    assert_eq!(t.timer_fired(token), None);
    assert_eq!(t.overlay, None);
}

#[test]
fn pending_timer_shows_tip() {
    let mut t = laid_out();
    let token = TimerToken { raw: 7 };
    t.hovered((3, 4), token);
    assert_eq!(t.timer_fired(TimerToken { raw: 6 }), None);
    assert_eq!(t.timer_fired(token), Some(((100, 50), (3, 4))));
    t.shown(ViewId { raw: 9 });
    assert!(!t.needs_timer());
    t.hovered((5, 5), TimerToken { raw: 8 });
    assert_eq!(t.hover, Some(((3, 4), token)));
    assert_eq!(t.pointer_left(), Some(ViewId { raw: 9 }));
    assert_eq!(t.overlay, None);
    assert_eq!(t.hover, None);
}

#[test]
fn newer_hover_replaces_token() {
    let mut t = laid_out();
    t.hovered((1, 1), TimerToken { raw: 1 });
    t.hovered((2, 2), TimerToken { raw: 2 });
    assert_eq!(t.timer_fired(TimerToken { raw: 1 }), None);
    assert_eq!(t.timer_fired(TimerToken { raw: 2 }), Some(((100, 50), (2, 2))));
}

#[test]
fn not_laid_out_shows_nothing() {
    let mut t: Tooltip<(i32, i32)> = tooltip(ViewId { raw: 1 });
    t.hovered((1, 1), TimerToken { raw: 1 });
    assert_eq!(t.timer_fired(TimerToken { raw: 1 }), None);
}

#[test]
fn teardown_removes_shown_overlay() {
    let mut t = laid_out();
    t.hovered((1, 1), TimerToken { raw: 1 });
    t.shown(ViewId { raw: 5 });
    assert_eq!(t.teardown(), Some(ViewId { raw: 5 }));
    assert_eq!(t.overlay, None);
    assert_eq!(t.teardown(), None);
}

#[test]
fn teardown_while_hovering() {
    let mut t = laid_out();
    t.hovered((1, 1), TimerToken { raw: 1 });
    assert_eq!(t.teardown(), None);
    assert_eq!(t.timer_fired(TimerToken { raw: 1 }), None);
}
