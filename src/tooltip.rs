use vstd::prelude::*;

use crate::id::ViewId;

verus! {

/// The token of a one-shot timer. A fired timer whose token no longer
/// matches the pending one is stale.
#[derive(Clone, Copy, PartialEq, Eq, Structural, Hash, Debug)]
pub struct TimerToken {
    pub raw: u64,
}

/// The hover state of a tooltip over positions of type `P`.
///
/// `hover` holds where the pointer rests and the token of the timer that
/// will show the tip; `overlay` names the tip's overlay while it is shown;
/// `window_origin` is where the tooltip sits in its window, once laid out.
pub struct Tooltip<P> {
    pub id: ViewId,
    pub hover: Option<(P, TimerToken)>,
    pub overlay: Option<ViewId>,
    pub window_origin: Option<P>,
}

/// The state after the pointer moves to `pos` and, if no tip is shown, a
/// timer with token `token` is scheduled.
pub open spec fn after_hover<P>(s: Tooltip<P>, pos: P, token: TimerToken) -> Tooltip<P> {
    if s.overlay is None {
        Tooltip { hover: Some((pos, token)), ..s }
    } else {
        s
    }
}

/// The state after the pointer leaves: nothing pending, nothing shown.
pub open spec fn after_leave<P>(s: Tooltip<P>) -> Tooltip<P> {
    Tooltip { hover: None, overlay: None, ..s }
}

/// Where to show the tip when the timer `token` fires: the window origin and
/// the hover position, if the origin is known and `token` is the pending one.
pub open spec fn show_target<P>(s: Tooltip<P>, token: TimerToken) -> Option<(P, P)> {
    match (s.window_origin, s.hover) {
        (Some(origin), Some((pos, t))) => if t == token { Some((origin, pos)) } else { None },
        _ => None,
    }
}

/// A tooltip named `id` that is idle and not laid out yet.
pub fn tooltip<P>(id: ViewId) -> (r: Tooltip<P>)
    ensures
        r.id == id,
        r.hover is None,
        r.overlay is None,
        r.window_origin is None,
{
    Tooltip { id, hover: None, overlay: None, window_origin: None }
}

impl<P: Copy> Tooltip<P> {
    /// Whether a pointer move should schedule a timer: only while no tip is
    /// shown.
    pub fn needs_timer(&self) -> (r: bool)
        ensures
            r == (self.overlay is None),
    {
        self.overlay.is_none()
    }

    /// Records that the pointer rests at `pos` and that the timer `token`
    /// was scheduled for it. While a tip is shown this changes nothing.
    pub fn hovered(&mut self, pos: P, token: TimerToken)
        ensures
            *final(self) == after_hover(*old(self), pos, token),
    {
        if self.overlay.is_none() {
            self.hover = Some((pos, token));
        }
    }

    /// Handles the pointer leaving: forgets the pending timer and returns
    /// the overlay to remove, if a tip was shown.
    pub fn pointer_left(&mut self) -> (r: Option<ViewId>)
        ensures
            r == old(self).overlay,
            *final(self) == after_leave(*old(self)),
    {
        let r = self.overlay;
        self.hover = None;
        self.overlay = None;
        r
    }

    /// Handles the timer `token` firing: returns the window origin and the
    /// hover position to show the tip at, or `None` for a stale token.
    pub fn timer_fired(&self, token: TimerToken) -> (r: Option<(P, P)>)
        ensures
            r == show_target(*self, token),
    {
        match (self.window_origin, self.hover) {
            (Some(origin), Some((pos, t))) => if t == token {
                Some((origin, pos))
            } else {
                None
            },
            _ => None,
        }
    }

    /// Records that the tip is shown as the overlay `overlay`.
    pub fn shown(&mut self, overlay: ViewId)
        ensures
            *final(self) == (Tooltip { overlay: Some(overlay), ..*old(self) }),
    {
        self.overlay = Some(overlay);
    }

    /// Records where the tooltip sits in its window after layout.
    pub fn laid_out(&mut self, origin: P)
        ensures
            *final(self) == (Tooltip { window_origin: Some(origin), ..*old(self) }),
    {
        self.window_origin = Some(origin);
    }

    /// Tears the tooltip down: returns the overlay to remove, if a tip is
    /// shown, and leaves none registered.
    pub fn teardown(&mut self) -> (r: Option<ViewId>)
        ensures
            r == old(self).overlay,
            final(self).overlay is None,
            final(self).hover is None,
            final(self).id == old(self).id,
    {
        let r = self.overlay;
        self.overlay = None;
        self.hover = None;
        r
    }
}

/// A timer scheduled on hover and fired after the pointer left is stale: it
/// shows no tip, whatever the state before the hover.
pub proof fn lemma_timer_after_leave_is_stale<P>(s: Tooltip<P>, pos: P, token: TimerToken)
    ensures
        show_target(after_leave(after_hover(s, pos, token)), token) is None,
        after_leave(after_hover(s, pos, token)).overlay is None,
{
}

/// A timer whose token is the pending one shows the tip at the hovered
/// position once the tooltip is laid out; any other token is stale.
pub proof fn lemma_pending_timer_shows<P>(s: Tooltip<P>, pos: P, token: TimerToken, other: TimerToken)
    requires
        s.overlay is None,
        s.window_origin is Some,
        other != token,
    ensures
        show_target(after_hover(s, pos, token), token) == Some((s.window_origin->0, pos)),
        show_target(after_hover(s, pos, token), other) is None,
{
}

} // verus!
