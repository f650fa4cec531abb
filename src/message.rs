use vstd::prelude::*;

use crate::id::ViewId;

verus! {

/// The closed set of built-in update messages. `State` carries a payload for
/// the named view's own handler; every other variant is a command the
/// runtime executes itself. `Window` carries the commands whose payload the
/// windowing layer owns (scale, geometry, menus, overlays to add,
/// animations, IME areas, resize directions).
pub enum UpdateMessage<S, X> {
    Focus(ViewId),
    ClearFocus(ViewId),
    Active(ViewId),
    Disabled { id: ViewId, is_disabled: bool },
    RequestChange { id: ViewId, flags: u8 },
    RequestPaint,
    State { id: ViewId, state: S },
    KeyboardNavigable { id: ViewId },
    Draggable { id: ViewId },
    ToggleWindowMaximized,
    SetWindowMaximized(bool),
    MinimizeWindow,
    DragWindow,
    SetWindowTitle { title: String },
    RemoveOverlay { id: ViewId },
    Inspect,
    FocusWindow,
    SetImeAllowed { allowed: bool },
    Window(X),
}

/// The view a message names, for the variants that name one.
pub open spec fn message_target<S, X>(m: UpdateMessage<S, X>) -> Option<ViewId> {
    match m {
        UpdateMessage::Focus(id) => Some(id),
        UpdateMessage::ClearFocus(id) => Some(id),
        UpdateMessage::Active(id) => Some(id),
        UpdateMessage::Disabled { id, .. } => Some(id),
        UpdateMessage::RequestChange { id, .. } => Some(id),
        UpdateMessage::State { id, .. } => Some(id),
        UpdateMessage::KeyboardNavigable { id } => Some(id),
        UpdateMessage::Draggable { id } => Some(id),
        UpdateMessage::RemoveOverlay { id } => Some(id),
        _ => None,
    }
}

/// The state payloads among `s`, for their views' own handlers, in order.
pub open spec fn state_payloads<S, X>(s: Seq<UpdateMessage<S, X>>) -> Seq<(ViewId, S)>
    decreases s.len(),
{
    if s.len() == 0 {
        Seq::empty()
    } else {
        let rest = state_payloads(s.drop_last());
        match s.last() {
            UpdateMessage::State { id, state } => rest.push((id, state)),
            _ => rest,
        }
    }
}

/// The runtime commands among `s`, in order.
pub open spec fn runtime_commands<S, X>(s: Seq<UpdateMessage<S, X>>) -> Seq<UpdateMessage<S, X>>
    decreases s.len(),
{
    if s.len() == 0 {
        Seq::empty()
    } else {
        let rest = runtime_commands(s.drop_last());
        match s.last() {
            UpdateMessage::State { .. } => rest,
            m => rest.push(m),
        }
    }
}

impl<S, X> UpdateMessage<S, X> {
    /// The view this message names, if it names one.
    pub fn target(&self) -> (r: Option<ViewId>)
        ensures
            r == message_target(*self),
    {
        match self {
            UpdateMessage::Focus(id) => Some(*id),
            UpdateMessage::ClearFocus(id) => Some(*id),
            UpdateMessage::Active(id) => Some(*id),
            UpdateMessage::Disabled { id, .. } => Some(*id),
            UpdateMessage::RequestChange { id, .. } => Some(*id),
            UpdateMessage::State { id, .. } => Some(*id),
            UpdateMessage::KeyboardNavigable { id } => Some(*id),
            UpdateMessage::Draggable { id } => Some(*id),
            UpdateMessage::RemoveOverlay { id } => Some(*id),
            _ => None,
        }
    }

    /// Whether this message is for the named view's own handler rather than
    /// for the runtime.
    pub fn is_state(&self) -> (r: bool)
        ensures
            r == (*self is State),
    {
        match self {
            UpdateMessage::State { .. } => true,
            _ => false,
        }
    }
}

/// Splits a drained batch: state payloads go to their views' handlers, every
/// other message to the runtime. Both parts keep the batch's order and each
/// message lands in exactly one of them.
pub fn route_messages<S, X>(batch: Vec<UpdateMessage<S, X>>) -> (r: (
    Vec<(ViewId, S)>,
    Vec<UpdateMessage<S, X>>,
))
    ensures
        r.0@ == state_payloads(batch@),
        r.1@ == runtime_commands(batch@),
{
    let mut batch = batch;
    let ghost orig = batch@;
    let total: usize = batch.len();
    let mut states: Vec<(ViewId, S)> = Vec::new();
    let mut commands: Vec<UpdateMessage<S, X>> = Vec::new();
    let mut k: usize = 0;
    while k < total
        invariant
            k <= orig.len(),
            orig.len() == total,
            batch@ == orig.skip(k as int),
            states@ == state_payloads(orig.take(k as int)),
            commands@ == runtime_commands(orig.take(k as int)),
        decreases total - k,
    {
        let m = batch.remove(0);
        proof {
            assert(orig.take(k + 1).drop_last() == orig.take(k as int));
            assert(orig.take(k + 1).last() == m);
            assert(orig.skip(k + 1) == orig.skip(k as int).remove(0));
        }
        match m {
            UpdateMessage::State { id, state } => states.push((id, state)),
            other => commands.push(other),
        }
        k = k + 1;
    }
    assert(orig.take(orig.len() as int) == orig);
    (states, commands)
}

/// Routing loses and duplicates nothing: every message of a batch is either
/// a state payload or a runtime command.
pub proof fn lemma_route_partitions<S, X>(s: Seq<UpdateMessage<S, X>>)
    ensures
        state_payloads(s).len() + runtime_commands(s).len() == s.len(),
    decreases s.len(),
{
    if s.len() > 0 {
        lemma_route_partitions(s.drop_last());
    }
}

} // verus!
