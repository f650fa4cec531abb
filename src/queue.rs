use vstd::prelude::*;

use crate::arena::ViewArena;
use crate::id::ViewId;

verus! {

/// A message held back until the subtree of `context` is attached, then
/// delivered to `target`.
pub struct Deferred<M> {
    pub context: ViewId,
    pub target: ViewId,
    pub message: M,
}

/// The entries of `s` whose target resolves in `arena`, in queue order.
pub open spec fn live_entries<M>(arena: ViewArena, s: Seq<(ViewId, M)>) -> Seq<(ViewId, M)>
    decreases s.len(),
{
    if s.len() == 0 {
        Seq::empty()
    } else {
        let rest = live_entries(arena, s.drop_last());
        if arena.is_live(s.last().0) {
            rest.push(s.last())
        } else {
            rest
        }
    }
}

/// The deferred entries of `s` that are due: their context is attached and
/// their target resolves, as (target, message) pairs in queue order.
pub open spec fn ready_entries<M>(arena: ViewArena, s: Seq<Deferred<M>>) -> Seq<(ViewId, M)>
    decreases s.len(),
{
    if s.len() == 0 {
        Seq::empty()
    } else {
        let rest = ready_entries(arena, s.drop_last());
        let d = s.last();
        if arena.is_attached(d.context) && arena.is_live(d.target) {
            rest.push((d.target, d.message))
        } else {
            rest
        }
    }
}

/// The deferred entries of `s` that keep waiting: their context still
/// exists but its subtree is not attached yet.
pub open spec fn waiting_entries<M>(arena: ViewArena, s: Seq<Deferred<M>>) -> Seq<Deferred<M>>
    decreases s.len(),
{
    if s.len() == 0 {
        Seq::empty()
    } else {
        let rest = waiting_entries(arena, s.drop_last());
        let d = s.last();
        if arena.is_live(d.context) && !arena.is_attached(d.context) {
            rest.push(d)
        } else {
            rest
        }
    }
}

/// The pending messages of one update runtime: a global queue, the per-view
/// state queue, the deferred queue and the animation queue. Each is drained
/// on its own, in first-in first-out order.
pub struct UpdateQueues<M, A> {
    global: Vec<(ViewId, M)>,
    per_view: Vec<(ViewId, M)>,
    deferred: Vec<Deferred<M>>,
    animations: Vec<A>,
}

/// What one dispatch cycle drained, each part in queue order.
pub struct DrainedCycle<M, A> {
    pub global: Vec<(ViewId, M)>,
    pub states: Vec<(ViewId, M)>,
    pub deferred: Vec<(ViewId, M)>,
    pub animations: Vec<A>,
}

/// Moves every entry out of `queue`, leaving it empty, and returns those
/// whose target resolves in `arena`, in queue order.
fn take_live<M>(arena: &ViewArena, queue: &mut Vec<(ViewId, M)>) -> (r: Vec<(ViewId, M)>)
    ensures
        r@ == live_entries(*arena, old(queue)@),
        final(queue)@ == Seq::<(ViewId, M)>::empty(),
{
    let mut batch: Vec<(ViewId, M)> = Vec::new();
    std::mem::swap(queue, &mut batch);
    let ghost orig = batch@;
    let total: usize = batch.len();
    let mut out: Vec<(ViewId, M)> = Vec::new();
    let mut k: usize = 0;
    while k < total
        invariant
            k <= orig.len(),
            orig.len() == total,
            batch@ == orig.skip(k as int),
            out@ == live_entries(*arena, orig.take(k as int)),
            queue@ == Seq::<(ViewId, M)>::empty(),
        decreases batch.len(),
    {
        let e = batch.remove(0);
        proof {
            assert(orig.take(k + 1).drop_last() == orig.take(k as int));
            assert(orig.take(k + 1).last() == e);
            assert(orig.skip(k + 1) == orig.skip(k as int).remove(0));
        }
        if arena.contains(e.0) {
            out.push(e);
        }
        k = k + 1;
    }
    assert(orig.take(orig.len() as int) == orig);
    out
}

impl<M, A> UpdateQueues<M, A> {
    /// The global queue of (target, message) pairs, oldest first.
    pub closed spec fn global_queue(&self) -> Seq<(ViewId, M)> {
        self.global@
    }

    /// The per-view state queue of (target, message) pairs, oldest first.
    pub closed spec fn view_queue(&self) -> Seq<(ViewId, M)> {
        self.per_view@
    }

    /// The deferred queue, oldest first.
    pub closed spec fn deferred_queue(&self) -> Seq<Deferred<M>> {
        self.deferred@
    }

    /// The animation queue, oldest first.
    pub closed spec fn animation_queue(&self) -> Seq<A> {
        self.animations@
    }

    /// Four empty queues.
    pub fn new() -> (r: Self)
        ensures
            r.global_queue() == Seq::<(ViewId, M)>::empty(),
            r.view_queue() == Seq::<(ViewId, M)>::empty(),
            r.deferred_queue() == Seq::<Deferred<M>>::empty(),
            r.animation_queue() == Seq::<A>::empty(),
    {
        UpdateQueues {
            global: Vec::new(),
            per_view: Vec::new(),
            deferred: Vec::new(),
            animations: Vec::new(),
        }
    }

    /// Appends `message` for `target` to the global queue.
    pub fn add_global(&mut self, target: ViewId, message: M)
        ensures
            final(self).global_queue() == old(self).global_queue().push((target, message)),
            final(self).view_queue() == old(self).view_queue(),
            final(self).deferred_queue() == old(self).deferred_queue(),
            final(self).animation_queue() == old(self).animation_queue(),
    {
        self.global.push((target, message));
    }

    /// Appends a state message for `target` to the per-view queue.
    pub fn update_state(&mut self, target: ViewId, message: M)
        ensures
            final(self).view_queue() == old(self).view_queue().push((target, message)),
            final(self).global_queue() == old(self).global_queue(),
            final(self).deferred_queue() == old(self).deferred_queue(),
            final(self).animation_queue() == old(self).animation_queue(),
    {
        self.per_view.push((target, message));
    }

    /// Appends a message for `target` that waits until the subtree of
    /// `context` is attached.
    pub fn add_deferred(&mut self, context: ViewId, target: ViewId, message: M)
        ensures
            final(self).deferred_queue() == old(self).deferred_queue().push(
                Deferred { context, target, message },
            ),
            final(self).global_queue() == old(self).global_queue(),
            final(self).view_queue() == old(self).view_queue(),
            final(self).animation_queue() == old(self).animation_queue(),
    {
        self.deferred.push(Deferred { context, target, message });
    }

    /// Appends an animation record.
    pub fn add_animation(&mut self, record: A)
        ensures
            final(self).animation_queue() == old(self).animation_queue().push(record),
            final(self).global_queue() == old(self).global_queue(),
            final(self).view_queue() == old(self).view_queue(),
            final(self).deferred_queue() == old(self).deferred_queue(),
    {
        self.animations.push(record);
    }

    /// Swaps out the global queue and returns the entries to deliver: those
    /// whose target resolves, in the order they were queued. Entries for
    /// removed views are dropped. Messages queued after this call wait for
    /// the next cycle.
    pub fn drain_global(&mut self, arena: &ViewArena) -> (r: Vec<(ViewId, M)>)
        ensures
            r@ == live_entries(*arena, old(self).global_queue()),
            final(self).global_queue() == Seq::<(ViewId, M)>::empty(),
            final(self).view_queue() == old(self).view_queue(),
            final(self).deferred_queue() == old(self).deferred_queue(),
            final(self).animation_queue() == old(self).animation_queue(),
    {
        take_live(arena, &mut self.global)
    }

    /// Swaps out the per-view state queue and returns the entries to
    /// deliver, as `drain_global` does for the global queue.
    pub fn drain_view_messages(&mut self, arena: &ViewArena) -> (r: Vec<(ViewId, M)>)
        ensures
            r@ == live_entries(*arena, old(self).view_queue()),
            final(self).view_queue() == Seq::<(ViewId, M)>::empty(),
            final(self).global_queue() == old(self).global_queue(),
            final(self).deferred_queue() == old(self).deferred_queue(),
            final(self).animation_queue() == old(self).animation_queue(),
    {
        take_live(arena, &mut self.per_view)
    }

    /// Returns the deferred entries that are due, as (target, message) pairs
    /// in queue order, and keeps those whose context is not attached yet.
    /// Entries whose context or target was removed are dropped.
    pub fn drain_deferred(&mut self, arena: &ViewArena) -> (r: Vec<(ViewId, M)>)
        ensures
            r@ == ready_entries(*arena, old(self).deferred_queue()),
            final(self).deferred_queue() == waiting_entries(*arena, old(self).deferred_queue()),
            final(self).global_queue() == old(self).global_queue(),
            final(self).view_queue() == old(self).view_queue(),
            final(self).animation_queue() == old(self).animation_queue(),
    {
        let mut batch: Vec<Deferred<M>> = Vec::new();
        std::mem::swap(&mut self.deferred, &mut batch);
        let ghost orig = batch@;
        let total: usize = batch.len();
        let mut out: Vec<(ViewId, M)> = Vec::new();
        let mut k: usize = 0;
        while k < total
            invariant
                k <= orig.len(),
                orig.len() == total,
                batch@ == orig.skip(k as int),
                out@ == ready_entries(*arena, orig.take(k as int)),
                self.deferred@ == waiting_entries(*arena, orig.take(k as int)),
                self.global@ == old(self).global@,
                self.per_view@ == old(self).per_view@,
                self.animations@ == old(self).animations@,
            decreases batch.len(),
        {
            let d = batch.remove(0);
            proof {
                assert(orig.take(k + 1).drop_last() == orig.take(k as int));
                assert(orig.take(k + 1).last() == d);
                assert(orig.skip(k + 1) == orig.skip(k as int).remove(0));
            }
            if arena.children_attached(d.context) {
                if arena.contains(d.target) {
                    out.push((d.target, d.message));
                }
            } else if arena.contains(d.context) {
                self.deferred.push(d);
            }
            k = k + 1;
        }
        assert(orig.take(orig.len() as int) == orig);
        out
    }

    /// One dispatch cycle: swaps out the global and per-view queues, takes
    /// the deferred entries that are due and all animation records. The
    /// entries for removed views are dropped; deferred entries still waiting
    /// for their context stay queued. Everything queued while the result is
    /// delivered waits for the next cycle.
    pub fn drain_cycle(&mut self, arena: &ViewArena) -> (r: DrainedCycle<M, A>)
        ensures
            r.global@ == live_entries(*arena, old(self).global_queue()),
            r.states@ == live_entries(*arena, old(self).view_queue()),
            r.deferred@ == ready_entries(*arena, old(self).deferred_queue()),
            r.animations@ == old(self).animation_queue(),
            final(self).global_queue() == Seq::<(ViewId, M)>::empty(),
            final(self).view_queue() == Seq::<(ViewId, M)>::empty(),
            final(self).deferred_queue() == waiting_entries(*arena, old(self).deferred_queue()),
            final(self).animation_queue() == Seq::<A>::empty(),
    {
        let global = self.drain_global(arena);
        let states = self.drain_view_messages(arena);
        let deferred = self.drain_deferred(arena);
        let animations = self.drain_animations();
        DrainedCycle { global, states, deferred, animations }
    }

    /// Swaps out the animation queue and returns all of it, oldest first.
    pub fn drain_animations(&mut self) -> (r: Vec<A>)
        ensures
            r@ == old(self).animation_queue(),
            final(self).animation_queue() == Seq::<A>::empty(),
            final(self).global_queue() == old(self).global_queue(),
            final(self).view_queue() == old(self).view_queue(),
            final(self).deferred_queue() == old(self).deferred_queue(),
    {
        let mut batch: Vec<A> = Vec::new();
        std::mem::swap(&mut self.animations, &mut batch);
        batch
    }
}

/// Draining keeps queue order: when every target resolves, the entries are
/// delivered exactly in the order they were queued.
pub proof fn lemma_fifo_all_live<M>(arena: ViewArena, s: Seq<(ViewId, M)>)
    requires
        forall|i: int| 0 <= i < s.len() ==> arena.is_live(#[trigger] s[i].0),
    ensures
        live_entries(arena, s) == s,
    decreases s.len(),
{
    if s.len() > 0 {
        lemma_fifo_all_live(arena, s.drop_last());
        assert(s.drop_last().push(s.last()) == s);
    }
}

/// Draining keeps queue order: entries queued earlier are delivered before
/// entries queued later.
pub proof fn lemma_fifo_append<M>(arena: ViewArena, a: Seq<(ViewId, M)>, b: Seq<(ViewId, M)>)
    ensures
        live_entries(arena, a + b) == live_entries(arena, a) + live_entries(arena, b),
    decreases b.len(),
{
    if b.len() == 0 {
        assert(a + b == a);
    } else {
        lemma_fifo_append(arena, a, b.drop_last());
        assert((a + b).drop_last() == a + b.drop_last());
        assert((a + b).last() == b.last());
    }
}

/// Each queued entry is delivered once for each time it was queued when its
/// target resolves at drain time, and never when the target was removed.
pub proof fn lemma_delivered_once<M>(arena: ViewArena, s: Seq<(ViewId, M)>, e: (ViewId, M))
    ensures
        live_entries(arena, s).to_multiset().count(e) == if arena.is_live(e.0) {
            s.to_multiset().count(e)
        } else {
            0
        },
    decreases s.len(),
{
    broadcast use vstd::seq_lib::group_to_multiset_ensures;

    if s.len() == 0 {
        assert(live_entries(arena, s) == Seq::<(ViewId, M)>::empty());
    } else {
        lemma_delivered_once(arena, s.drop_last(), e);
        assert(s.drop_last().push(s.last()) == s);
    }
}

/// A cycle delivers only entries that were queued when it drained, at most
/// as many as were queued: what is queued during delivery waits for a later
/// cycle.
pub proof fn lemma_cycle_delivers_only_pending<M>(arena: ViewArena, s: Seq<(ViewId, M)>)
    ensures
        live_entries(arena, s).len() <= s.len(),
        forall|e: (ViewId, M)| #[trigger]
            live_entries(arena, s).contains(e) ==> s.contains(e) && arena.is_live(e.0),
    decreases s.len(),
{
    broadcast use vstd::seq_lib::group_to_multiset_ensures;

    if s.len() > 0 {
        lemma_cycle_delivers_only_pending(arena, s.drop_last());
        assert(s.drop_last().push(s.last()) == s);
    }
    assert forall|e: (ViewId, M)| #[trigger]
        live_entries(arena, s).contains(e) implies s.contains(e) && arena.is_live(e.0) by {
        lemma_delivered_once(arena, s, e);
    }
}

/// Entries whose context is not attached yet are not delivered and stay
/// queued.
pub proof fn lemma_deferred_waits_while_unattached<M>(arena: ViewArena, s: Seq<Deferred<M>>)
    requires
        forall|i: int|
            0 <= i < s.len() ==> arena.is_live(#[trigger] s[i].context) && !arena.is_attached(
                s[i].context,
            ),
    ensures
        ready_entries(arena, s) == Seq::<(ViewId, M)>::empty(),
        waiting_entries(arena, s) == s,
    decreases s.len(),
{
    if s.len() > 0 {
        lemma_deferred_waits_while_unattached(arena, s.drop_last());
        assert(s.drop_last().push(s.last()) == s);
    }
}

/// Once their context is attached, entries are delivered in queue order and
/// none stays queued, so each is delivered exactly once.
pub proof fn lemma_deferred_delivered_once_attached<M>(arena: ViewArena, s: Seq<Deferred<M>>)
    requires
        forall|i: int|
            0 <= i < s.len() ==> arena.is_attached(#[trigger] s[i].context) && arena.is_live(
                s[i].target,
            ),
    ensures
        ready_entries(arena, s) == s.map_values(|d: Deferred<M>| (d.target, d.message)),
        waiting_entries(arena, s) == Seq::<Deferred<M>>::empty(),
    decreases s.len(),
{
    if s.len() > 0 {
        lemma_deferred_delivered_once_attached(arena, s.drop_last());
        assert(s.drop_last().push(s.last()) == s);
        assert(s.map_values(|d: Deferred<M>| (d.target, d.message)) == s.drop_last().map_values(
            |d: Deferred<M>| (d.target, d.message),
        ).push((s.last().target, s.last().message)));
    }
}

/// Entries whose context was removed are dropped: never delivered, never
/// kept.
pub proof fn lemma_deferred_dropped_with_context<M>(arena: ViewArena, s: Seq<Deferred<M>>)
    requires
        forall|i: int| 0 <= i < s.len() ==> !arena.is_live(#[trigger] s[i].context),
    ensures
        ready_entries(arena, s) == Seq::<(ViewId, M)>::empty(),
        waiting_entries(arena, s) == Seq::<Deferred<M>>::empty(),
    decreases s.len(),
{
    if s.len() > 0 {
        lemma_deferred_dropped_with_context(arena, s.drop_last());
    }
}

/// Deferred draining decides each entry on its own and keeps queue order:
/// draining two batches queued one after the other gives the results of
/// each, in that order.
pub proof fn lemma_deferred_append<M>(arena: ViewArena, a: Seq<Deferred<M>>, b: Seq<Deferred<M>>)
    ensures
        ready_entries(arena, a + b) == ready_entries(arena, a) + ready_entries(arena, b),
        waiting_entries(arena, a + b) == waiting_entries(arena, a) + waiting_entries(arena, b),
    decreases b.len(),
{
    if b.len() == 0 {
        assert(a + b == a);
    } else {
        lemma_deferred_append(arena, a, b.drop_last());
        assert((a + b).drop_last() == a + b.drop_last());
        assert((a + b).last() == b.last());
    }
}

} // verus!
