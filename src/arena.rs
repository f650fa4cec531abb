use vstd::prelude::*;

use crate::id::ViewId;

verus! {

/// One slot of the arena: whether the view still exists, whether its
/// children have been attached, and the view it was attached under.
#[derive(Clone, Copy, PartialEq, Eq, Structural, Debug)]
pub struct Node {
    pub alive: bool,
    pub attached: bool,
    pub parent: Option<ViewId>,
}

/// The arena of view nodes, addressed by `ViewId`.
///
/// A handle's token is the index of its slot. Slots are never reused, so a
/// handle is issued once; removing a view poisons its slot for good.
pub struct ViewArena {
    nodes: Vec<Node>,
}

/// One of the first `upto` handles of `s` has token `k`.
pub open spec fn lists(s: Seq<ViewId>, upto: int, k: int) -> bool {
    exists|w: int| 0 <= w < upto && w < s.len() && s[w].raw == k
}

impl ViewArena {
    /// The slots, in the order their handles were issued.
    pub closed spec fn view(&self) -> Seq<Node> {
        self.nodes@
    }

    /// How many handles have been issued so far.
    pub open spec fn issued(&self) -> nat {
        self@.len()
    }

    /// The handle resolves to a view that has not been removed.
    pub open spec fn is_live(&self, id: ViewId) -> bool {
        id.raw < self@.len() && self@[id.raw as int].alive
    }

    /// The handle resolves, and its children have been attached.
    pub open spec fn is_attached(&self, id: ViewId) -> bool {
        self.is_live(id) && self@[id.raw as int].attached
    }

    /// An arena that has issued no handle.
    pub fn new() -> (r: ViewArena)
        ensures
            r@ == Seq::<Node>::empty(),
    {
        ViewArena { nodes: Vec::new() }
    }

    /// Issues a handle that was never issued before, with a fresh node.
    pub fn new_view(&mut self) -> (r: ViewId)
        requires
            old(self).issued() < usize::MAX,
        ensures
            r.raw == old(self).issued(),
            final(self)@ == old(self)@.push(Node { alive: true, attached: false, parent: None }),
            final(self).is_live(r),
            !old(self).is_live(r),
    {
        let raw = self.nodes.len();
        self.nodes.push(Node { alive: true, attached: false, parent: None });
        ViewId { raw }
    }

    /// How many handles have been issued so far.
    pub fn issued_count(&self) -> (r: usize)
        ensures
            r == self.issued(),
    {
        self.nodes.len()
    }

    /// Whether the handle resolves to a view that still exists.
    pub fn contains(&self, id: ViewId) -> (r: bool)
        ensures
            r == self.is_live(id),
    {
        let i = id.raw;
        id.raw < self.nodes.len() && self.nodes[i].alive
    }

    /// Whether the handle resolves and its children have been attached.
    pub fn children_attached(&self, id: ViewId) -> (r: bool)
        ensures
            r == self.is_attached(id),
    {
        let i = id.raw;
        id.raw < self.nodes.len() && self.nodes[i].alive && self.nodes[i].attached
    }

    /// The view that `id` was attached under, if `id` resolves and has one.
    pub fn parent(&self, id: ViewId) -> (r: Option<ViewId>)
        ensures
            r == (if self.is_live(id) { self@[id.raw as int].parent } else { None }),
    {
        if self.contains(id) {
            self.nodes[id.raw].parent
        } else {
            None
        }
    }

    /// Attaches `children` under `id` and marks the subtree of `id` as
    /// attached. Children that do not resolve are skipped; a handle that does
    /// not resolve leaves the arena unchanged.
    pub fn set_children(&mut self, id: ViewId, children: &Vec<ViewId>)
        ensures
            final(self)@.len() == old(self)@.len(),
            !old(self).is_live(id) ==> final(self)@ == old(self)@,
            old(self).is_live(id) ==> final(self).is_attached(id),
            forall|k: int|
                0 <= k < final(self)@.len() ==> {
                    let before = #[trigger] old(self)@[k];
                    let after = final(self)@[k];
                    &&& after.alive == before.alive
                    &&& after.attached == (before.attached || (old(self).is_live(id) && k
                        == id.raw))
                    &&& after.parent == if old(self).is_live(id) && before.alive && lists(children@, children@.len() as int, k) {
                        Some(id)
                    } else {
                        before.parent
                    }
                },
    {
        if !self.contains(id) {
            return ;
        }
        let ghost before = self@;
        let ghost n = self@.len();
        let mut j: usize = 0;
        while j < children.len()
            invariant
                0 <= j <= children.len(),
                self@.len() == n,
                before.len() == n,
                before[id.raw as int].alive,
                id.raw < n,
                forall|k: int|
                    0 <= k < n ==> {
                        let b = #[trigger] before[k];
                        let a = self@[k];
                        &&& a.alive == b.alive
                        &&& a.attached == b.attached
                        &&& a.parent == if b.alive && lists(children@, j as int, k) {
                            Some(id)
                        } else {
                            b.parent
                        }
                    },
            decreases children.len() - j,
        {
            let c = children[j];
            let ghost prev = self@;
            if c.raw < self.nodes.len() && self.nodes[c.raw].alive {
                let ci = c.raw;
                let mut node = self.nodes[ci];
                node.parent = Some(id);
                self.nodes.set(ci, node);
            }
            proof {
                assert forall|k: int| 0 <= k < n implies {
                    let b = #[trigger] before[k];
                    let a = self@[k];
                    &&& a.alive == b.alive
                    &&& a.attached == b.attached
                    &&& a.parent == if b.alive && lists(children@, j + 1, k) {
                        Some(id)
                    } else {
                        b.parent
                    }
                } by {
                    if lists(children@, j + 1, k) && !lists(children@, j as int, k) {
                        let w = choose|w: int| 0 <= w < j + 1 && children@[w].raw == k;
                        assert(w == j);
                    }
                    if lists(children@, j as int, k) {
                        let w = choose|w: int| 0 <= w < j && children@[w].raw == k;
                        assert(0 <= w < j + 1 && children@[w].raw == k);
                    }
                    if c.raw == k && before[k].alive {
                        assert(lists(children@, j + 1, k));
                    }
                }
            }
            j = j + 1;
        }
        let i = id.raw;
        let mut node = self.nodes[i];
        node.attached = true;
        self.nodes.set(i, node);
    }

    /// Removes the view named by `id`: from now on the handle does not
    /// resolve. Every other slot is unchanged; an unknown handle is a no-op.
    pub fn remove(&mut self, id: ViewId)
        ensures
            !final(self).is_live(id),
            final(self)@.len() == old(self)@.len(),
            forall|k: int|
                0 <= k < old(self)@.len() && k != id.raw ==> #[trigger] final(self)@[k]
                    == old(self)@[k],
            old(self).is_live(id) ==> final(self)@[id.raw as int] == (Node {
                alive: false,
                attached: false,
                ..old(self)@[id.raw as int]
            }),
            !old(self).is_live(id) ==> final(self)@ == old(self)@,
    {
        if self.contains(id) {
            let i = id.raw;
            let mut node = self.nodes[i];
            node.alive = false;
            node.attached = false;
            self.nodes.set(i, node);
        }
    }
}

} // verus!
