//! The registry table of one resource class: a mapping from identifier to
//! resource slot, together with the identifier allocator for the class.
//!
//! An identifier is valid exactly while its slot is present in the table.
//! Identifiers are issued strictly increasingly, starting at 1, and are never
//! reused, even after their slot has been removed.

use std::collections::HashMap;
use vstd::prelude::*;

verus! {

broadcast use vstd::std_specs::hash::group_hash_axioms;

/// One stored resource: the native object owned by the slot, plus immutable
/// metadata fixed when the resource was created.
pub struct Slot<T, M> {
    /// The engine-owned object this slot stands for.
    pub native: T,
    /// Facts recorded at creation time, independent of the native object's
    /// own internal state.
    pub meta: M,
}

/// The table for one resource class: slots keyed by identifier, plus the last
/// identifier issued for the class.
pub struct Table<T, M> {
    slots: HashMap<u64, Slot<T, M>>,
    last_id: u64,
}

impl<T, M> Table<T, M> {
    /// The slots currently present, as a map from identifier to slot.
    pub closed spec fn slots(self) -> Map<u64, Slot<T, M>> {
        self.slots@
    }

    /// The last identifier issued for this class; 0 before any insertion, and
    /// 0 itself is never issued.
    pub closed spec fn last_id(self) -> u64 {
        self.last_id
    }

    /// Every identifier this class has ever issued: 1 up to `last_id`,
    /// whether or not its slot is still present.
    pub open spec fn issued(self) -> Set<u64> {
        Set::new(|i: u64| 1 <= i && i <= self.last_id())
    }

    /// Well-formed: every identifier that has a slot was issued.
    pub open spec fn wf(self) -> bool {
        forall|i: u64| #[trigger] self.slots().contains_key(i) ==> 1 <= i && i <= self.last_id()
    }

    /// Creates the empty table for a class. This is the class's one-time
    /// initialization; no identifier has been issued yet.
    pub fn new() -> (t: Self)
        ensures
            t.slots() == Map::<u64, Slot<T, M>>::empty(),
            t.last_id() == 0,
            t.wf(),
    {
        Table { slots: HashMap::new(), last_id: 0 }
    }

    /// The last identifier issued so far; the next insertion returns one
    /// more. Identifier exhaustion is fatal by design, so a caller that
    /// cannot rule it out checks this against `u64::MAX` first.
    pub fn last_issued(&self) -> (n: u64)
        ensures
            n == self.last_id(),
    {
        self.last_id
    }

    /// How many slots are currently present.
    pub fn len(&self) -> (n: usize)
        ensures
            n == self.slots().len(),
    {
        self.slots.len()
    }

    /// Whether `id` is currently valid, i.e. has a slot in the table.
    pub fn contains(&self, id: u64) -> (r: bool)
        ensures
            r == self.slots().contains_key(id),
    {
        self.slots.contains_key(&id)
    }

    /// Shared lookup of one slot. `None` exactly when the identifier is not
    /// currently valid: never issued, or removed since.
    pub fn get(&self, id: u64) -> (r: Option<&Slot<T, M>>)
        ensures
            match r {
                Some(slot) => self.slots().contains_key(id) && *slot == self.slots()[id],
                None => !self.slots().contains_key(id),
            },
    {
        self.slots.get(&id)
    }

    /// Stores a new slot and returns its identifier: one above the last
    /// identifier issued, strictly above everything issued before, and hence
    /// never a repeat — removal never lowers the counter.
    pub fn insert(&mut self, native: T, meta: M) -> (id: u64)
        requires
            old(self).wf(),
            old(self).last_id() < u64::MAX,
        ensures
            final(self).wf(),
            id == old(self).last_id() + 1,
            final(self).last_id() == id,
            !old(self).issued().contains(id),
            !old(self).slots().contains_key(id),
            final(self).issued() == old(self).issued().insert(id),
            final(self).slots() == old(self).slots().insert(id, (Slot { native, meta })),
    {
        let id = self.last_id + 1;
        self.last_id = id;
        self.slots.insert(id, Slot { native, meta });
        proof {
            assert(self.issued() =~= old(self).issued().insert(id));
            assert forall|i: u64| #[trigger] self.slots().contains_key(i) implies 1 <= i && i
                <= self.last_id() by {
                if i != id {
                    assert(old(self).slots().contains_key(i));
                }
            }
        }
        id
    }

    /// Removes the slot of `id` if present and reports whether one was there.
    /// Removing an absent identifier changes nothing; the issue counter is
    /// untouched either way, so a removed identifier is never issued again.
    pub fn remove(&mut self, id: u64) -> (was_present: bool)
        ensures
            final(self).slots() == old(self).slots().remove(id),
            was_present == old(self).slots().contains_key(id),
            final(self).last_id() == old(self).last_id(),
            final(self).issued() == old(self).issued(),
            old(self).wf() ==> final(self).wf(),
    {
        let was_present = self.slots.remove(&id).is_some();
        proof {
            if old(self).wf() {
                assert forall|i: u64| #[trigger] self.slots().contains_key(i) implies 1 <= i && i
                    <= self.last_id() by {
                    assert(old(self).slots().contains_key(i));
                }
            }
        }
        was_present
    }
}

/// The relation `insert` establishes between the table before the call, the
/// table after it, and the identifier it returns.
pub open spec fn inserted<T, M>(pre: Table<T, M>, post: Table<T, M>, id: u64) -> bool {
    &&& id == pre.last_id() + 1
    &&& post.last_id() == id
}

/// The relation a removal establishes: the slot of `id` (if any) is gone,
/// everything else — the other slots and the issue counter — is unchanged.
pub open spec fn removed<T, M>(pre: Table<T, M>, post: Table<T, M>, id: u64) -> bool {
    &&& post.slots() == pre.slots().remove(id)
    &&& post.last_id() == pre.last_id()
}

/// Law: identifiers returned by insertions into one class are strictly
/// increasing and never repeat, across any intervening operations — removals
/// included, since no operation lowers the issue counter.
pub proof fn lemma_identifiers_strictly_increase<T, M>(
    pre1: Table<T, M>,
    post1: Table<T, M>,
    id1: u64,
    pre2: Table<T, M>,
    post2: Table<T, M>,
    id2: u64,
)
    requires
        inserted(pre1, post1, id1),
        post1.last_id() <= pre2.last_id(),
        inserted(pre2, post2, id2),
    ensures
        id1 < id2,
        !pre2.issued().contains(id2),
{
}

/// Law: removing one identifier leaves every other slot — its native object
/// and its recorded metadata — exactly as it was. Together with the classes
/// keeping separate tables, this is why facts recorded at creation, such as a
/// connection's thread count, are stable under all later use.
pub proof fn lemma_remove_preserves_other_slots<T, M>(
    pre: Table<T, M>,
    post: Table<T, M>,
    gone: u64,
    id: u64,
)
    requires
        removed(pre, post, gone),
        id != gone,
    ensures
        post.slots().contains_key(id) == pre.slots().contains_key(id),
        pre.slots().contains_key(id) ==> post.slots()[id] == pre.slots()[id],
{
}

/// Law: removal is idempotent. Removing the same identifier twice in a row
/// succeeds both times and leaves exactly the table one removal leaves.
pub proof fn lemma_remove_idempotent<T, M>(
    t0: Table<T, M>,
    t1: Table<T, M>,
    t2: Table<T, M>,
    id: u64,
)
    requires
        removed(t0, t1, id),
        removed(t1, t2, id),
    ensures
        t2.slots() == t1.slots(),
        t2.last_id() == t1.last_id(),
{
    assert(t2.slots() =~= t1.slots());
}

} // verus!
