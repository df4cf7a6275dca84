//! A stable-key arena: values are stored in numbered slots, and a slot's
//! key stays valid until that exact entry is removed, no matter how much
//! insert/remove traffic hits other slots. The scene graph relies on this
//! so that removing one object never invalidates handles to others.

use vstd::prelude::*;

verus! {

/// How many slots of `s` are occupied.
pub open spec fn occupied_count<T>(s: Seq<Option<T>>) -> nat
    decreases s.len(),
{
    if s.len() == 0 {
        0
    } else {
        occupied_count(s.drop_last()) + if s.last() is Some {
            1nat
        } else {
            0nat
        }
    }
}

/// 1 for an occupied slot, 0 for a free one.
pub open spec fn slot_weight<T>(v: Option<T>) -> nat {
    if v is Some {
        1nat
    } else {
        0nat
    }
}

pub proof fn lemma_occupied_update<T>(s: Seq<Option<T>>, i: int, v: Option<T>)
    requires
        0 <= i < s.len(),
    ensures
        occupied_count(s.update(i, v)) + slot_weight(s[i]) == occupied_count(s) + slot_weight(v),
    decreases s.len(),
{
    let t = s.update(i, v);
    if i == s.len() - 1 {
        assert(t.drop_last() =~= s.drop_last());
    } else {
        assert(t.drop_last() =~= s.drop_last().update(i, v));
        assert(t.last() == s.last());
        lemma_occupied_update(s.drop_last(), i, v);
    }
}

/// An arena never stores more entries than it has slots.
pub proof fn lemma_occupied_le_len<T>(s: Seq<Option<T>>)
    ensures
        occupied_count(s) <= s.len(),
    decreases s.len(),
{
    if s.len() > 0 {
        lemma_occupied_le_len(s.drop_last());
    }
}

/// Identifier stability: an entry's key keeps naming the same value
/// through any insertion or removal under a different key. Together with
/// the contracts of `insert` (which always picks a fresh key and leaves
/// the rest of the map untouched) and `remove` (which only deletes its
/// own key), a key handed out by `insert` dereferences to the same value
/// until that key itself is removed, whatever other traffic the arena
/// sees.
pub proof fn lemma_identifier_stability<T>(m: Map<int, T>, id: int, k: int, v: T)
    requires
        m.dom().contains(id),
        id != k,
    ensures
        m.insert(k, v).dom().contains(id),
        m.insert(k, v)[id] == m[id],
        m.remove(k).dom().contains(id),
        m.remove(k)[id] == m[id],
{
}

/// An indexed arena with stable integer keys.
pub struct ParaSlab<T> {
    slots: Vec<Option<T>>,
    count: usize,
}

impl<T> View for ParaSlab<T> {
    type V = Map<int, T>;

    /// The arena as a partial map from key to stored value.
    closed spec fn view(&self) -> Map<int, T> {
        Map::new(
            |i: int| 0 <= i < self.slots@.len() && self.slots@[i] is Some,
            |i: int| self.slots@[i]->0,
        )
    }
}

impl<T> ParaSlab<T> {
    /// Number of slots ever grown to; keys are always below this bound.
    pub closed spec fn capacity_spec(&self) -> nat {
        self.slots@.len()
    }

    /// Number of occupied slots.
    pub closed spec fn spec_len(&self) -> nat {
        self.count as nat
    }

    /// The stored length field agrees with the slot array, and the slot
    /// array fits the machine.
    pub closed spec fn wf(&self) -> bool {
        &&& self.count as nat == occupied_count(self.slots@)
        &&& self.count <= self.slots@.len()
        &&& self.slots@.len() <= usize::MAX
    }

    /// A well-formed arena's capacity fits the machine, and every key in
    /// use lies below it.
    pub proof fn lemma_wf_bounds(&self)
        requires
            self.wf(),
        ensures
            self.capacity_spec() <= usize::MAX,
            forall|id: int| self@.dom().contains(id) ==> 0 <= id < self.capacity_spec(),
    {
    }

    pub fn new() -> (r: ParaSlab<T>)
        ensures
            r.wf(),
            r@ =~= Map::<int, T>::empty(),
            r.spec_len() == 0,
            r.capacity_spec() == 0,
    {
        ParaSlab { slots: Vec::new(), count: 0 }
    }

    pub fn len(&self) -> (r: usize)
        requires
            self.wf(),
        ensures
            r == self.spec_len(),
    {
        self.count
    }

    pub fn capacity(&self) -> (r: usize)
        ensures
            r == self.capacity_spec(),
    {
        self.slots.len()
    }

    pub fn contains(&self, id: usize) -> (r: bool)
        ensures
            r == self@.dom().contains(id as int),
    {
        id < self.slots.len() && self.slots[id].is_some()
    }

    /// Stores `value` in a free slot and returns its key. The key was not
    /// in use before the call, every previously stored entry is unchanged,
    /// and the number of stored entries grows by one.
    #[verifier::loop_isolation(false)]
    pub fn insert(&mut self, value: T) -> (id: usize)
        requires
            old(self).wf(),
            old(self).capacity_spec() < usize::MAX,
        ensures
            final(self).wf(),
            !old(self)@.dom().contains(id as int),
            id < final(self).capacity_spec(),
            final(self)@ =~= old(self)@.insert(id as int, value),
            final(self).spec_len() == old(self).spec_len() + 1,
            old(self).capacity_spec() <= final(self).capacity_spec() <= old(self).capacity_spec()
                + 1,
    {
        let n: usize = self.slots.len();
        let mut i: usize = 0;
        while i < n
            invariant
                *self == *old(self),
                i <= n,
                forall|j: int| 0 <= j < i ==> self.slots@[j] is Some,
            decreases n - i,
        {
            if self.slots[i].is_none() {
                proof {
                    lemma_occupied_update(self.slots@, i as int, Some(value));
                    lemma_occupied_le_len(self.slots@.update(i as int, Some(value)));
                }
                self.slots[i] = Some(value);
                self.count = self.count + 1;
                return i;
            }
            i = i + 1;
        }
        proof {
            assert(self.slots@.push(Some(value)).drop_last() =~= self.slots@);
        }
        self.slots.push(Some(value));
        self.count = self.count + 1;
        n
    }

    pub fn get(&self, id: usize) -> (r: Option<&T>)
        ensures
            match r {
                Some(v) => self@.dom().contains(id as int) && *v == self@[id as int],
                None => !self@.dom().contains(id as int),
            },
    {
        if id < self.slots.len() {
            match &self.slots[id] {
                Some(v) => Some(v),
                None => None,
            }
        } else {
            None
        }
    }

    /// Mutable access to a stored entry; the key must be in use.
    pub fn get_mut(&mut self, id: usize) -> (m: &mut T)
        requires
            old(self).wf(),
            old(self)@.dom().contains(id as int),
        ensures
            final(self).wf(),
            *m == old(self)@[id as int],
            final(self)@ =~= old(self)@.insert(id as int, *final(m)),
            final(self).spec_len() == old(self).spec_len(),
            final(self).capacity_spec() == old(self).capacity_spec(),
    {
        proof {
            let s = self.slots@;
            assert forall|v: T| occupied_count(s.update(id as int, Some(v))) == occupied_count(
                s,
            ) by {
                lemma_occupied_update(s, id as int, Some(v));
            }
        }
        let slot: &mut Option<T> = &mut self.slots[id];
        match slot {
            Some(v) => v,
            None => vstd::pervasive::unreached(),
        }
    }

    /// Removes and returns the entry under `id`; all other entries keep
    /// their keys and values. A vacant key leaves the arena unchanged.
    pub fn remove(&mut self, id: usize) -> (r: Option<T>)
        requires
            old(self).wf(),
        ensures
            final(self).wf(),
            final(self).capacity_spec() == old(self).capacity_spec(),
            match r {
                Some(v) => old(self)@.dom().contains(id as int) && v == old(self)@[id as int]
                    && final(self)@ =~= old(self)@.remove(id as int) && final(self).spec_len() + 1
                    == old(self).spec_len(),
                None => !old(self)@.dom().contains(id as int) && *final(self) == *old(self),
            },
    {
        if id < self.slots.len() && self.slots[id].is_some() {
            proof {
                lemma_occupied_update(self.slots@, id as int, None::<T>);
            }
            let mut taken: Option<T> = None;
            let slot: &mut Option<T> = &mut self.slots[id];
            core::mem::swap(slot, &mut taken);
            self.count = self.count - 1;
            taken
        } else {
            None
        }
    }

    /// The keys in use, in ascending order.
    #[verifier::loop_isolation(false)]
    pub fn keys(&self) -> (r: Vec<usize>)
        ensures
            forall|j: int| 0 <= j < r@.len() ==> self@.dom().contains(#[trigger] r@[j] as int),
            forall|k: usize| self@.dom().contains(k as int) ==> r@.contains(k),
            forall|j1: int, j2: int| 0 <= j1 < j2 < r@.len() ==> r@[j1] < r@[j2],
    {
        let mut r: Vec<usize> = Vec::new();
        let n: usize = self.slots.len();
        let mut i: usize = 0;
        while i < n
            invariant
                i <= n,
                forall|j: int| 0 <= j < r@.len() ==> self@.dom().contains(#[trigger] r@[j] as int),
                forall|j: int| 0 <= j < r@.len() ==> r@[j] < i,
                forall|k: usize| k < i && self@.dom().contains(k as int) ==> r@.contains(k),
                forall|j1: int, j2: int| 0 <= j1 < j2 < r@.len() ==> r@[j1] < r@[j2],
            decreases n - i,
        {
            let ghost prev = r@;
            if self.slots[i].is_some() {
                r.push(i);
                proof {
                    assert(r@[r@.len() - 1] == i);
                    assert(r@.contains(i));
                }
            }
            proof {
                assert forall|k: usize| prev.contains(k) implies r@.contains(k) by {
                    let j = choose|j: int| 0 <= j < prev.len() && prev[j] == k;
                    assert(r@[j] == k);
                }
                assert forall|k: usize|
                    k < i + 1 && self@.dom().contains(k as int) implies r@.contains(k) by {
                    if k < i {
                        assert(prev.contains(k));
                    } else {
                        assert(k == i);
                    }
                }
            }
            i = i + 1;
        }
        proof {
            assert forall|k: usize| self@.dom().contains(k as int) implies r@.contains(k) by {
                assert(k < n);
            }
        }
        r
    }
}

} // verus!
