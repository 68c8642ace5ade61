use vstd::prelude::*;

use crate::registry::ParameterRegistry;

verus! {

/// Mutable current-value table: one normalized value (as IEEE-754 double
/// bits) per registered parameter.
///
/// Keys are fixed when the store is populated from the registry; `set`
/// overwrites existing entries only and never creates one, so the key set
/// is always a subset of the registry's.  Values are stored as-is: range
/// clamping is a codec concern, not a store concern.
pub struct ParameterStore {
    ids: Vec<u32>,
    values: Vec<u64>,
}

impl View for ParameterStore {
    type V = Map<u32, u64>;

    closed spec fn view(&self) -> Map<u32, u64> {
        Map::new(
            |id: u32| self.spec_contains(id),
            |id: u32| self.values@[self.idx_of(id)],
        )
    }
}

impl ParameterStore {
    /// One value slot per key, keys pairwise distinct.
    pub closed spec fn wf(self) -> bool {
        &&& self.ids@.len() == self.values@.len()
        &&& forall|i: int, j: int|
            0 <= i < self.ids@.len() && 0 <= j < self.ids@.len() && i != j
                ==> self.ids@[i] != self.ids@[j]
    }

    /// The id holds a live value.
    pub closed spec fn spec_contains(self, id: u32) -> bool {
        exists|i: int| 0 <= i < self.ids@.len() && self.ids@[i] == id
    }

    spec fn idx_of(self, id: u32) -> int {
        choose|i: int| 0 <= i < self.ids@.len() && self.ids@[i] == id
    }

    proof fn lemma_slot(self, id: u32, i: int)
        requires
            self.wf(),
            0 <= i < self.ids@.len(),
            self.ids@[i] == id,
        ensures
            self.spec_contains(id),
            self.idx_of(id) == i,
            self@.dom().contains(id),
            self@[id] == self.values@[i],
    {
        assert(self.spec_contains(id));
        let j = self.idx_of(id);
        assert(0 <= j < self.ids@.len() && self.ids@[j] == id);
    }

    /// A fresh store holds no entry at all.
    pub fn new() -> (s: ParameterStore)
        ensures
            s.wf(),
            s@ == Map::<u32, u64>::empty(),
    {
        let s = ParameterStore { ids: Vec::new(), values: Vec::new() };
        proof {
            assert(s@ =~= Map::<u32, u64>::empty());
        }
        s
    }

    /// Creates the entry for a key not yet present.  Population happens
    /// only here, during default initialization and state restoration;
    /// the public mutation path (`set`) never reaches it.
    pub(crate) fn populate(&mut self, id: u32, value_bits: u64)
        requires
            old(self).wf(),
            !old(self)@.dom().contains(id),
        ensures
            final(self).wf(),
            final(self)@ == old(self)@.insert(id, value_bits),
    {
        proof {
            assert(!old(self).spec_contains(id));
        }
        self.ids.push(id);
        self.values.push(value_bits);
        proof {
            let pre = *old(self);
            let n = pre.ids@.len() as int;
            assert(self.ids@ == pre.ids@.push(id));
            assert(self.values@ == pre.values@.push(value_bits));
            assert forall|k: u32| #[trigger] self.spec_contains(k) implies
                k == id || pre.spec_contains(k) by {
                let i = choose|i: int| 0 <= i < self.ids@.len() && self.ids@[i] == k;
                if i < n {
                    assert(pre.ids@[i] == k);
                }
            }
            self.lemma_slot(id, n);
            assert forall|k: u32| pre.spec_contains(k) implies
                self@.dom().contains(k) && (k != id ==> self@[k] == pre@[k]) by {
                let i = choose|i: int| 0 <= i < pre.ids@.len() && pre.ids@[i] == k;
                pre.lemma_slot(k, i);
                self.lemma_slot(k, i);
            }
            assert(self@ =~= pre@.insert(id, value_bits));
        }
    }

    /// Current value lookup; absence exactly for ids that hold no entry.
    /// A lookup never creates an entry.
    pub fn get(&self, id: u32) -> (r: Option<u64>)
        requires
            self.wf(),
        ensures
            match r {
                Some(v) => self@.dom().contains(id) && v == self@[id],
                None => !self@.dom().contains(id),
            },
    {
        let n = self.ids.len();
        let mut i: usize = 0;
        while i < n
            invariant
                self.wf(),
                n == self.ids@.len(),
                i <= n,
                forall|p: int| 0 <= p < i ==> self.ids@[p] != id,
            decreases n - i,
        {
            if self.ids[i] == id {
                proof {
                    self.lemma_slot(id, i as int);
                }
                return Some(self.values[i]);
            }
            i += 1;
        }
        proof {
            assert(!self.spec_contains(id));
        }
        None
    }

    /// Overwrites the value of an existing entry and reports whether the
    /// id existed: `true` means existed-and-updated, `false` means the id
    /// is unknown and nothing was written.  The success signal is about
    /// key existence only; the value itself is stored unchecked.
    pub fn set(&mut self, id: u32, value_bits: u64) -> (r: bool)
        requires
            old(self).wf(),
        ensures
            final(self).wf(),
            r == old(self)@.dom().contains(id),
            r ==> final(self)@ == old(self)@.insert(id, value_bits),
            !r ==> final(self)@ == old(self)@,
    {
        let n = self.ids.len();
        let mut i: usize = 0;
        while i < n
            invariant
                self.wf(),
                *self == *old(self),
                n == self.ids@.len(),
                i <= n,
                forall|p: int| 0 <= p < i ==> self.ids@[p] != id,
            decreases n - i,
        {
            if self.ids[i] == id {
                proof {
                    old(self).lemma_slot(id, i as int);
                }
                self.values.set(i, value_bits);
                proof {
                    let pre = *old(self);
                    assert(self.ids@ == pre.ids@);
                    assert(self.values@ == pre.values@.update(i as int, value_bits));
                    self.lemma_slot(id, i as int);
                    assert forall|k: u32| pre.spec_contains(k) && k != id implies
                        self@.dom().contains(k) && self@[k] == pre@[k] by {
                        let p = choose|p: int| 0 <= p < pre.ids@.len() && pre.ids@[p] == k;
                        pre.lemma_slot(k, p);
                        self.lemma_slot(k, p);
                    }
                    assert forall|k: u32| #[trigger] self.spec_contains(k) implies
                        pre.spec_contains(k) by {}
                    assert(self@ =~= pre@.insert(id, value_bits));
                }
                return true;
            }
            i += 1;
        }
        proof {
            assert(!self.spec_contains(id));
        }
        false
    }

    /// Existed/not-existed signal of `set` on a freshly populated store:
    /// for a store holding exactly the registry's key set (what
    /// `initialized` ensures), `set` reports updated exactly for
    /// registered ids, and an unregistered id holds no value — so by the
    /// contract of `set` a failed write changes nothing and a lookup of
    /// that id stays absent afterwards.
    pub proof fn lemma_set_signal(s: ParameterStore, reg: &ParameterRegistry, id: u32)
        requires
            s.wf(),
            reg.wf(),
            forall|k: u32| #[trigger] s@.dom().contains(k) <==> reg.spec_contains(k),
        ensures
            reg.spec_contains(id) ==> s@.dom().contains(id),
            !reg.spec_contains(id) ==> !s@.dom().contains(id),
    {
    }

    /// Builds the store holding exactly the registry's key set, each id at
    /// its definition's default normalized value.
    pub fn initialized(reg: &ParameterRegistry) -> (s: ParameterStore)
        requires
            reg.wf(),
        ensures
            s.wf(),
            forall|id: u32| #[trigger] s@.dom().contains(id) <==> reg.spec_contains(id),
            forall|id: u32|
                reg.spec_contains(id) ==> s@[id] == reg.def_of(id).default_value_bits,
    {
        let mut s = ParameterStore::new();
        let n = reg.count();
        let mut i: usize = 0;
        while i < n
            invariant
                reg.wf(),
                s.wf(),
                n == reg@.len(),
                i <= n,
                forall|id: u32| #[trigger] s@.dom().contains(id)
                    <==> exists|p: int| 0 <= p < i && reg@[p].id == id,
                forall|p: int| 0 <= p < i
                    ==> s@.dom().contains(#[trigger] reg@[p].id)
                        && s@[reg@[p].id] == reg@[p].default_value_bits,
            decreases n - i,
        {
            let def = reg.def_at(i);
            proof {
                if s@.dom().contains(def.id) {
                    let p = choose|p: int| 0 <= p < i && reg@[p].id == def.id;
                    assert(reg@[p].id == reg@[i as int].id && p != i);
                    assert(false);
                }
            }
            s.populate(def.id, def.default_value_bits);
            i += 1;
        }
        proof {
            assert forall|id: u32| reg.spec_contains(id) implies
                s@[id] == reg.def_of(id).default_value_bits by {
                let p = reg.position_of(id);
                assert(0 <= p < n && reg@[p].id == id);
            }
        }
        s
    }
}

} // verus!
