use vstd::prelude::*;

use crate::errors::CoreError;
use crate::params::{ParamId, ParameterDefinition};

verus! {

/// Static description of every control of the plugin.
///
/// The order of `defs` is the canonical order: the fixed, deterministic
/// enumeration over parameter identities used wherever state order matters
/// (serialization, default population).  It is fixed once at construction
/// and never changes afterwards, because the persisted state format
/// correlates values to identities by position alone.
pub struct ParameterRegistry {
    defs: Vec<ParameterDefinition>,
}

impl View for ParameterRegistry {
    type V = Seq<ParameterDefinition>;

    closed spec fn view(&self) -> Seq<ParameterDefinition> {
        self.defs@
    }
}

impl ParameterRegistry {
    /// Identities are unique: no id occurs at two positions.
    pub open spec fn wf(self) -> bool {
        forall|i: int, j: int|
            0 <= i < self@.len() && 0 <= j < self@.len() && i != j ==> self@[i].id != self@[j].id
    }

    /// The id is registered.
    pub open spec fn spec_contains(self, id: u32) -> bool {
        exists|i: int| 0 <= i < self@.len() && self@[i].id == id
    }

    /// Position of a registered id in the canonical order.
    pub open spec fn position_of(self, id: u32) -> int {
        choose|i: int| 0 <= i < self@.len() && self@[i].id == id
    }

    /// Definition of a registered id.
    pub open spec fn def_of(self, id: u32) -> ParameterDefinition {
        self@[self.position_of(id)]
    }

    /// A registered id has exactly one position, and it is `position_of`.
    pub proof fn lemma_position_unique(self, id: u32, i: int)
        requires
            self.wf(),
            0 <= i < self@.len(),
            self@[i].id == id,
        ensures
            self.spec_contains(id),
            self.position_of(id) == i,
    {
        assert(self.spec_contains(id));
        let j = self.position_of(id);
        assert(0 <= j < self@.len() && self@[j].id == id);
    }

    /// Builds the registry from the full set of definitions, in canonical
    /// order.  Succeeds exactly when the ids are pairwise distinct;
    /// duplicate ids are rejected with `InvalidArgument`.
    pub fn define(defs: Vec<ParameterDefinition>) -> (r: Result<ParameterRegistry, CoreError>)
        ensures
            match r {
                Ok(reg) => reg@ == defs@ && reg.wf(),
                Err(e) => e == CoreError::InvalidArgument && !(forall|i: int, j: int|
                    0 <= i < defs@.len() && 0 <= j < defs@.len() && i != j
                        ==> defs@[i].id != defs@[j].id),
            },
    {
        let n = defs.len();
        let mut i: usize = 0;
        while i < n
            invariant
                n == defs@.len(),
                i <= n,
                forall|p: int, q: int| 0 <= p < i && p < q < n ==> defs@[p].id != defs@[q].id,
            decreases n - i,
        {
            let mut j: usize = i + 1;
            while j < n
                invariant
                    n == defs@.len(),
                    i < j <= n || (i >= n && j >= n),
                    i < n,
                    forall|q: int| i < q < j ==> defs@[i as int].id != defs@[q].id,
                decreases n - j,
            {
                if defs[i].id == defs[j].id {
                    assert(!(forall|p: int, q: int|
                        0 <= p < defs@.len() && 0 <= q < defs@.len() && p != q
                            ==> defs@[p].id != defs@[q].id));
                    return Err(CoreError::InvalidArgument);
                }
                j += 1;
            }
            i += 1;
        }
        assert(forall|p: int, q: int|
            0 <= p < n && 0 <= q < n && p != q ==> defs@[p].id != defs@[q].id) by {
            assert(forall|p: int, q: int| 0 <= p < q < n ==> defs@[p].id != defs@[q].id);
        }
        Ok(ParameterRegistry { defs })
    }

    /// Number of registered parameters.
    pub fn count(&self) -> (r: usize)
        ensures
            r == self@.len(),
    {
        self.defs.len()
    }

    /// Metadata lookup: the definition for `id`, absent exactly when the id
    /// was never registered.
    pub fn get(&self, id: u32) -> (r: Option<&ParameterDefinition>)
        requires
            self.wf(),
        ensures
            match r {
                Some(def) => self.spec_contains(id) && *def == self.def_of(id),
                None => !self.spec_contains(id),
            },
    {
        let n = self.defs.len();
        let mut i: usize = 0;
        while i < n
            invariant
                self.wf(),
                n == self@.len(),
                i <= n,
                forall|p: int| 0 <= p < i ==> self@[p].id != id,
            decreases n - i,
        {
            if self.defs[i].id == id {
                proof {
                    self.lemma_position_unique(id, i as int);
                }
                return Some(&self.defs[i]);
            }
            i += 1;
        }
        None
    }

    /// The id standing at position `index` of the canonical order.
    pub fn id_at(&self, index: usize) -> (r: u32)
        requires
            index < self@.len(),
        ensures
            r == self@[index as int].id,
    {
        self.defs[index].id
    }

    /// The definition standing at position `index` of the canonical order.
    pub fn def_at(&self, index: usize) -> (r: &ParameterDefinition)
        requires
            index < self@.len(),
        ensures
            *r == self@[index as int],
    {
        &self.defs[index]
    }

    /// Partial direction of the identity conversion: a host integer maps to
    /// a `ParamId` exactly when it names a registered parameter; any other
    /// value reports `InvalidId`.
    pub fn id_from_native(&self, raw: u32) -> (r: Result<ParamId, CoreError>)
        requires
            self.wf(),
        ensures
            match r {
                Ok(pid) => self.spec_contains(raw) && pid.raw == raw,
                Err(e) => e == CoreError::InvalidId && !self.spec_contains(raw),
            },
    {
        match self.get(raw) {
            Some(_) => Ok(ParamId { raw }),
            None => Err(CoreError::InvalidId),
        }
    }
}

} // verus!
