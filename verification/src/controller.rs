use vstd::prelude::*;

use crate::errors::CoreError;
use crate::params::{ConversionRule, ParameterDefinition};
use crate::registry::ParameterRegistry;
use crate::state::{read_u64_le, u64_from_le};
use crate::store::ParameterStore;
use crate::text::{check_number_literal, is_number_literal};

verus! {

use vstd::string::StringSliceAdditionalSpecFns;

/// Lifecycle of the controller: created `Uninitialized`, armed by
/// `initialize`, retired by `terminate`.
#[derive(Clone, Copy, PartialEq, Eq, Structural, Debug)]
pub enum Phase {
    Uninitialized,
    Initialized,
    Terminated,
}

/// The host-facing operation surface over the registry, store and state
/// serializer: lifecycle, metadata queries, value get/set, conversion and
/// string-handling decisions, and component-state load.
///
/// Values cross this surface as IEEE-754 double bit patterns; the
/// dispatch layer around the crate evaluates conversion curves and renders
/// strings in floating point, steered by the rules this facade hands out.
pub struct PiSynthController {
    phase: Phase,
    registry: ParameterRegistry,
    store: ParameterStore,
}

impl PiSynthController {
    /// Current lifecycle phase.
    pub closed spec fn spec_phase(self) -> Phase {
        self.phase
    }

    /// The registry the controller was built over.
    pub closed spec fn spec_registry(self) -> ParameterRegistry {
        self.registry
    }

    /// The live value table.
    pub closed spec fn spec_values(self) -> Map<u32, u64> {
        self.store@
    }

    /// Registry and store are well formed, and the store never holds a key
    /// outside the registered set.
    pub closed spec fn wf(self) -> bool {
        &&& self.registry.wf()
        &&& self.store.wf()
        &&& forall|id: u32| #[trigger]
            self.store@.dom().contains(id) ==> self.registry.spec_contains(id)
    }

    /// Current lifecycle phase.
    pub fn get_phase(&self) -> (r: Phase)
        ensures
            r == self.spec_phase(),
    {
        self.phase
    }

    /// A fresh controller: uninitialized, no values yet.
    pub fn new(registry: ParameterRegistry) -> (c: PiSynthController)
        requires
            registry.wf(),
        ensures
            c.wf(),
            c.spec_phase() == Phase::Uninitialized,
            c.spec_registry() == registry,
            c.spec_values() == Map::<u32, u64>::empty(),
    {
        PiSynthController { phase: Phase::Uninitialized, registry, store: ParameterStore::new() }
    }

    /// Lifecycle entry.  From `Uninitialized` it populates the value table
    /// with every definition's default and becomes `Initialized`; from any
    /// other phase it is a no-op success.
    pub fn initialize(&mut self) -> (r: Result<(), CoreError>)
        requires
            old(self).wf(),
        ensures
            final(self).wf(),
            r == Ok::<(), CoreError>(()),
            final(self).spec_registry() == old(self).spec_registry(),
            old(self).spec_phase() == Phase::Uninitialized ==> {
                &&& final(self).spec_phase() == Phase::Initialized
                &&& forall|id: u32| #[trigger] final(self).spec_values().dom().contains(id)
                    <==> old(self).spec_registry().spec_contains(id)
                &&& forall|id: u32|
                    old(self).spec_registry().spec_contains(id)
                        ==> final(self).spec_values()[id]
                            == old(self).spec_registry().def_of(id).default_value_bits
            },
            old(self).spec_phase() != Phase::Uninitialized ==> *final(self) == *old(self),
    {
        match self.phase {
            Phase::Uninitialized => {
                self.store = ParameterStore::initialized(&self.registry);
                self.phase = Phase::Initialized;
                Ok(())
            },
            _ => Ok(()),
        }
    }

    /// Lifecycle exit: always succeeds; registry and values keep their
    /// lifetime with the controller instance, so nothing is released.
    pub fn terminate(&mut self) -> (r: Result<(), CoreError>)
        requires
            old(self).wf(),
        ensures
            final(self).wf(),
            r == Ok::<(), CoreError>(()),
            final(self).spec_phase() == Phase::Terminated,
            final(self).spec_registry() == old(self).spec_registry(),
            final(self).spec_values() == old(self).spec_values(),
    {
        self.phase = Phase::Terminated;
        Ok(())
    }

    /// Number of registered parameters.
    pub fn get_parameter_count(&self) -> (r: usize)
        requires
            self.wf(),
        ensures
            r == self.spec_registry()@.len(),
    {
        self.registry.count()
    }

    /// Metadata snapshot for `id`; an id outside the registered set
    /// reports `InvalidArgument` and hands nothing out.
    pub fn get_parameter_info(&self, id: u32) -> (r: Result<&ParameterDefinition, CoreError>)
        requires
            self.wf(),
        ensures
            match r {
                Ok(def) => self.spec_registry().spec_contains(id)
                    && *def == self.spec_registry().def_of(id),
                Err(e) => e == CoreError::InvalidArgument
                    && !self.spec_registry().spec_contains(id),
            },
    {
        match self.registry.get(id) {
            Some(def) => Ok(def),
            None => Err(CoreError::InvalidArgument),
        }
    }

    /// Current normalized value of `id` as double bits, or the neutral 0.0
    /// image (all bits zero) for an id holding no value — a plain numeric
    /// query never fails host-visibly.
    pub fn get_param_normalized(&self, id: u32) -> (r: u64)
        requires
            self.wf(),
        ensures
            r == if self.spec_values().dom().contains(id) {
                self.spec_values()[id]
            } else {
                0u64
            },
    {
        match self.store.get(id) {
            Some(v) => v,
            None => 0,
        }
    }

    /// Overwrites the normalized value of `id` and reports whether the id
    /// existed; an unknown id reports failure and writes nothing.  The
    /// value is stored as-is: clamping is the codec's concern.
    pub fn set_param_normalized(&mut self, id: u32, value_bits: u64) -> (r: bool)
        requires
            old(self).wf(),
        ensures
            final(self).wf(),
            final(self).spec_phase() == old(self).spec_phase(),
            final(self).spec_registry() == old(self).spec_registry(),
            r == old(self).spec_values().dom().contains(id),
            r ==> final(self).spec_values() == old(self).spec_values().insert(id, value_bits),
            !r ==> final(self).spec_values() == old(self).spec_values(),
    {
        let r = self.store.set(id, value_bits);
        proof {
            if r {
                assert forall|k: u32| #[trigger] self.store@.dom().contains(k) implies
                    self.registry.spec_contains(k) by {
                    assert(old(self).store@.insert(id, value_bits).dom()
                        =~= old(self).store@.dom().insert(id));
                }
            }
        }
        r
    }

    /// Loads a persisted component-state blob: one 8-byte little-endian
    /// double per parameter, in registry canonical order.  An empty stream
    /// is rejected at once; a stream shorter than the registered count is
    /// abandoned with `ReadFailure`, with the values read before the
    /// shortage already applied.  Only ids holding a value are written:
    /// the key set never grows.
    pub fn set_component_state(&mut self, bytes: &[u8]) -> (r: Result<(), CoreError>)
        requires
            old(self).wf(),
        ensures
            final(self).wf(),
            final(self).spec_phase() == old(self).spec_phase(),
            final(self).spec_registry() == old(self).spec_registry(),
            match r {
                Ok(_) => bytes@.len() > 0
                    && 8 * old(self).spec_registry()@.len() <= bytes@.len(),
                Err(e) => e == CoreError::ReadFailure
                    && (bytes@.len() == 0
                        || 8 * old(self).spec_registry()@.len() > bytes@.len()),
            },
            forall|id: u32| #[trigger] final(self).spec_values().dom().contains(id)
                <==> old(self).spec_values().dom().contains(id),
            forall|p: int|
                0 <= p < old(self).spec_registry()@.len() && 8 * p + 8 <= bytes@.len()
                    && old(self).spec_values().dom().contains(
                    #[trigger] old(self).spec_registry()@[p].id)
                    ==> final(self).spec_values()[old(self).spec_registry()@[p].id]
                        == u64_from_le(bytes@.subrange(8 * p, 8 * p + 8)),
            forall|id: u32|
                old(self).spec_values().dom().contains(id) && !(exists|p: int|
                    0 <= p < old(self).spec_registry()@.len() && 8 * p + 8 <= bytes@.len()
                        && old(self).spec_registry()@[p].id == id)
                    ==> #[trigger] final(self).spec_values()[id]
                        == old(self).spec_values()[id],
    {
        if bytes.len() == 0 {
            return Err(CoreError::ReadFailure);
        }
        let n = self.registry.count();
        let mut p: usize = 0;
        let mut off: usize = 0;
        while p < n && bytes.len() - off >= 8
            invariant
                old(self).wf(),
                self.wf(),
                self.phase == old(self).phase,
                self.registry == old(self).registry,
                n == self.registry@.len(),
                p <= n,
                off == 8 * p,
                off <= bytes@.len() || p == 0,
                forall|id: u32| #[trigger] self.store@.dom().contains(id)
                    <==> old(self).store@.dom().contains(id),
                forall|q: int|
                    0 <= q < p && old(self).store@.dom().contains(
                        #[trigger] self.registry@[q].id)
                        ==> self.store@[self.registry@[q].id]
                            == u64_from_le(bytes@.subrange(8 * q, 8 * q + 8)),
                forall|id: u32|
                    old(self).store@.dom().contains(id) && !(exists|q: int|
                        0 <= q < p && self.registry@[q].id == id)
                        ==> #[trigger] self.store@[id] == old(self).store@[id],
            decreases n - p,
        {
            let id = self.registry.id_at(p);
            let v = read_u64_le(bytes, off);
            let ghost pre = self.store@;
            self.store.set(id, v);
            proof {
                if pre.dom().contains(id) {
                    assert(self.store@ == pre.insert(id, v));
                    assert(self.store@.dom() =~= pre.dom().insert(id));
                }
                assert forall|q: int|
                    0 <= q < p + 1 && old(self).store@.dom().contains(
                        #[trigger] self.registry@[q].id) implies
                    self.store@[self.registry@[q].id]
                        == u64_from_le(bytes@.subrange(8 * q, 8 * q + 8)) by {
                    if q < p {
                        assert(self.registry@[q].id != id);
                    }
                }
            }
            p += 1;
            off += 8;
        }
        if p == n {
            Ok(())
        } else {
            proof {
                assert(8 * (p as int) + 8 > bytes@.len());
            }
            Err(CoreError::ReadFailure)
        }
    }

    /// Full-plugin-state load: deliberately a no-op success in the
    /// baseline — program state is limited to what the component-state
    /// load already carries.
    pub fn set_state(&self) -> (r: Result<(), CoreError>)
        ensures
            r == Ok::<(), CoreError>(()),
    {
        Ok(())
    }

    /// Full-plugin-state save: deliberately a no-op success, mirroring
    /// `set_state`.
    pub fn get_state(&self) -> (r: Result<(), CoreError>)
        ensures
            r == Ok::<(), CoreError>(()),
    {
        Ok(())
    }

    /// String-rendering decision for `id`: hands the definition (rule,
    /// unit label, step count) to the dispatch layer, which renders the
    /// plain value in floating point.  An unknown id is a distinct,
    /// host-visible failure, not a silent fallback.
    pub fn format_request(&self, id: u32) -> (r: Result<&ParameterDefinition, CoreError>)
        requires
            self.wf(),
        ensures
            match r {
                Ok(def) => self.spec_registry().spec_contains(id)
                    && *def == self.spec_registry().def_of(id),
                Err(e) => e == CoreError::NotFound && !self.spec_registry().spec_contains(id),
            },
    {
        match self.registry.get(id) {
            Some(def) => Ok(def),
            None => Err(CoreError::NotFound),
        }
    }

    /// String-parsing decision for `id` and `text`: an unknown id reports
    /// `NotFound`; text that is not a signed decimal literal reports
    /// `ParseFailure`.  Otherwise the parameter's conversion rule comes
    /// back and the dispatch layer turns the digits into a plain value,
    /// clamping — never rejecting — an out-of-range result.
    pub fn parse_request<'a>(&'a self, id: u32, text: &str) -> (r: Result<
        &'a ConversionRule,
        CoreError,
    >)
        requires
            self.wf(),
        ensures
            match r {
                Ok(rule) => self.spec_registry().spec_contains(id)
                    && *rule == self.spec_registry().def_of(id).rule
                    && is_number_literal(text.spec_bytes()),
                Err(e) => {
                    ||| (e == CoreError::NotFound && !self.spec_registry().spec_contains(id))
                    ||| (e == CoreError::ParseFailure
                        && self.spec_registry().spec_contains(id)
                        && !is_number_literal(text.spec_bytes()))
                },
            },
    {
        match self.registry.get(id) {
            Some(def) => {
                if check_number_literal(text) {
                    Ok(&def.rule)
                } else {
                    Err(CoreError::ParseFailure)
                }
            },
            None => Err(CoreError::NotFound),
        }
    }

    /// Conversion rule for the pure numeric queries (normalized-to-plain
    /// and plain-to-normalized).  `None` stands for an unknown id: the
    /// dispatch layer then answers with the neutral 0.0 instead of an
    /// error, so a cosmetic computation never traps the host.
    pub fn conversion_rule(&self, id: u32) -> (r: Option<&ConversionRule>)
        requires
            self.wf(),
        ensures
            match r {
                Some(rule) => self.spec_registry().spec_contains(id)
                    && *rule == self.spec_registry().def_of(id).rule,
                None => !self.spec_registry().spec_contains(id),
            },
    {
        match self.registry.get(id) {
            Some(def) => Some(&def.rule),
            None => None,
        }
    }

    /// The host's component handler is accepted and discarded: the core
    /// sends no outbound notifications.
    pub fn set_component_handler(&self) -> (r: Result<(), CoreError>)
        ensures
            r == Ok::<(), CoreError>(()),
    {
        Ok(())
    }

    /// Exactly one unit.
    pub fn get_unit_count(&self) -> (r: i32)
        ensures
            r == 1i32,
    {
        1
    }

    /// The root unit is always the selected one.
    pub fn get_selected_unit(&self) -> (r: i32)
        ensures
            r == 0i32,
    {
        0
    }

    /// Unit selection is not supported.
    pub fn select_unit(&self, _unit_id: i32) -> (r: bool)
        ensures
            !r,
    {
        false
    }

    /// No program lists.
    pub fn get_program_list_count(&self) -> (r: i32)
        ensures
            r == 0i32,
    {
        0
    }

    /// No pitch names for any program.
    pub fn has_program_pitch_names(&self, _list_id: i32, _program_index: i32) -> (r: bool)
        ensures
            !r,
    {
        false
    }

    /// No per-unit metadata beyond the count: the query always fails.
    pub fn get_unit_info(&self, _unit_index: i32) -> (r: bool)
        ensures
            !r,
    {
        false
    }

    /// No program lists, so no program-list metadata.
    pub fn get_program_list_info(&self, _list_index: i32) -> (r: bool)
        ensures
            !r,
    {
        false
    }

    /// No program names.
    pub fn get_program_name(&self, _list_id: i32, _program_index: i32) -> (r: bool)
        ensures
            !r,
    {
        false
    }

    /// No program attributes.
    pub fn get_program_info(&self, _list_id: i32, _program_index: i32) -> (r: bool)
        ensures
            !r,
    {
        false
    }

    /// No program pitch names.
    pub fn get_program_pitch_name(&self, _list_id: i32, _program_index: i32, _pitch: i16) -> (r:
        bool)
        ensures
            !r,
    {
        false
    }

    /// No bus-to-unit mapping.
    pub fn get_unit_by_bus(&self, _bus_type: i32, _dir: i32, _index: i32, _channel: i32) -> (r:
        bool)
        ensures
            !r,
    {
        false
    }

    /// Program data cannot be pushed into a unit.
    pub fn set_unit_program_data(&self, _list_or_unit: i32, _program_index: i32) -> (r: bool)
        ensures
            !r,
    {
        false
    }
}

} // verus!
