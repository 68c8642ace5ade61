use vstd::prelude::*;

verus! {

/// Identity of one automatable control.
///
/// A `ParamId` exists only for a registered parameter: the fallible
/// direction of the host-integer conversion lives on the registry
/// (`ParameterRegistry::id_from_native`), while `to_native` is total and
/// lossless.
#[derive(Clone, Copy, PartialEq, Eq, Structural, Debug)]
pub struct ParamId {
    pub raw: u32,
}

impl ParamId {
    /// Lossless conversion back to the host's native identifier.
    pub fn to_native(self) -> (r: u32)
        ensures
            r == self.raw,
    {
        self.raw
    }
}

/// Shape of the normalized-to-plain mapping of one parameter.
#[derive(Clone, Copy, PartialEq, Eq, Structural, Debug)]
pub enum CurveKind {
    /// `plain = min + n * (max - min)`.
    Linear,
    /// `plain = min * (max / min) ^ n`.
    Logarithmic,
}

/// Plain-value range and curve used by the value codec.
///
/// The endpoints are carried as IEEE-754 double bit patterns; the dispatch
/// layer evaluates the curve in floating point, the core only selects and
/// hands out the rule.
#[derive(Clone, Copy, PartialEq, Eq, Structural, Debug)]
pub struct ConversionRule {
    pub kind: CurveKind,
    pub min_bits: u64,
    pub max_bits: u64,
}

/// Immutable description of one parameter: identity, labels, step count
/// (0 = continuous), default normalized value (as double bits), automation
/// capability, and the conversion rule.  Created once at registry
/// construction and never mutated.
pub struct ParameterDefinition {
    pub id: u32,
    pub title: String,
    pub short_title: String,
    pub units: String,
    pub step_count: u32,
    pub default_value_bits: u64,
    pub can_automate: bool,
    pub rule: ConversionRule,
}

} // verus!
