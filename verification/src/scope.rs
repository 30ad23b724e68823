use vstd::prelude::*;

use crate::text::str_eq;

verus! {

/// Scope value used by the measurements endpoint.
///
/// [`MeasurementScope::LpnJson`] is the default scope.
#[derive(Debug, Clone, PartialEq, Eq)]
pub enum MeasurementScope {
    /// Standard LPN JSON payload (`lpn-json`).
    LpnJson,
    /// Extended GC+ JSON payload (`gc-plus-json`).
    GcPlusJson,
    /// Custom raw scope string for unsupported or future API scopes.
    Custom(String),
}

/// The raw scope string a scope value stands for.
pub open spec fn spec_scope_str(s: MeasurementScope) -> Seq<char> {
    match s {
        MeasurementScope::LpnJson => "lpn-json"@,
        MeasurementScope::GcPlusJson => "gc-plus-json"@,
        MeasurementScope::Custom(value) => value@,
    }
}

/// The typed scope that the raw string `text` maps to: the dedicated
/// variant for a known scope, and `Custom` carrying `text` otherwise.
pub open spec fn scope_maps_to(text: Seq<char>, s: MeasurementScope) -> bool {
    if text == "lpn-json"@ {
        s is LpnJson
    } else if text == "gc-plus-json"@ {
        s is GcPlusJson
    } else {
        s matches MeasurementScope::Custom(value) && value@ == text
    }
}

impl MeasurementScope {
    /// Return the raw API scope value.
    pub fn as_str(&self) -> (r: &str)
        ensures
            r@ == spec_scope_str(*self),
    {
        match self {
            Self::LpnJson => "lpn-json",
            Self::GcPlusJson => "gc-plus-json",
            Self::Custom(value) => value.as_str(),
        }
    }

    /// Map a raw scope string to its typed value, keeping unknown
    /// scopes verbatim.
    pub fn from(value: &str) -> (r: Self)
        ensures
            scope_maps_to(value@, r),
    {
        if str_eq(value, "lpn-json") {
            Self::LpnJson
        } else if str_eq(value, "gc-plus-json") {
            Self::GcPlusJson
        } else {
            Self::Custom(value.to_owned())
        }
    }
}

impl Default for MeasurementScope {
    /// The default scope is `lpn-json`.
    fn default() -> (r: Self)
        ensures
            r is LpnJson,
    {
        Self::LpnJson
    }
}

/// Input accepted by the measurements scope builder: a typed scope is
/// kept as it is, a raw string maps as [`MeasurementScope::from`] does.
pub trait ScopeInput {
    /// What the builder may store for this input.
    spec fn scope_result(&self, r: MeasurementScope) -> bool;

    /// Turn the value into a typed scope.
    fn into_scope(self) -> (r: MeasurementScope)
        ensures
            self.scope_result(r),
    ;
}

impl ScopeInput for MeasurementScope {
    open spec fn scope_result(&self, r: MeasurementScope) -> bool {
        r == *self
    }

    fn into_scope(self) -> (r: MeasurementScope) {
        self
    }
}

impl<'a> ScopeInput for &'a str {
    open spec fn scope_result(&self, r: MeasurementScope) -> bool {
        scope_maps_to(self@, r)
    }

    fn into_scope(self) -> (r: MeasurementScope) {
        MeasurementScope::from(self)
    }
}

impl ScopeInput for String {
    open spec fn scope_result(&self, r: MeasurementScope) -> bool {
        scope_maps_to(self@, r)
    }

    fn into_scope(self) -> (r: MeasurementScope) {
        MeasurementScope::from(self.as_str())
    }
}

} // verus!
