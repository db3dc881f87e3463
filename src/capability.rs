//! Resolution of the pseudo-console entry points.
//!
//! The console entry points come from an enhanced console library when the
//! host can load one, and otherwise from the system's built-in library. The
//! embedding program loads the modules and looks the symbols up; what it
//! found is handed over as a [`HostProbe`] of plain entry addresses.
use vstd::prelude::*;

verus! {

/// The three console symbols as looked up in one loaded module; `None` where
/// the module does not export the symbol.
#[derive(Clone, Copy, Debug, PartialEq, Eq, Structural)]
pub struct HostModule {
    pub create: Option<usize>,
    pub resize: Option<usize>,
    pub close: Option<usize>,
}

/// What the host offers: the enhanced console library, if it could be
/// loaded, and the built-in system library, if it is present.
#[derive(Clone, Copy, Debug, PartialEq, Eq, Structural)]
pub struct HostProbe {
    pub enhanced: Option<HostModule>,
    pub builtin: Option<HostModule>,
}

/// The resolved entry points that create, resize and close a pseudo-console.
/// A table only exists when all three were found in the selected module.
#[derive(Clone, Copy, Debug, PartialEq, Eq, Structural)]
pub struct ConptyApi {
    pub create: usize,
    pub resize: usize,
    pub close: usize,
}

/// The module whose symbols are used: the enhanced one when it was loaded,
/// else the built-in one.
pub open spec fn selected_module(probe: HostProbe) -> Option<HostModule> {
    if probe.enhanced is Some {
        probe.enhanced
    } else {
        probe.builtin
    }
}

/// The table resolved from a probe, or `None` when the selected module is
/// missing or lacks any of the three symbols.
pub open spec fn resolved(probe: HostProbe) -> Option<ConptyApi> {
    match selected_module(probe) {
        Some(m) => match (m.create, m.resize, m.close) {
            (Some(create), Some(resize), Some(close)) => Some(
                ConptyApi { create, resize, close },
            ),
            _ => None,
        },
        None => None,
    }
}

impl ConptyApi {
    /// Resolves the entry points from the host, or `None` when pseudo-console
    /// support is unavailable. No partial table is ever returned.
    pub fn new(probe: &HostProbe) -> (r: Option<ConptyApi>)
        ensures
            r == resolved(*probe),
    {
        let module = match probe.enhanced {
            Some(m) => Some(m),
            None => probe.builtin,
        };
        match module {
            Some(m) => match (m.create, m.resize, m.close) {
                (Some(create), Some(resize), Some(close)) => Some(
                    ConptyApi { create, resize, close },
                ),
                _ => None,
            },
            None => None,
        }
    }
}

/// The outcome of a resolution through the cache, and the cache after it:
/// a cached outcome is returned as it is, else the probe is resolved and kept.
pub open spec fn cache_step(outcome: Option<Option<ConptyApi>>, probe: HostProbe) -> (
    Option<Option<ConptyApi>>,
    Option<ConptyApi>,
) {
    match outcome {
        Some(o) => (outcome, o),
        None => (Some(resolved(probe)), resolved(probe)),
    }
}

/// A one-time cache of the resolution outcome: the entry points are
/// immutable facts of the host, so they are probed once per process.
#[derive(Clone, Copy, Debug)]
pub struct CapabilityCache {
    pub outcome: Option<Option<ConptyApi>>,
}

impl CapabilityCache {
    pub fn new() -> (r: CapabilityCache)
        ensures
            r.outcome is None,
    {
        CapabilityCache { outcome: None }
    }

    /// The cached outcome, or `None` while the host has not been probed.
    pub fn cached(&self) -> (r: Option<Option<ConptyApi>>)
        ensures
            r == self.outcome,
    {
        self.outcome
    }

    /// Resolves the entry points once; later calls return the first outcome.
    pub fn resolve(&mut self, probe: &HostProbe) -> (r: Option<ConptyApi>)
        ensures
            (final(self).outcome, r) == cache_step(old(self).outcome, *probe),
    {
        match self.outcome {
            Some(o) => o,
            None => {
                let o = ConptyApi::new(probe);
                self.outcome = Some(o);
                o
            },
        }
    }
}

/// Resolution is idempotent: resolving again under the same host gives the
/// same availability outcome and the same entry points, and leaves the cache
/// as the first resolution left it; a fresh cache resolves what the host offers.
pub proof fn lemma_resolution_idempotent(
    outcome: Option<Option<ConptyApi>>,
    first: HostProbe,
    again: HostProbe,
)
    requires
        first == again,
    ensures
        resolved(first) == resolved(again),
        cache_step(cache_step(outcome, first).0, again).1 == cache_step(outcome, first).1,
        cache_step(cache_step(outcome, first).0, again).0 == cache_step(outcome, first).0,
        outcome is None ==> cache_step(outcome, first).1 == resolved(first),
{
}

} // verus!
