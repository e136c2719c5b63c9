use vstd::prelude::*;

verus! {

/// Where the application is running: a native host process or embedded in a
/// browser host. Chosen once at startup and threaded as a value through every
/// environment-dependent decision (backend choice, limit policy, size
/// clamping, host resize requests).
#[derive(Clone, Copy, Debug, PartialEq, Eq, Structural)]
pub enum Environment {
    Native,
    Web,
}

/// The set of graphics backends the context may instantiate.
#[derive(Clone, Copy, Debug, PartialEq, Eq, Structural)]
pub enum BackendSet {
    /// The browser-compatible backend only.
    WebCompatible,
    /// The full set of primary native backends.
    Primary,
}

/// Preference handed to adapter selection.
#[derive(Clone, Copy, Debug, PartialEq, Eq, Structural)]
pub enum PowerPreference {
    NoPreference,
    LowPower,
    HighPerformance,
}

/// Allocator tuning hint forwarded to the backend when the device is
/// requested.
#[derive(Clone, Copy, Debug, PartialEq, Eq, Structural)]
pub enum MemoryHint {
    /// Favor allocation performance over memory usage.
    Performance,
    /// Favor memory usage over allocation performance.
    MemoryUsage,
    /// Explicit suballocation block sizes, smallest to largest.
    Manual { min_block_size: u64, max_block_size: u64 },
}

/// Options recognized when creating a graphics context; both fields have
/// environment defaults.
#[derive(Clone, Copy, Debug, PartialEq, Eq, Structural)]
pub struct ScreenDescriptor {
    pub power_preference: PowerPreference,
    pub memory_hints: MemoryHint,
}

impl Default for ScreenDescriptor {
    fn default() -> (d: Self)
        ensures
            d.power_preference == PowerPreference::NoPreference,
            d.memory_hints == MemoryHint::Performance,
    {
        ScreenDescriptor {
            power_preference: PowerPreference::NoPreference,
            memory_hints: MemoryHint::Performance,
        }
    }
}

/// Backend selection rule: a browser host gets the web-compatible backend,
/// a native host the primary set.
pub open spec fn spec_backend_set_for(env: Environment) -> BackendSet {
    match env {
        Environment::Web => BackendSet::WebCompatible,
        Environment::Native => BackendSet::Primary,
    }
}

pub fn backend_set_for(env: Environment) -> (b: BackendSet)
    ensures
        b == spec_backend_set_for(env),
{
    match env {
        Environment::Web => BackendSet::WebCompatible,
        Environment::Native => BackendSet::Primary,
    }
}

} // verus!
