//! Selection of a configuration profile under either calling convention.
use vstd::prelude::*;
use crate::bindings::fiftyoneDegreesConfigIpi;

verus! {

/// The memory / performance trade-offs the engine offers.
#[derive(Clone, Copy, Debug, PartialEq, Eq, Structural)]
pub enum Profile {
    InMemory,
    LowMemory,
    Balanced,
}

impl Default for Profile {
    /// The profile used when the caller names none.
    fn default() -> (profile: Self)
        ensures
            profile == Profile::LowMemory,
    {
        Profile::LowMemory
    }
}

/// The two ways in which the engine is linked.
#[derive(Clone, Copy, Debug, PartialEq, Eq, Structural)]
pub enum CallingConvention {
    /// Helper routines are linked in beside the engine.
    Native,
    /// Only the engine's own entry points exist, as on a sandboxed bytecode target.
    Constrained,
}

/// How the initialiser is handed its configuration.
#[derive(Clone, Copy, Debug, PartialEq, Eq, Structural)]
pub enum ConfigBinding {
    /// A local copy of the profile's global constant, which the initialiser may change
    /// without touching the global.
    LocalCopy(Profile),
    /// The address of the profile's global constant, lent to the initialiser for the
    /// one call.
    GlobalAddress(Profile),
}

impl ConfigBinding {
    /// The profile that is bound.
    pub open spec fn spec_profile(&self) -> Profile {
        match *self {
            ConfigBinding::LocalCopy(profile) => profile,
            ConfigBinding::GlobalAddress(profile) => profile,
        }
    }

    #[verifier::when_used_as_spec(spec_profile)]
    pub fn profile(&self) -> (profile: Profile)
        ensures
            profile == self.spec_profile(),
    {
        match *self {
            ConfigBinding::LocalCopy(profile) => profile,
            ConfigBinding::GlobalAddress(profile) => profile,
        }
    }
}

/// The binding that `convention` calls for: a copy where the helper routines exist,
/// the global itself where they do not.
pub open spec fn spec_select(profile: Profile, convention: CallingConvention) -> ConfigBinding {
    match convention {
        CallingConvention::Native => ConfigBinding::LocalCopy(profile),
        CallingConvention::Constrained => ConfigBinding::GlobalAddress(profile),
    }
}

/// Resolves a profile into the configuration value handed to initialisation. Selection
/// cannot fail.
#[verifier::when_used_as_spec(spec_select)]
pub fn select(profile: Profile, convention: CallingConvention) -> (binding: ConfigBinding)
    ensures
        binding == spec_select(profile, convention),
{
    match convention {
        CallingConvention::Native => ConfigBinding::LocalCopy(profile),
        CallingConvention::Constrained => ConfigBinding::GlobalAddress(profile),
    }
}

/// Copies a configuration blob byte for byte, leaving the source as it was.
pub fn copy_config(config: &fiftyoneDegreesConfigIpi) -> (copy: fiftyoneDegreesConfigIpi)
    ensures
        copy == *config,
{
    *config
}

} // verus!
