//! Values that the compiler enumerates.
//!
//! The compiler numbers its source languages, pipeline stages, code
//! generation targets and the like, and the numbering belongs to it. The host
//! carries such a value as the number it was given and never reads a meaning
//! into it.
use vstd::prelude::*;

verus! {

/// The number of a profile, as the global session found it by name.
#[derive(Clone, Copy, Debug, PartialEq, Eq, Structural)]
pub struct ProfileID(pub u32);

/// The number of a capability, as the global session found it by name.
#[derive(Clone, Copy, Debug, PartialEq, Eq, Structural)]
pub struct CapabilityID(pub i32);

/// The number of a code generation target.
#[derive(Clone, Copy, Debug, PartialEq, Eq, Structural)]
pub struct CompileTarget(pub i32);

/// The number of a source language.
#[derive(Clone, Copy, Debug, PartialEq, Eq, Structural)]
pub struct SourceLanguage(pub i32);

/// The number of a pipeline stage.
#[derive(Clone, Copy, Debug, PartialEq, Eq, Structural)]
pub struct Stage(pub i32);

/// The number of a floating-point mode.
#[derive(Clone, Copy, Debug, PartialEq, Eq, Structural)]
pub struct FloatingPointMode(pub i32);

/// The number of a level of debug information.
#[derive(Clone, Copy, Debug, PartialEq, Eq, Structural)]
pub struct DebugInfoLevel(pub i32);

/// The number of a way to emit line directives.
#[derive(Clone, Copy, Debug, PartialEq, Eq, Structural)]
pub struct LineDirectiveMode(pub i32);

/// The number of an optimization level.
#[derive(Clone, Copy, Debug, PartialEq, Eq, Structural)]
pub struct OptimizationLevel(pub i32);

impl ProfileID {
    /// The profile that a name which the compiler does not know resolves to.
    pub fn unknown() -> (profile: ProfileID)
        ensures
            profile == ProfileID(0),
    {
        ProfileID(0)
    }
}

impl CapabilityID {
    /// The capability that a name which the compiler does not know resolves to.
    pub fn unknown() -> (capability: CapabilityID)
        ensures
            capability == CapabilityID(0),
    {
        CapabilityID(0)
    }
}

} // verus!
