//! The taxonomy of invocation-aborting conditions.
//!
//! No failure is retried or recovered mid-invocation: each aborts the
//! invocation immediately and no partial output is returned. The host
//! boundary renders one terminal abort message per failure.

use vstd::prelude::*;
use vstd::string::*;

verus! {

/// Why a compile invocation aborted.
#[derive(Debug, Clone, Copy, PartialEq, Eq, Structural)]
pub enum FailureKind {
    /// A configuration field was present but of the wrong shape or type.
    InvalidConfig,
    /// A dependency name cannot form a valid crate identifier.
    UnresolvedDependency,
    /// Whole-graph semantic validation failed in the driver.
    TypeCheckFailed,
    /// No distinguished "main" function exists in the root crate.
    EntryPointNotFound,
    /// The driver failed to lower the checked graph to bytecode, or the
    /// lowered output would collide on a program name.
    CodegenFailed,
    /// The artifact could not be rendered in the host's concrete format.
    SerializationFailed,
}

impl FailureKind {
    /// The text of the abort message for this failure.
    pub open spec fn spec_describe(self) -> Seq<char> {
        match self {
            FailureKind::InvalidConfig => "Could not deserialize compile arguments"@,
            FailureKind::UnresolvedDependency => "Could not resolve dependency"@,
            FailureKind::TypeCheckFailed => "Crate check failed"@,
            FailureKind::EntryPointNotFound => "Could not find main function!"@,
            FailureKind::CodegenFailed => "Compilation failed"@,
            FailureKind::SerializationFailed => "Could not serialize compile result"@,
        }
    }

    /// The human-readable abort message handed to the host.
    pub fn describe(&self) -> (r: String)
        ensures
            r@ == self.spec_describe(),
    {
        match self {
            FailureKind::InvalidConfig => String::from_str("Could not deserialize compile arguments"),
            FailureKind::UnresolvedDependency => String::from_str("Could not resolve dependency"),
            FailureKind::TypeCheckFailed => String::from_str("Crate check failed"),
            FailureKind::EntryPointNotFound => String::from_str("Could not find main function!"),
            FailureKind::CodegenFailed => String::from_str("Compilation failed"),
            FailureKind::SerializationFailed => String::from_str("Could not serialize compile result"),
        }
    }
}

} // verus!
