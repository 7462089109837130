//! Compile-time failures.
//!
//! These cover the compiler's own error channel only: shape mismatches found
//! while lowering, constructs the translator does not support, and
//! unresolved names.  Faults of the *generated* code (allocation failure, a
//! dispatch-table miss) are hardware traps, modeled by
//! [`crate::interp::TrapReason`], and never appear here.

use vstd::prelude::*;

verus! {

/// A compile-time failure, reported up through compilation instead of
/// aborting.
#[derive(Debug, Clone, Copy, PartialEq, Eq, Structural)]
pub enum CompileError {
    /// A call or assignment whose target is not an identifier.
    NotAnIdentifier,
    /// A top-level form that is not a function declaration, or a function
    /// whose declared type is not a function type.
    NotAFunction,
    /// A literal that is not a decimal number fitting the 64-bit value slot.
    BadLiteral,
    /// A construct the translator does not support yet (a nested function
    /// definition, a global data address, a foreign call).
    Unsupported,
    /// An identifier that no enclosing assignment or parameter binds.
    UnknownVariable,
    /// A callee name with no entry in the symbol registry.
    UnknownFunction,
    /// A call whose argument count differs from the callee's declared
    /// parameter count.
    ArityMismatch,
}

} // verus!
