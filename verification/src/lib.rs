//! Compiler backend for a small function-oriented language.
//!
//! The pipeline lowers a tree-shaped expression AST into a flat,
//! call-marshaling-aware sequence ([`middleware`]), plans one unit of native
//! code per lowered expression ([`plan`]), and emits the planned units as a
//! block-indexed, resumable native state machine.  A driver loop repeatedly
//! invokes a compiled function until it signals completion; [`interp`] models
//! that execution over the planned blocks, and [`emit`] realizes them as
//! native code.  Function symbols are derived deterministically from source
//! names ([`symbols`]) and resolved through a registry ([`registry`]); the
//! runtime's heap structures are laid out by [`layout`].

use vstd::prelude::*;

pub mod ast;
pub mod emit;
pub mod errors;
pub mod interp;
pub mod layout;
pub mod literal;
pub mod middleware;
pub mod plan;
pub mod registry;
pub mod symbols;
pub mod trap;
pub mod translator;

verus! {

} // verus!
