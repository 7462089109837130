//! Trap codes the compiler plants in generated code.

use vstd::prelude::*;

verus! {

/// The traps generated code can raise on purpose, beyond those of the
/// code-emission library itself.
#[derive(Debug, Clone, Copy, PartialEq, Eq, Structural)]
pub enum CompilerTrapCode {
    /// A block index beyond the dispatch table reached the dispatcher.
    EndOfBlocks,
}

impl CompilerTrapCode {
    /// The user trap-code number this trap is planted as.
    pub fn code(&self) -> (r: u8)
        ensures
            self is EndOfBlocks ==> r == 25,
    {
        match self {
            CompilerTrapCode::EndOfBlocks => 25,
        }
    }
}

} // verus!
