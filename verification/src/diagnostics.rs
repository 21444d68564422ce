//! Findings the analyses report. A diagnostic names the contract and the
//! function or modifier it was found in by node identity, the 1-based source
//! line where one could be recovered, and the finding itself; rendering the
//! record as text is left to the caller.
use vstd::prelude::*;

use crate::ast::NodeID;

verus! {

/// The token-contract entry points that have safe-wrapper equivalents.
#[derive(Clone, Copy, Debug, PartialEq, Eq, Structural)]
pub enum Erc20Function {
    Transfer,
    TransferFrom,
    Approve,
}

/// What a pass found at the reported location.
#[derive(Clone, Copy, Debug, PartialEq, Eq, Structural)]
pub enum Finding {
    /// A state variable is written, incremented, decremented or mutated
    /// through an array operation after an external call in the scope named
    /// by `block` or one of its ancestors.
    PostExternalCallStateMutation { block: NodeID },
    /// The definition contains an `assert(...)` call.
    AssertUsage,
    /// A return statement returns a previously declared local variable (or a
    /// tuple made entirely of them) by name instead of inline.
    ExplicitLocalReturn { tuple: bool },
    /// A public getter that only returns the named state variable.
    RedundantGetter { state_variable: NodeID },
    /// A token-contract call that has a safe-wrapper equivalent.
    Erc20UnsafeCall { function: Erc20Function },
    /// A call whose non-empty return value is discarded.
    UnusedReturn { called: NodeID },
}

/// One reported finding, located by the identities of the enclosing contract
/// and function or modifier, and by source line where one was recovered.
#[derive(Clone, Copy, Debug, PartialEq, Eq, Structural)]
pub struct Diagnostic {
    pub contract: NodeID,
    pub definition: NodeID,
    pub line: Option<usize>,
    pub finding: Finding,
}

} // verus!
