//! The one error type of a run.

use vstd::prelude::*;

verus! {

/// Why a run failed. A run either ends with its diagnostic lines or with
/// exactly one of these.
#[derive(Clone, Copy, Debug, PartialEq, Eq, Hash, Structural)]
pub enum SimulationError {
    /// The contract's source could not be had.
    SourceFetch,
    /// The patched source did not compile.
    Compile,
    /// The transaction or its block was not found on the chain.
    ChainLookup,
    /// The chain or its execution rules are not among those supported.
    UnsupportedChainConfig,
    /// The pre-state trace is not in the shape that can be applied.
    UnsupportedTraceFormat,
    /// An account override sets both `state` and `state_diff`.
    ConflictingOverride,
    /// A replayed transaction or the target transaction failed at the backend.
    Execution,
}

impl SimulationError {
    /// The text of the error, as a view.
    pub open spec fn spec_message(self) -> Seq<char> {
        match self {
            SimulationError::SourceFetch => "contract source could not be fetched"@,
            SimulationError::Compile => "patched source did not compile"@,
            SimulationError::ChainLookup => "transaction or block not found"@,
            SimulationError::UnsupportedChainConfig => "unsupported chain configuration"@,
            SimulationError::UnsupportedTraceFormat => "unsupported trace format"@,
            SimulationError::ConflictingOverride => "state and state_diff can't be used together"@,
            SimulationError::Execution => "execution failed at the backend"@,
        }
    }

    /// The text of the error.
    pub fn message(&self) -> (r: String)
        ensures
            r@ == self.spec_message(),
    {
        match self {
            SimulationError::SourceFetch => "contract source could not be fetched".to_owned(),
            SimulationError::Compile => "patched source did not compile".to_owned(),
            SimulationError::ChainLookup => "transaction or block not found".to_owned(),
            SimulationError::UnsupportedChainConfig => "unsupported chain configuration".to_owned(),
            SimulationError::UnsupportedTraceFormat => "unsupported trace format".to_owned(),
            SimulationError::ConflictingOverride => {
                "state and state_diff can't be used together".to_owned()
            },
            SimulationError::Execution => "execution failed at the backend".to_owned(),
        }
    }
}

} // verus!
