use vstd::prelude::*;

verus! {

/// Failures of the inference adapter.
#[derive(Clone, Copy, Debug, PartialEq, Eq, Structural)]
pub enum AdapterError {
    /// The backend could not be reached, or the call timed out.
    TransportError,
    /// The backend answered with a body of an unexpected shape.
    ProtocolError,
    /// A tokenize or detokenize call failed.
    TokenizationError,
    /// Another inference is in flight; try again later.
    Busy,
    /// Token usage could not be measured: the budget is unknown.
    UnableToCompute,
}

/// Failures of chat registration.
#[derive(Clone, Copy, Debug, PartialEq, Eq, Structural)]
pub enum RegistryError {
    /// A session that fires on every message cannot be limited to mentions.
    InvalidCombination,
    /// The channel already has a session.
    AlreadyExists,
}

} // verus!
