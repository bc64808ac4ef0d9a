use vstd::prelude::*;

verus! {

/// The ways an evaluation can fail. All failures are detected before any part
/// of a proposal is produced; there is no partial output.
#[derive(Clone, Copy, Debug, PartialEq, Eq, Structural)]
pub enum EvalError {
    /// The request envelope did not decompose into an order snapshot and a
    /// configuration. Only the unverified boundary code reports this; the
    /// engine itself always receives typed values.
    MalformedInput,
    /// A configuration field that should hold a number does not parse as one.
    InvalidConfiguration,
    /// A global identifier lacks a numeric trailing segment.
    MalformedIdentifier,
}

} // verus!
