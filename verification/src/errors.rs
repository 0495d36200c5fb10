//! The recoverable errors of the challenge state machine.

use vstd::prelude::*;

verus! {

/// Every way an operation of the challenge state machine can refuse to act.
/// Each aborts its operation with no state change.
#[derive(Clone, Copy, Debug, PartialEq, Eq, Structural)]
pub enum EntropyError {
    /// The randomness collaborator was missing or invalid at creation time.
    UnsupportedRandomnessSource,
    /// A debit would exceed the available balance.
    InsufficientFunds,
    /// A credit would exceed the representable maximum balance.
    Overflow,
    /// The challenge's outcome is already non-zero.
    AlreadySolved,
    /// The proof buffer has the wrong length or holds no valid group elements.
    MalformedProof,
    /// The proof decodes but fails the verification equation.
    InvalidProof,
}

} // verus!
