//! Messages the contract accepts, the acknowledgements it returns, and
//! the errors an invocation can end with.

use vstd::prelude::*;

verus! {

/// Message that initializes the contract with a starting counter value.
pub struct InitMsg {
    pub count: i32,
}

/// The mutating commands.
#[derive(Clone, Copy, Debug)]
pub enum HandleMsg {
    /// Add `value` to the counter.  Any caller may do this.
    Increase { value: i32 },
    /// Subtract `value` from the counter.  Any caller may do this.
    Decrease { value: i32 },
    /// Overwrite the counter with `count`.  Only the owner may do this.
    Reset { count: i32 },
}

/// The read-only queries.
#[derive(Clone, Copy, Debug)]
pub enum QueryMsg {
    /// Ask for the counter's parity, rendered as a human-readable string.
    QueryEvenOdd {},
}

/// Why an invocation failed.  Every error is terminal for the invocation:
/// a failed command leaves the stored state exactly as it was.
#[derive(Clone, Copy, Debug, PartialEq, Eq, Structural)]
pub enum ContractError {
    /// A command or query arrived before the contract was initialized.
    NotInitialized,
    /// `Reset` was attempted by a caller other than the owner.
    Unauthorized,
}

/// Empty acknowledgement returned by a successful initialization.
#[derive(Clone, Copy, Debug, PartialEq, Eq, Structural)]
pub struct InitResponse {}

/// Empty acknowledgement returned by a successful mutating command.
#[derive(Clone, Copy, Debug, PartialEq, Eq, Structural)]
pub struct HandleResponse {}

impl Default for InitResponse {
    /// The empty acknowledgement.
    fn default() -> (r: InitResponse)
        ensures
            r == (InitResponse {}),
    {
        InitResponse {}
    }
}

impl Default for HandleResponse {
    /// The empty acknowledgement.
    fn default() -> (r: HandleResponse)
        ensures
            r == (HandleResponse {}),
    {
        HandleResponse {}
    }
}

} // verus!
